//! The filter's guarantees, stated over the bit-array model and proved
//! once and for all: what an insertion sets stays set, repeated insertion
//! changes nothing, the probed positions depend only on the digests and
//! the parameters, and a fresh filter finds nothing.

use vstd::prelude::*;

use crate::filter::{all_clear, all_probes_set, bits_after_insert, index_spec, BloomFilter};

verus! {

/// The bit array after the same digest pair has been inserted `n` times
/// over.
pub open spec fn bits_after_repeated_insert(
    bits: Seq<bool>,
    h1: u64,
    h2: u64,
    k: u64,
    m: int,
    n: nat,
) -> Seq<bool>
    decreases n,
{
    if n == 0 {
        bits
    } else {
        bits_after_insert(bits_after_repeated_insert(bits, h1, h2, k, m, (n - 1) as nat), h1, h2, k, m)
    }
}

/// Law: an item just inserted is found. Inserting the digests `(h1, h2)`
/// sets every one of their `k` probed positions.
pub proof fn lemma_insert_sets_own_probes(bits: Seq<bool>, h1: u64, h2: u64, k: u64, m: int)
    requires
        m > 0,
        bits.len() == m,
    ensures
        all_probes_set(bits_after_insert(bits, h1, h2, k, m), h1, h2, k, m),
{
    assert forall|i: u64| i < k implies bits_after_insert(bits, h1, h2, k, m)[index_spec(
        h1,
        h2,
        i,
        m,
    )] by {
        let j = index_spec(h1, h2, i, m);
        assert(0 <= j < m);
        assert(i < k && index_spec(h1, h2, i, m) == j);
    }
}

/// Law: no insertion clears a flag. An item whose probed positions are all
/// set keeps them all set across an insertion of any other digest pair, so
/// once found it is found forever, whatever is inserted in between.
pub proof fn lemma_insert_preserves_probes(
    bits: Seq<bool>,
    h1: u64,
    h2: u64,
    g1: u64,
    g2: u64,
    k: u64,
    m: int,
)
    requires
        m > 0,
        bits.len() == m,
        all_probes_set(bits, h1, h2, k, m),
    ensures
        all_probes_set(bits_after_insert(bits, g1, g2, k, m), h1, h2, k, m),
{
    assert forall|i: u64| i < k implies bits_after_insert(bits, g1, g2, k, m)[index_spec(
        h1,
        h2,
        i,
        m,
    )] by {
        let j = index_spec(h1, h2, i, m);
        assert(0 <= j < m);
        assert(bits[j]);
    }
}

/// The bit array after a whole sequence of insertions, one digest pair
/// per inserted item, applied in order.
pub open spec fn bits_after_inserts(
    bits: Seq<bool>,
    digests: Seq<(u64, u64)>,
    k: u64,
    m: int,
) -> Seq<bool>
    decreases digests.len(),
{
    if digests.len() == 0 {
        bits
    } else {
        bits_after_insert(
            bits_after_inserts(bits, digests.drop_last(), k, m),
            digests.last().0,
            digests.last().1,
            k,
            m,
        )
    }
}

/// No insertion changes the length of the bit array.
pub proof fn lemma_inserts_keep_len(bits: Seq<bool>, digests: Seq<(u64, u64)>, k: u64, m: int)
    ensures
        bits_after_inserts(bits, digests, k, m).len() == bits.len(),
    decreases digests.len(),
{
    if digests.len() > 0 {
        lemma_inserts_keep_len(bits, digests.drop_last(), k, m);
    }
}

/// Law: no false negatives. Whatever sequence of insertions the filter
/// saw, if the digests `(h1, h2)` were inserted at any point, every one of
/// their probed positions is set afterwards, so a query of that item
/// returns true.
pub proof fn lemma_no_false_negatives(
    bits: Seq<bool>,
    digests: Seq<(u64, u64)>,
    h1: u64,
    h2: u64,
    k: u64,
    m: int,
)
    requires
        m > 0,
        bits.len() == m,
        exists|t: int| 0 <= t < digests.len() && digests[t] == (h1, h2),
    ensures
        all_probes_set(bits_after_inserts(bits, digests, k, m), h1, h2, k, m),
    decreases digests.len(),
{
    let t = choose|t: int| 0 <= t < digests.len() && digests[t] == (h1, h2);
    let earlier = bits_after_inserts(bits, digests.drop_last(), k, m);
    lemma_inserts_keep_len(bits, digests.drop_last(), k, m);
    if t == digests.len() - 1 {
        lemma_insert_sets_own_probes(earlier, h1, h2, k, m);
    } else {
        assert(digests.drop_last()[t] == (h1, h2));
        lemma_no_false_negatives(bits, digests.drop_last(), h1, h2, k, m);
        lemma_insert_preserves_probes(
            earlier,
            h1,
            h2,
            digests.last().0,
            digests.last().1,
            k,
            m,
        );
    }
}

/// Law: inserting the same digests twice in a row yields the very bit
/// array that one insertion yields.
pub proof fn lemma_insert_idempotent(bits: Seq<bool>, h1: u64, h2: u64, k: u64, m: int)
    ensures
        bits_after_insert(bits_after_insert(bits, h1, h2, k, m), h1, h2, k, m)
            == bits_after_insert(bits, h1, h2, k, m),
{
    let once = bits_after_insert(bits, h1, h2, k, m);
    assert(bits_after_insert(once, h1, h2, k, m) =~= once);
}

/// Law: inserting the same digests `n >= 1` times over yields the very bit
/// array that one insertion yields.
pub proof fn lemma_repeated_insert(bits: Seq<bool>, h1: u64, h2: u64, k: u64, m: int, n: nat)
    requires
        n >= 1,
    ensures
        bits_after_repeated_insert(bits, h1, h2, k, m, n) == bits_after_insert(bits, h1, h2, k, m),
    decreases n,
{
    if n == 1 {
        assert(bits_after_repeated_insert(bits, h1, h2, k, m, 0) == bits);
    } else {
        lemma_repeated_insert(bits, h1, h2, k, m, (n - 1) as nat);
        lemma_insert_idempotent(bits, h1, h2, k, m);
    }
}

/// Law: the probed positions are deterministic. Two filters built with the
/// same parameters hold the same `m` and `k`, and an item's position under
/// each simulated hash function is a function of the digests and those
/// parameters alone, so the two filters probe identical index sequences.
pub proof fn lemma_deterministic_indices<T: ?Sized, U: ?Sized>(
    f: &BloomFilter<T>,
    g: &BloomFilter<U>,
    h1: u64,
    h2: u64,
)
    requires
        f.spec_m() == g.spec_m(),
        f.spec_k() == g.spec_k(),
    ensures
        forall|i: u64|
            i < f.spec_k() ==> index_spec(h1, h2, i, f.spec_m() as int) == index_spec(
                h1,
                h2,
                i,
                g.spec_m() as int,
            ),
{
}

/// Law: a fresh filter finds nothing. With every flag clear and at least
/// one probe per item, a query of any digest pair returns false.
pub proof fn lemma_empty_filter_finds_nothing(h1: u64, h2: u64, k: u64, m: int)
    requires
        m > 0,
        k >= 1,
    ensures
        !all_probes_set(all_clear(m as nat), h1, h2, k, m),
{
    let j = index_spec(h1, h2, 0, m);
    assert(0 <= j < m);
    assert(!all_clear(m as nat)[j]);
}

} // verus!
