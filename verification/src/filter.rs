//! The Bloom filter itself: a bit array of `m` flags probed at `k`
//! positions per item. The two digests of an item are combined by the
//! Kirsch–Mitzenmacher double-hashing scheme, `index_i = h1 + i * h2`
//! with wraparound arithmetic, reduced modulo `m`.

use vstd::prelude::*;

use crate::bits::{bits_get, bits_new, bits_of, bits_set};
use crate::hashing::fx_hasher_new;
use std::hash::{Hash, Hasher};
use std::marker::PhantomData;

verus! {

/// The i-th simulated hash of an item with digests `h1` and `h2`, reduced
/// into a bit array of length `m`: `(h1 + i * h2) mod 2^64 mod m`.
pub open spec fn index_spec(h1: u64, h2: u64, i: u64, m: int) -> int
    recommends
        m > 0,
{
    (h1.wrapping_add(i.wrapping_mul(h2)) as int) % m
}

/// A bit array of `m` clear flags, the state of a fresh filter.
pub open spec fn all_clear(m: nat) -> Seq<bool> {
    Seq::new(m, |j: int| false)
}

/// The bit array `bits` after inserting an item with digests `h1` and `h2`:
/// the `k` probed positions are set, every other flag is untouched.
pub open spec fn bits_after_insert(bits: Seq<bool>, h1: u64, h2: u64, k: u64, m: int) -> Seq<bool> {
    Seq::new(
        bits.len(),
        |j: int| bits[j] || (exists|i: u64| i < k && index_spec(h1, h2, i, m) == j),
    )
}

/// Whether all `k` probed positions of an item with digests `h1` and `h2`
/// are set in `bits`: what a query of that item returns.
pub open spec fn all_probes_set(bits: Seq<bool>, h1: u64, h2: u64, k: u64, m: int) -> bool {
    forall|i: u64| i < k ==> bits[index_spec(h1, h2, i, m)]
}

/// Taking one more probe into account sets exactly one more position:
/// inserting with `i + 1` simulated hash functions yields the array that
/// inserting with `i` of them yields, with position `i`'s index set.
proof fn lemma_insert_one_more(bits: Seq<bool>, h1: u64, h2: u64, i: u64, m: int)
    requires
        m > 0,
        bits.len() == m,
        i < u64::MAX,
    ensures
        bits_after_insert(bits, h1, h2, (i + 1) as u64, m) == bits_after_insert(
            bits,
            h1,
            h2,
            i,
            m,
        ).update(index_spec(h1, h2, i, m), true),
{
    let tgt = index_spec(h1, h2, i, m);
    let a = bits_after_insert(bits, h1, h2, (i + 1) as u64, m);
    let b = bits_after_insert(bits, h1, h2, i, m).update(tgt, true);
    assert(0 <= tgt < m);
    assert forall|j: int| 0 <= j < m implies a[j] == b[j] by {
        if j == tgt {
            assert(i < i + 1 && index_spec(h1, h2, i, m) == j);
            assert(a[j] && b[j]);
        } else {
            if a[j] && !bits[j] {
                let n0 = choose|n: u64| n < i + 1 && index_spec(h1, h2, n, m) == j;
                assert(n0 != i);
                assert(n0 < i && index_spec(h1, h2, n0, m) == j);
            }
            if b[j] && !bits[j] {
                let n0 = choose|n: u64| n < i && index_spec(h1, h2, n, m) == j;
                assert(n0 < i + 1 && index_spec(h1, h2, n0, m) == j);
            }
        }
    }
    assert(a =~= b);
}

/// A standard Bloom filter using the Kirsch–Mitzenmacher optimization
/// and two hash states.
#[verifier::reject_recursive_types(T)]
pub struct BloomFilter<T: ?Sized> {
    k: u64,
    m: usize,
    hashers: [fxhash::FxHasher; 2],
    bitmap: bit_vec::BitVec,
    _phantom: PhantomData<T>,
}

impl<T: ?Sized> BloomFilter<T> {
    /// The bit array as a sequence of flags.
    pub closed spec fn bits(&self) -> Seq<bool> {
        bits_of(self.bitmap)
    }

    /// The number of simulated hash functions.
    pub closed spec fn spec_k(&self) -> u64 {
        self.k
    }

    /// The length of the bit array.
    pub closed spec fn spec_m(&self) -> usize {
        self.m
    }

    /// A filter is well formed when `m` is positive and the bit array holds
    /// exactly `m` flags.
    pub open spec fn wf(&self) -> bool {
        self.spec_m() > 0 && self.bits().len() == self.spec_m()
    }

    /// Returns a filter over a bit array of `m` clear flags, probed with
    /// `k` simulated hash functions per item, its two hash states freshly
    /// initialized.
    pub fn new(m: usize, k: u64) -> (r: Self)
        requires
            m > 0,
        ensures
            r.wf(),
            r.spec_m() == m,
            r.spec_k() == k,
            r.bits() == all_clear(m as nat),
    {
        let bitmap = bits_new(m, false);
        let hashers = [fx_hasher_new(), fx_hasher_new()];
        BloomFilter { k, m, hashers, bitmap, _phantom: PhantomData }
    }

    /// Returns `k`, the number of simulated hash functions.
    pub fn k(&self) -> (r: u64)
        ensures
            r == self.spec_k(),
    {
        self.k
    }

    /// Returns `m`, the length of the bit array.
    pub fn m(&self) -> (r: usize)
        ensures
            r == self.spec_m(),
    {
        self.m
    }

    /// Returns the flag at position `i` of the bit array.
    pub fn bit(&self, i: usize) -> (r: bool)
        requires
            self.wf(),
            i < self.spec_m(),
        ensures
            r == self.bits()[i as int],
    {
        match bits_get(&self.bitmap, i) {
            Some(b) => b,
            None => false,
        }
    }

    /// Folds the `i`-th simulated hash of the digests `(hash1, hash2)` into
    /// a bit-array index, wrapping at the integer boundary and reducing
    /// modulo `m`: the result always lies in `[0, m)`.
    pub fn find_index(&self, i: u64, hash1: u64, hash2: u64) -> (r: usize)
        requires
            self.spec_m() > 0,
        ensures
            r == index_spec(hash1, hash2, i, self.spec_m() as int),
            r < self.spec_m(),
    {
        let w: u64 = hash1.wrapping_add(i.wrapping_mul(hash2));
        let r64: u64 = w % (self.m as u64);
        r64 as usize
    }

    /// Sets the `k` probed positions of an item whose two digests are
    /// `hash1` and `hash2`; no other flag changes, and no flag is cleared.
    pub fn insert_hashes(&mut self, hash1: u64, hash2: u64)
        requires
            old(self).wf(),
        ensures
            final(self).wf(),
            final(self).spec_m() == old(self).spec_m(),
            final(self).spec_k() == old(self).spec_k(),
            final(self).bits() == bits_after_insert(
                old(self).bits(),
                hash1,
                hash2,
                old(self).spec_k(),
                old(self).spec_m() as int,
            ),
    {
        let ghost bits0 = self.bits();
        let ghost m = self.spec_m() as int;
        let ghost k = self.spec_k();
        proof {
            assert(bits_after_insert(bits0, hash1, hash2, 0, m) =~= bits0);
        }
        let mut i: u64 = 0;
        while i < self.k
            invariant
                self.wf(),
                self.spec_m() as int == m,
                self.spec_k() == k,
                i <= k,
                bits0.len() == m,
                self.bits() == bits_after_insert(bits0, hash1, hash2, i, m),
            decreases k - i,
        {
            let index = self.find_index(i, hash1, hash2);
            bits_set(&mut self.bitmap, index, true);
            proof {
                lemma_insert_one_more(bits0, hash1, hash2, i, m);
            }
            i = i + 1;
        }
    }

    /// Returns whether every one of the `k` probed positions of an item
    /// whose two digests are `hash1` and `hash2` is set; the filter itself
    /// does not change.
    pub fn contains_hashes(&mut self, hash1: u64, hash2: u64) -> (r: bool)
        requires
            old(self).wf(),
        ensures
            *final(self) == *old(self),
            r == all_probes_set(
                old(self).bits(),
                hash1,
                hash2,
                old(self).spec_k(),
                old(self).spec_m() as int,
            ),
    {
        let ghost m = self.spec_m() as int;
        let ghost k = self.spec_k();
        let mut i: u64 = 0;
        while i < self.k
            invariant
                self.wf(),
                self.spec_m() as int == m,
                self.spec_k() == k,
                *self == *old(self),
                i <= k,
                forall|n: u64| n < i ==> self.bits()[index_spec(hash1, hash2, n, m)],
            decreases k - i,
        {
            let index = self.find_index(i, hash1, hash2);
            match bits_get(&self.bitmap, index) {
                Some(true) => {},
                _ => {
                    return false;
                },
            }
            i = i + 1;
        }
        true
    }
}

impl<T: Hash + ?Sized> BloomFilter<T> {
    /// Computes the two digests of `t`, each from a fresh clone of one of
    /// the filter's two stored hash states, so no call perturbs the state
    /// another call starts from. Relies on `Hash::hash` feeding `t` into a
    /// clone of each `fxhash::FxHasher` and on `FxHasher::finish` reading
    /// the digest out; no contract relates two calls, so callers state
    /// what holds of every pair of digests.
    #[verifier::external_body]
    pub fn hash(&self, t: &T) -> (u64, u64) {
        let mut hash1 = self.hashers[0].clone();
        let mut hash2 = self.hashers[1].clone();
        t.hash(&mut hash1);
        t.hash(&mut hash2);
        (hash1.finish(), hash2.finish())
    }

    /// Inserts `t`: computes its two digests and sets the probed position
    /// of each of the `k` simulated hash functions. Whatever digests come
    /// back, the update is exactly an insertion of some digest pair: no
    /// flag is ever cleared, and `m` and `k` do not change.
    pub fn insert(&mut self, t: &T)
        requires
            old(self).wf(),
        ensures
            final(self).wf(),
            final(self).spec_m() == old(self).spec_m(),
            final(self).spec_k() == old(self).spec_k(),
            exists|h1: u64, h2: u64|
                final(self).bits() == bits_after_insert(
                    old(self).bits(),
                    h1,
                    h2,
                    old(self).spec_k(),
                    old(self).spec_m() as int,
                ),
            forall|j: int|
                0 <= j < old(self).bits().len() && old(self).bits()[j] ==> final(self).bits()[j],
    {
        let (hash1, hash2) = self.hash(t);
        self.insert_hashes(hash1, hash2);
    }

    /// Queries `t`: computes its two digests and returns whether all `k`
    /// probed positions are set. The filter itself does not change, so a
    /// query can never clear a flag that an insertion set.
    pub fn contains(&mut self, t: &T) -> (r: bool)
        requires
            old(self).wf(),
        ensures
            *final(self) == *old(self),
            exists|h1: u64, h2: u64|
                r == all_probes_set(
                    old(self).bits(),
                    h1,
                    h2,
                    old(self).spec_k(),
                    old(self).spec_m() as int,
                ),
    {
        let (hash1, hash2) = self.hash(t);
        self.contains_hashes(hash1, hash2)
    }
}

} // verus!
