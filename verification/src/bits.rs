//! The fixed-size bit array backing the filter, kept in a `bit_vec::BitVec`.
//! Its contents are modelled as a `Seq<bool>` through the uninterpreted
//! function `bits_of`, and each method the filter needs is wrapped with a
//! contract over that model.

use vstd::prelude::*;

verus! {

#[verifier::external_type_specification]
#[verifier::external_body]
#[verifier::reject_recursive_types(B)]
pub struct ExBitVec<B>(bit_vec::BitVec<B>);

/// The flags a `bit_vec::BitVec` holds, in index order.
pub uninterp spec fn bits_of(bv: bit_vec::BitVec) -> Seq<bool>;

/// Relies on `bit_vec::BitVec::from_elem`: a vector of `len` bits, each
/// equal to `bit`.
#[verifier::external_body]
pub(crate) fn bits_new(len: usize, bit: bool) -> (r: bit_vec::BitVec)
    ensures
        bits_of(r) == Seq::new(len as nat, |j: int| bit),
{
    bit_vec::BitVec::from_elem(len, bit)
}

/// Relies on `bit_vec::BitVec::set`: writes `bit` at index `i`. It panics
/// when `i` is out of range, so that case is required away.
#[verifier::external_body]
pub(crate) fn bits_set(bv: &mut bit_vec::BitVec, i: usize, bit: bool)
    requires
        i < bits_of(*old(bv)).len(),
    ensures
        bits_of(*final(bv)) == bits_of(*old(bv)).update(i as int, bit),
{
    bv.set(i, bit);
}

/// Relies on `bit_vec::BitVec::get`: `Some` of the bit at index `i` when
/// `i` is in range, `None` otherwise.
#[verifier::external_body]
pub(crate) fn bits_get(bv: &bit_vec::BitVec, i: usize) -> (r: Option<bool>)
    ensures
        r == (if i < bits_of(*bv).len() {
            Some(bits_of(*bv)[i as int])
        } else {
            None::<bool>
        }),
{
    bv.get(i)
}

} // verus!
