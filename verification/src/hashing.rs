//! The two hash states the filter holds. Each digest starts from a fresh
//! clone of a stored `fxhash::FxHasher`, so hashing one item never leaks
//! state into the digest of another.

use vstd::prelude::*;

verus! {

#[verifier::external_type_specification]
#[verifier::external_body]
pub struct ExFxHasher(fxhash::FxHasher);

/// Relies on `fxhash::FxHasher::default`: a hasher in its fixed start state.
#[verifier::external_body]
pub(crate) fn fx_hasher_new() -> fxhash::FxHasher {
    fxhash::FxHasher::default()
}

} // verus!
