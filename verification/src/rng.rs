//! The one place the library touches a random number generator: the
//! reflection jitter. The generator handle is opaque; all the library
//! ever assumes of a draw is its range.

use vstd::prelude::*;

verus! {

#[verifier::external_type_specification]
#[verifier::external_body]
pub struct ExThreadRng(rand::rngs::ThreadRng);

/// Relies on rand's `RngExt::random_range` over `lo..=hi` on `i64`:
/// the draw lies in the range; the call panics only on an empty
/// range, which the precondition rules out. Nothing further is
/// assumed — in particular not that two draws agree.
#[verifier::external_body]
pub fn gen_range(rng: &mut rand::rngs::ThreadRng, lo: i64, hi: i64) -> (r: i64)
    requires
        lo <= hi,
    ensures
        lo <= r <= hi,
{
    rand::RngExt::random_range(rng, lo..=hi)
}

} // verus!
