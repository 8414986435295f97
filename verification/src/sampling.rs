//! Trusted boundary to the `rand` crate: the one primitive the
//! augmentation engine draws its randomness from.

use vstd::prelude::*;
use rand::RngExt;

verus! {

/// Relies on rand::RngExt::random_range over a fresh thread-local
/// generator:
/// a uniform draw from the half-open range `lo..hi`. The range is
/// non-empty by the precondition, so the call cannot panic; nothing more
/// than membership in the range holds of any one draw.
#[verifier::external_body]
pub(crate) fn sample_u32(lo: u32, hi: u32) -> (r: u32)
    requires
        lo < hi,
    ensures
        lo <= r < hi,
{
    rand::rng().random_range(lo..hi)
}

} // verus!
