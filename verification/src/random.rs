//! Draws from the thread-local generator of the `rand` crate, which
//! `thread_rng` hands out.
//!
//! Nothing here is proved: each function states the little that holds of
//! every draw, and the rest of the library is verified for any value that
//! meets it.
use crate::TimeT;
use rand::{thread_rng, Rng};
use vstd::prelude::*;

verus! {

/// Calls `Rng::gen_range` on `0..bound`. The claim: the draw lies in the
/// range, which the sampler guarantees by adding the high half of a product
/// with the range's width to the lower end. An empty range would panic, so
/// `bound` must be positive.
#[verifier::external_body]
pub(crate) fn random_below(bound: u32) -> (r: u32)
    requires
        bound > 0,
    ensures
        r < bound,
{
    thread_rng().gen_range(0..bound)
}

/// Calls `Rng::gen` for a `u32`. Every 32-bit value may come back, so the
/// contract claims nothing.
#[verifier::external_body]
pub(crate) fn random_bits() -> u32 {
    thread_rng().gen::<u32>()
}

/// Calls `Rng::gen` for a `usize`. Every value of the type may come back,
/// so the contract claims nothing.
#[verifier::external_body]
pub(crate) fn random_time() -> TimeT {
    thread_rng().gen::<TimeT>()
}

/// Calls `Rng::gen_ratio`, which answers true with a chance of `numerator`
/// in `denominator`. The claim is what its sampler fixes at the two ends: no
/// chance at all is always false, and a chance of all in all is always
/// true. A denominator of zero, or a numerator above the denominator, would
/// panic, so both are left out.
#[verifier::external_body]
pub(crate) fn random_ratio(numerator: u32, denominator: u32) -> (r: bool)
    requires
        denominator > 0,
        numerator <= denominator,
    ensures
        numerator == 0 ==> !r,
        numerator == denominator ==> r,
{
    thread_rng().gen_ratio(numerator, denominator)
}

} // verus!
