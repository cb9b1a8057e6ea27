//! Draws from the thread-local random number generator of `rand`.
use vstd::prelude::*;
use rand::RngExt;

verus! {

/// Trusted: `rand::rng().random_range(0..bound)`, a uniform draw below
/// `bound`. It panics on an empty range, hence `bound > 0`. Which number
/// comes is chance; only its range is stated.
#[verifier::external_body]
pub(crate) fn random_below(bound: u32) -> (r: u32)
    requires
        bound > 0,
    ensures
        r < bound,
{
    rand::rng().random_range(0..bound)
}

/// Trusted: `rand::rng().random_ratio(numerator, denominator)`, `true` with
/// probability `numerator / denominator`. It panics when `denominator == 0`
/// or `numerator > denominator`; its documentation guarantees `false` for a
/// zero numerator and `true` when the two are equal. Otherwise the outcome is
/// chance.
#[verifier::external_body]
pub(crate) fn random_ratio(numerator: u32, denominator: u32) -> (r: bool)
    requires
        0 < denominator,
        numerator <= denominator,
    ensures
        numerator == 0 ==> !r,
        numerator == denominator ==> r,
{
    rand::rng().random_ratio(numerator, denominator)
}

} // verus!
