//! The library's only source of randomness: the thread-local generator of the
//! `rand` crate. Nothing is proved of these two functions; their contracts say
//! what `rand` documents of every outcome.

use rand::Rng;
use vstd::prelude::*;

verus! {

/// Calls `rand::Rng::gen_range(low..high)` on `rand::thread_rng()`.
///
/// `gen_range` panics on an empty range, so the range must hold a value. What
/// comes back lies in the half-open range; which value it is, is left open.
/// (The generator is seeded from the operating system on first use and stops
/// the thread if the system cannot provide a seed.)
#[verifier::external_body]
pub(crate) fn random_range(low: u16, high: u16) -> (r: u16)
    requires
        low < high,
    ensures
        low <= r < high,
{
    rand::thread_rng().gen_range(low..high)
}

/// Calls `rand::Rng::gen_ratio(numerator, denominator)` on `rand::thread_rng()`:
/// a coin that lands `true` with probability `numerator / denominator`.
///
/// `gen_ratio` panics on a zero denominator and on a ratio above one. Nothing
/// is claimed of the outcome.
#[verifier::external_body]
pub(crate) fn random_ratio(numerator: u32, denominator: u32) -> (hit: bool)
    requires
        0 < denominator,
        numerator <= denominator,
{
    rand::thread_rng().gen_ratio(numerator, denominator)
}

} // verus!
