//! Draws from the thread's random number generator.
//!
//! Nothing is known of a draw but its range, and two draws with the same
//! arguments may differ. Code that draws takes the result to a function that
//! is verified for every value of it.

use vstd::prelude::*;
use rand::Rng;

verus! {

/// A number from `low..high`, drawn by `rand::Rng::gen_range` on
/// `rand::thread_rng()`. The range must not be empty: the generator panics on
/// an empty range. The contract claims the bounds of the draw and nothing of
/// its distribution.
#[verifier::external_body]
pub(crate) fn draw_in_range(low: i128, high: i128) -> (drawn: i128)
    requires
        low < high,
    ensures
        low <= drawn < high,
{
    rand::thread_rng().gen_range(low..high)
}

/// A coin that comes up true with probability `numerator / denominator`,
/// thrown by `rand::Rng::gen_ratio` on `rand::thread_rng()`. The generator
/// panics on a zero denominator and on a ratio above one. The contract claims
/// the two certain cases: a ratio of one is always true, a ratio of zero
/// always false.
#[verifier::external_body]
pub(crate) fn draw_chance(numerator: u32, denominator: u32) -> (hit: bool)
    requires
        0 < denominator,
        numerator <= denominator,
    ensures
        numerator == denominator ==> hit,
        numerator == 0 ==> !hit,
{
    rand::thread_rng().gen_ratio(numerator, denominator)
}

} // verus!
