//! The random source of the games: a seedable generator drawn through the
//! `rand` crate, exposed as a draw from an inclusive integer range.

use vstd::prelude::*;
use rand::Rng;
use rand::rngs::StdRng;

verus! {

#[verifier::external_type_specification]
#[verifier::external_body]
pub struct ExStdRng(StdRng);

/// Relies on rand's `Rng::gen_range` over the inclusive range `min..=max`:
/// it panics only on an empty range, and otherwise returns a value uniformly
/// distributed over `[min, max]`.
#[verifier::external_body]
pub(crate) fn gen_range_u32(rng: &mut StdRng, min: u32, max: u32) -> (r: u32)
    requires
        min <= max,
    ensures
        min <= r && r <= max,
{
    rng.gen_range(min..=max)
}

/// Draws a number from the inclusive range `[min, max]`.
///
/// An empty range (`min > max`) is a caller fault, ruled out by the
/// precondition; every draw lies within the bounds.
pub fn draw_number(rng: &mut StdRng, min: u32, max: u32) -> (r: u32)
    requires
        min <= max,
    ensures
        min <= r && r <= max,
{
    gen_range_u32(rng, min, max)
}

} // verus!
