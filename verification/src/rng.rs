//! The source of randomness: a seedable generator of the `rand` crate.

use crate::coords::{Coords, GRID_SIZE};
use rand::Rng;
use rand::StdRng;
use vstd::prelude::*;

verus! {

/// `rand::StdRng`, the generator that every random draw of the game comes from. Nothing is
/// known of what it holds.
#[verifier::external_type_specification]
#[verifier::external_body]
pub struct ExStdRng(StdRng);

/// Draws from `[low, high)` with `rand::Rng::gen_range`.
///
/// Trusted: `gen_range` panics unless `low < high`, and for the integer types it returns
/// `low` plus a remainder modulo `high - low`, so the draw lies in the half-open range.
/// Nothing is claimed about which value of the range comes out.
#[verifier::external_body]
pub(crate) fn gen_range_i16(rng: &mut StdRng, low: i16, high: i16) -> (r: i16)
    requires
        low < high,
    ensures
        low <= r < high,
{
    rng.gen_range(low, high)
}

impl Coords {
    /// A cell of the grid drawn at random, each component on its own.
    pub fn rand(rng: &mut StdRng) -> (c: Coords)
        ensures
            c.in_grid(),
    {
        let x: i16 = gen_range_i16(rng, 0, GRID_SIZE);
        let y: i16 = gen_range_i16(rng, 0, GRID_SIZE);
        Coords { x, y }
    }
}

} // verus!
