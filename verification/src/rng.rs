//! Uniform random cell placement for coins, the one place the simulation
//! draws randomness from an outside generator.

use vstd::prelude::*;
use rand::Rng;
use crate::grid::{GridCoord, GRID_X, GRID_Y, spec_in_bounds};

verus! {

/// Relies on rand::Rng::gen_range over the half-open range `0..n`: it
/// panics only on an empty range, which `0 < n` rules out, and returns a
/// value drawn from within the range. Nothing more is assumed of the
/// draw; it may differ between two calls on the same argument.
#[verifier::external_body]
fn rand_below(n: i32) -> (r: i32)
    requires
        0 < n,
    ensures
        0 <= r < n,
{
    rand::thread_rng().gen_range(0..n)
}

/// A uniformly random cell of the play field, each axis drawn
/// independently. No attempt is made to avoid cells occupied by the
/// snake: a coin may legally appear under the body.
pub fn random_cell() -> (r: GridCoord)
    ensures
        spec_in_bounds(r),
{
    let i: i32 = rand_below(GRID_X);
    let j: i32 = rand_below(GRID_Y);
    GridCoord { i, j }
}

} // verus!
