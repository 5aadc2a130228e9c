//! Source of random arena cells for the food spawner.

use vstd::prelude::*;
use rand::Rng;
use crate::grid::ARENA_HEIGHT;
use crate::grid::ARENA_WIDTH;
use crate::grid::GridPosition;
use crate::grid::spec_in_bounds;

verus! {

/// Relies on rand::thread_rng and rand::Rng::gen_range over `0..bound`: the
/// draw lies in the given half-open range, which the precondition keeps
/// non-empty (gen_range panics on an empty range). Nothing more is assumed
/// of the draw: it is random, and every outcome below the bound is possible.
#[verifier::external_body]
fn random_below(bound: i32) -> (r: i32)
    requires
        bound > 0,
    ensures
        0 <= r < bound,
{
    rand::thread_rng().gen_range(0..bound)
}

/// Draw a random cell of the arena, uniform over the grid.
pub fn random_cell() -> (p: GridPosition)
    ensures
        spec_in_bounds(p),
{
    let x = random_below(ARENA_WIDTH);
    let y = random_below(ARENA_HEIGHT);
    GridPosition { x, y }
}

} // verus!
