//! Arena geometry: grid positions, arena bounds and coordinate validity.

use vstd::prelude::*;

verus! {

/// Width of the arena in cells; valid x coordinates are `0 <= x < ARENA_WIDTH`.
pub const ARENA_WIDTH: i32 = 12;

/// Height of the arena in cells; valid y coordinates are `0 <= y < ARENA_HEIGHT`.
pub const ARENA_HEIGHT: i32 = 12;

/// A cell of the arena grid. Equality is by coordinate. A value may lie
/// outside the arena bounds transiently: that is what signals a wall
/// collision, not an invariant violation.
#[derive(Clone, Copy, PartialEq, Eq, Structural, Debug)]
pub struct GridPosition {
    pub x: i32,
    pub y: i32,
}

/// Whether a position lies inside the arena bounds.
pub open spec fn spec_in_bounds(p: GridPosition) -> bool {
    0 <= p.x < ARENA_WIDTH && 0 <= p.y < ARENA_HEIGHT
}

impl GridPosition {
    /// Whether this position lies inside the arena bounds.
    pub fn in_bounds(&self) -> (r: bool)
        ensures
            r == spec_in_bounds(*self),
    {
        0 <= self.x && self.x < ARENA_WIDTH && 0 <= self.y && self.y < ARENA_HEIGHT
    }
}

} // verus!
