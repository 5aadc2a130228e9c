//! Collision detector: after a move, the new head is judged against the
//! arena bounds and against the pre-move snapshot of every segment position.

use vstd::prelude::*;
use crate::grid::ARENA_HEIGHT;
use crate::grid::ARENA_WIDTH;
use crate::grid::GridPosition;
use crate::grid::spec_in_bounds;

verus! {

/// Whether the tick's move raises the game-over signal: the new head lies
/// outside the arena, or it equals some segment position of the pre-move
/// snapshot. The snapshot deliberately includes the old tail cell about to
/// be vacated: the snake may not move onto the cell its own tail is just
/// leaving, even though that cell is empty once the shift completes.
pub open spec fn spec_collides(snapshot: Seq<GridPosition>, head: GridPosition) -> bool {
    !spec_in_bounds(head) || snapshot.contains(head)
}

/// Whether `positions` holds a segment at `p`.
pub fn contains_position(positions: &Vec<GridPosition>, p: GridPosition) -> (r: bool)
    ensures
        r == positions@.contains(p),
{
    let mut i: usize = 0;
    while i < positions.len()
        invariant
            0 <= i <= positions@.len(),
            forall|k: int| 0 <= k < i ==> positions@[k] != p,
        decreases positions@.len() - i,
    {
        if positions[i] == p {
            assert(positions@[i as int] == p);
            return true;
        }
        i = i + 1;
    }
    assert(forall|k: int| 0 <= k < positions@.len() ==> positions@[k] != p);
    false
}

/// Judge the new head position against the pre-move snapshot. Detection does
/// not mutate state; it only signals.
pub fn detect_collision(snapshot: &Vec<GridPosition>, head: GridPosition) -> (r: bool)
    ensures
        r == spec_collides(snapshot@, head),
{
    !head.in_bounds() || contains_position(snapshot, head)
}

/// Law: a head position outside the arena bounds always raises game-over,
/// whatever the snapshot holds.
pub proof fn lemma_wall_collision(snapshot: Seq<GridPosition>, head: GridPosition)
    requires
        head.x < 0 || head.x >= ARENA_WIDTH || head.y < 0 || head.y >= ARENA_HEIGHT,
    ensures
        spec_collides(snapshot, head),
{
}

/// Law: a head position equal to any pre-move segment position always raises
/// game-over.
pub proof fn lemma_self_collision(snapshot: Seq<GridPosition>, head: GridPosition)
    requires
        snapshot.contains(head),
    ensures
        spec_collides(snapshot, head),
{
}

} // verus!
