//! Movement engine: advance the head one cell in the committed heading and
//! shift every trailing segment to its predecessor's pre-move cell.

use vstd::prelude::*;
use crate::grid::GridPosition;
use crate::heading::Heading;

verus! {

/// The cell one step from `p` in heading `h`: Left is x-1, Right is x+1,
/// Up is y+1, Down is y-1.
pub open spec fn spec_stepped(p: GridPosition, h: Heading) -> GridPosition {
    match h {
        Heading::Left => GridPosition { x: (p.x - 1) as i32, y: p.y },
        Heading::Right => GridPosition { x: (p.x + 1) as i32, y: p.y },
        Heading::Up => GridPosition { x: p.x, y: (p.y + 1) as i32 },
        Heading::Down => GridPosition { x: p.x, y: (p.y - 1) as i32 },
    }
}

/// The ordered segment positions after one move: the head steps in `h`, and
/// every trailing segment takes the pre-move position of its predecessor.
pub open spec fn spec_moved(s: Seq<GridPosition>, h: Heading) -> Seq<GridPosition> {
    Seq::new(s.len(), |i: int| if i == 0 { spec_stepped(s[0], h) } else { s[i - 1] })
}

/// Step a position one cell in heading `h`.
pub fn step(p: GridPosition, h: Heading) -> (r: GridPosition)
    requires
        i32::MIN < p.x < i32::MAX,
        i32::MIN < p.y < i32::MAX,
    ensures
        r == spec_stepped(p, h),
{
    match h {
        Heading::Left => GridPosition { x: p.x - 1, y: p.y },
        Heading::Right => GridPosition { x: p.x + 1, y: p.y },
        Heading::Up => GridPosition { x: p.x, y: p.y + 1 },
        Heading::Down => GridPosition { x: p.x, y: p.y - 1 },
    }
}

/// Advance the snake one tick: compute the new ordered positions and the
/// pre-move position of the tail, the cell it vacates, used as the spawn
/// point for growth. Pure in its inputs; collisions are judged afterwards,
/// on the result, against the pre-move snapshot.
pub fn move_snake(segments: &Vec<GridPosition>, heading: Heading) -> (r: (
    Vec<GridPosition>,
    GridPosition,
))
    requires
        segments@.len() >= 1,
        i32::MIN < segments@[0].x < i32::MAX,
        i32::MIN < segments@[0].y < i32::MAX,
    ensures
        r.0@ == spec_moved(segments@, heading),
        r.1 == segments@.last(),
{
    let mut moved: Vec<GridPosition> = Vec::new();
    moved.push(step(segments[0], heading));
    let mut i: usize = 1;
    while i < segments.len()
        invariant
            1 <= i <= segments@.len(),
            i32::MIN < segments@[0].x < i32::MAX,
            i32::MIN < segments@[0].y < i32::MAX,
            moved@.len() == i,
            moved@[0] == spec_stepped(segments@[0], heading),
            forall|k: int| 1 <= k < i ==> moved@[k] == segments@[k - 1],
        decreases segments@.len() - i,
    {
        moved.push(segments[i - 1]);
        i = i + 1;
    }
    assert(moved@ =~= spec_moved(segments@, heading));
    let tail = segments[segments.len() - 1];
    (moved, tail)
}

/// Law: movement is deterministic. Two results that each satisfy the
/// movement contract for the same ordered positions and heading are equal.
pub proof fn lemma_movement_deterministic(
    s: Seq<GridPosition>,
    h: Heading,
    moved1: Seq<GridPosition>,
    tail1: GridPosition,
    moved2: Seq<GridPosition>,
    tail2: GridPosition,
)
    requires
        s.len() >= 1,
        moved1 == spec_moved(s, h),
        tail1 == s.last(),
        moved2 == spec_moved(s, h),
        tail2 == s.last(),
    ensures
        moved1 == moved2,
        tail1 == tail2,
{
}

/// Law: after any move, the new head differs from the old head by exactly one
/// unit step in exactly one axis, consistent with the heading applied.
pub proof fn lemma_head_unit_step(s: Seq<GridPosition>, h: Heading)
    requires
        s.len() >= 1,
        i32::MIN < s[0].x < i32::MAX,
        i32::MIN < s[0].y < i32::MAX,
    ensures
        h == Heading::Left ==> spec_moved(s, h)[0].x == s[0].x - 1 && spec_moved(s, h)[0].y
            == s[0].y,
        h == Heading::Right ==> spec_moved(s, h)[0].x == s[0].x + 1 && spec_moved(s, h)[0].y
            == s[0].y,
        h == Heading::Up ==> spec_moved(s, h)[0].y == s[0].y + 1 && spec_moved(s, h)[0].x
            == s[0].x,
        h == Heading::Down ==> spec_moved(s, h)[0].y == s[0].y - 1 && spec_moved(s, h)[0].x
            == s[0].x,
{
}

/// Law: every trailing segment takes the pre-move position of its
/// predecessor, and the move neither adds nor drops a segment.
pub proof fn lemma_segments_shift(s: Seq<GridPosition>, h: Heading)
    requires
        s.len() >= 1,
    ensures
        spec_moved(s, h).len() == s.len(),
        forall|i: int| 1 <= i < s.len() ==> spec_moved(s, h)[i] == s[i - 1],
{
}

} // verus!
