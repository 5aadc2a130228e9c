//! The world: snake segments, heading, food set, score and per-tick
//! bookkeeping, advanced one fixed tick at a time in the strict order
//! input, movement, collision, game-over reset (short-circuiting the rest),
//! eating, growth, food spawn backfill.

use vstd::prelude::*;
use crate::collision::detect_collision;
use crate::collision::spec_collides;
use crate::eating::eat_foods;
use crate::eating::spec_remaining;
use crate::grid::GridPosition;
use crate::grid::spec_in_bounds;
use crate::heading::Heading;
use crate::heading::InputState;
use crate::heading::map_input;
use crate::heading::spec_mapped;
use crate::movement::move_snake;
use crate::movement::spec_moved;
use crate::spawner::MAX_FOOD_COUNT;
use crate::spawner::spawn_foods;

verus! {

/// The notifications one tick emits for the presentation layer.
#[derive(Clone, Copy, PartialEq, Eq, Structural, Debug)]
pub struct TickEvents {
    /// The run ended this tick and the world was reset.
    pub game_over: bool,
    /// How many food items the head ate this tick; each one also signals an
    /// eat side effect to the presentation layer.
    pub ate: usize,
    /// How many body segments were appended this tick: one per food eaten,
    /// each food independently triggering growth.
    pub grew: usize,
    /// How many food spawn requests this tick queued.
    pub spawn_requested: usize,
}

/// The whole simulation state: one owned struct handed by exclusive borrow to
/// each tick, with no ambient shared state.
pub struct World {
    /// Snake segment positions, ordered head first; never empty.
    pub segments: Vec<GridPosition>,
    /// The heading the head will move in on the next tick.
    pub heading: Heading,
    /// Positions of the active food items.
    pub foods: Vec<GridPosition>,
    /// Food items eaten since the last game over.
    pub score: u64,
    /// The cell the tail vacated during the most recent move; absent before
    /// the first move and right after a reset.
    pub last_tail: Option<GridPosition>,
    /// Spawn requests not yet answered by the food spawner.
    pub pending_spawns: usize,
}

impl World {
    /// Well-formedness: the snake always has a segment, every placed segment
    /// and every food item lies inside the arena, and the food count and the
    /// pending spawn requests never exceed the food cap.
    pub open spec fn wf(self) -> bool {
        &&& self.segments@.len() >= 1
        &&& forall|i: int|
            0 <= i < self.segments@.len() ==> spec_in_bounds(#[trigger] self.segments@[i])
        &&& self.foods@.len() <= MAX_FOOD_COUNT
        &&& forall|i: int| 0 <= i < self.foods@.len() ==> spec_in_bounds(#[trigger] self.foods@[i])
        &&& self.pending_spawns <= MAX_FOOD_COUNT
    }

    /// The canonical start-of-run state: two segments, head at (3,3) facing
    /// Up and body at (3,2); no food yet but a full refill requested; score
    /// zero; no move made yet.
    pub open spec fn is_start(self) -> bool {
        &&& self.segments@ == seq![
            GridPosition { x: 3, y: 3 },
            GridPosition { x: 3, y: 2 },
        ]
        &&& self.heading == Heading::Up
        &&& self.foods@ == Seq::<GridPosition>::empty()
        &&& self.score == 0
        &&& self.last_tail is None
        &&& self.pending_spawns == MAX_FOOD_COUNT
    }

    /// Spawn the world as a run starts: the canonical snake, score zero, and
    /// a full refill of food requested.
    pub fn new() -> (w: World)
        ensures
            w.wf(),
            w.is_start(),
    {
        let mut segments: Vec<GridPosition> = Vec::new();
        segments.push(GridPosition { x: 3, y: 3 });
        segments.push(GridPosition { x: 3, y: 2 });
        let w = World {
            segments,
            heading: Heading::Up,
            foods: Vec::new(),
            score: 0,
            last_tail: None,
            pending_spawns: MAX_FOOD_COUNT,
        };
        proof {
            assert(w.segments@ =~= seq![GridPosition { x: 3, y: 3 }, GridPosition { x: 3, y: 2 }]);
            assert(w.foods@ =~= Seq::<GridPosition>::empty());
        }
        w
    }

    /// Game-over controller: despawn every food item and every segment,
    /// reset the score, respawn the canonical snake and request a full
    /// refill of food. Atomic from the view of later ticks: no partially
    /// reset world is ever observable.
    pub fn reset(&mut self)
        ensures
            final(self).wf(),
            final(self).is_start(),
    {
        *self = World::new();
    }

    /// Eating resolver: consume every food at the head's cell; each one
    /// raises the score by one and queues one growth and one spawn request.
    pub fn resolve_eating(&mut self) -> (eaten: usize)
        requires
            old(self).segments@.len() >= 1,
            old(self).score + old(self).foods@.len() <= u64::MAX,
            old(self).pending_spawns + old(self).foods@.len() <= usize::MAX,
        ensures
            final(self).foods@ == spec_remaining(old(self).foods@, old(self).segments@[0]),
            eaten == old(self).foods@.len() - final(self).foods@.len(),
            final(self).score == old(self).score + eaten,
            final(self).pending_spawns == old(self).pending_spawns + eaten,
            final(self).segments == old(self).segments,
            final(self).heading == old(self).heading,
            final(self).last_tail == old(self).last_tail,
    {
        let head = self.segments[0];
        let eaten = eat_foods(head, &mut self.foods);
        self.score = self.score + (eaten as u64);
        self.pending_spawns = self.pending_spawns + eaten;
        eaten
    }

    /// Growth resolver: append one body segment per growth request, every
    /// one at the cell the tail vacated during the most recent move. Growth
    /// before any move would be a scheduling fault, so the precondition
    /// rules it out.
    pub fn resolve_growth(&mut self, count: usize)
        requires
            count > 0 ==> old(self).last_tail is Some,
        ensures
            final(self).segments@ == old(self).segments@ + Seq::new(
                count as nat,
                |i: int| old(self).last_tail->Some_0,
            ),
            final(self).foods == old(self).foods,
            final(self).heading == old(self).heading,
            final(self).score == old(self).score,
            final(self).last_tail == old(self).last_tail,
            final(self).pending_spawns == old(self).pending_spawns,
    {
        let ghost orig = self.segments@;
        if count > 0 {
            let t = self.last_tail.unwrap();
            proof {
                assert(orig + Seq::new(0, |i: int| t) =~= orig);
            }
            let mut k: usize = 0;
            while k < count
                invariant
                    k <= count,
                    t == old(self).last_tail->Some_0,
                    self.segments@ == orig + Seq::new(k as nat, |i: int| t),
                    self.foods == old(self).foods,
                    self.heading == old(self).heading,
                    self.score == old(self).score,
                    self.last_tail == old(self).last_tail,
                    self.pending_spawns == old(self).pending_spawns,
                decreases count - k,
            {
                self.segments.push(t);
                proof {
                    assert(orig + Seq::new((k + 1) as nat, |i: int| t) =~= (orig + Seq::new(
                        k as nat,
                        |i: int| t,
                    )).push(t));
                }
                k = k + 1;
            }
        } else {
            proof {
                assert(orig + Seq::new(0, |i: int| old(self).last_tail->Some_0) =~= orig);
            }
        }
    }

    /// Advance the world one fixed tick: map the input to a heading, move,
    /// judge the new head against the pre-move snapshot, and on game-over
    /// reset and short-circuit the rest of the tick; otherwise resolve
    /// eating, then growth, then answer the pending spawn requests.
    pub fn tick(&mut self, input: InputState) -> (ev: TickEvents)
        requires
            old(self).wf(),
            old(self).score <= u64::MAX - MAX_FOOD_COUNT as u64,
        ensures
            final(self).wf(),
            ({
                let h = spec_mapped(old(self).heading, input);
                let moved = spec_moved(old(self).segments@, h);
                let head = moved[0];
                let tail = old(self).segments@.last();
                let remaining = spec_remaining(old(self).foods@, head);
                &&& ev.game_over == spec_collides(old(self).segments@, head)
                &&& (ev.game_over ==> {
                    &&& final(self).is_start()
                    &&& ev.ate == 0
                    &&& ev.grew == 0
                    &&& ev.spawn_requested == MAX_FOOD_COUNT
                })
                &&& (!ev.game_over ==> {
                    &&& final(self).heading == h
                    &&& final(self).last_tail == Some(tail)
                    &&& ev.ate == old(self).foods@.len() - remaining.len()
                    &&& final(self).score == old(self).score + ev.ate
                    &&& ev.grew == ev.ate
                    &&& ev.spawn_requested == ev.ate
                    &&& final(self).segments@ == moved + Seq::new(
                        ev.ate as nat,
                        |i: int| tail,
                    )
                    &&& final(self).pending_spawns == 0
                    &&& remaining.is_prefix_of(final(self).foods@)
                    &&& final(self).foods@.len() <= remaining.len() + old(self).pending_spawns
                        + ev.ate
                    &&& forall|i: int|
                        remaining.len() <= i < final(self).foods@.len() ==> spec_in_bounds(
                            #[trigger] final(self).foods@[i],
                        ) && !final(self).segments@.contains(final(self).foods@[i])
                })
            }),
    {
        let new_heading = map_input(self.heading, input);
        self.heading = new_heading;
        let (moved, tail) = move_snake(&self.segments, new_heading);
        let collided = detect_collision(&self.segments, moved[0]);
        if collided {
            self.reset();
            return TickEvents { game_over: true, ate: 0, grew: 0, spawn_requested: MAX_FOOD_COUNT };
        }
        self.last_tail = Some(tail);
        self.segments = moved;
        let eaten = self.resolve_eating();
        self.resolve_growth(eaten);
        proof {
            let pre = *old(self);
            let h = spec_mapped(pre.heading, input);
            let movedseq = spec_moved(pre.segments@, h);
            let head = movedseq[0];
            let remaining = spec_remaining(pre.foods@, head);
            crate::eating::lemma_remaining_props(pre.foods@, head);
            assert forall|i: int|
                0 <= i < self.segments@.len() implies spec_in_bounds(
                #[trigger] self.segments@[i],
            ) by {
                if i == 0 {
                    assert(spec_in_bounds(self.segments@[0]));
                } else if i < pre.segments@.len() {
                    assert(spec_in_bounds(pre.segments@[i - 1]));
                } else {
                    assert(self.segments@[i] == pre.segments@.last());
                    assert(spec_in_bounds(pre.segments@[pre.segments@.len() - 1]));
                }
            }
            assert forall|k: int|
                0 <= k < self.foods@.len() implies spec_in_bounds(#[trigger] self.foods@[k]) by {
                assert(self.foods@[k] == remaining[k]);
                assert(pre.foods@.contains(remaining[k]));
                let j = choose|j: int|
                    0 <= j < pre.foods@.len() && pre.foods@[j] == remaining[k];
                assert(spec_in_bounds(pre.foods@[j]));
            }
        }
        let requests = self.pending_spawns;
        self.pending_spawns = 0;
        spawn_foods(requests, &self.segments, &mut self.foods);
        proof {
            let pre = *old(self);
            let h = spec_mapped(pre.heading, input);
            let head = spec_moved(pre.segments@, h)[0];
            let remaining = spec_remaining(pre.foods@, head);
            assert forall|k: int|
                0 <= k < self.foods@.len() implies spec_in_bounds(#[trigger] self.foods@[k]) by {
                if k < remaining.len() {
                    assert(remaining =~= self.foods@.subrange(0, remaining.len() as int));
                    assert(self.foods@[k] == remaining[k]);
                }
            }
        }
        TickEvents { game_over: false, ate: eaten, grew: eaten, spawn_requested: eaten }
    }

    /// Read-only query: the snake's segment positions, ordered head first.
    pub fn snake_positions(&self) -> (r: &Vec<GridPosition>)
        ensures
            r@ == self.segments@,
    {
        &self.segments
    }

    /// Read-only query: the positions of the active food items.
    pub fn food_positions(&self) -> (r: &Vec<GridPosition>)
        ensures
            r@ == self.foods@,
    {
        &self.foods
    }

    /// Read-only query: the current score.
    pub fn current_score(&self) -> (r: u64)
        ensures
            r == self.score,
    {
        self.score
    }
}

/// Law: after a game-over reset the snake has exactly two segments, the head
/// at (3,3) facing Up and the body at (3,2), and the score is zero.
pub proof fn lemma_reset_state(w: World)
    requires
        w.is_start(),
    ensures
        w.segments@.len() == 2,
        w.segments@[0] == (GridPosition { x: 3, y: 3 }),
        w.segments@[1] == (GridPosition { x: 3, y: 2 }),
        w.heading == Heading::Up,
        w.score == 0,
{
}

} // verus!
