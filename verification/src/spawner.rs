//! Food spawner: answer spawn requests by placing food at random unoccupied
//! cells, up to the food cap, with a bounded number of retries per request.

use vstd::prelude::*;
use crate::collision::contains_position;
use crate::grid::GridPosition;
use crate::grid::spec_in_bounds;
use crate::rng::random_cell;

verus! {

/// Most food items present at once; a spawn request beyond the cap is dropped.
pub const MAX_FOOD_COUNT: usize = 5;

/// Most random draws answered for one spawn request before it is given up,
/// so that a nearly full arena cannot livelock the spawner.
pub const MAX_SPAWN_ATTEMPTS: usize = 128;

/// What one answered spawn request leaves behind: either the food set is
/// unchanged (the request was dropped at the cap, or every draw landed on the
/// snake), or exactly one food was appended, inside the arena and on no
/// segment of `segments`.
pub open spec fn spec_spawn_step(
    old_foods: Seq<GridPosition>,
    new_foods: Seq<GridPosition>,
    segments: Seq<GridPosition>,
) -> bool {
    ||| new_foods == old_foods
    ||| {
        &&& old_foods.len() < MAX_FOOD_COUNT
        &&& new_foods.len() == old_foods.len() + 1
        &&& new_foods == old_foods.push(new_foods.last())
        &&& spec_in_bounds(new_foods.last())
        &&& !segments.contains(new_foods.last())
    }
}

/// Law: a spawn step never pushes the food count past the cap.
pub proof fn lemma_spawn_step_cap(
    old_foods: Seq<GridPosition>,
    new_foods: Seq<GridPosition>,
    segments: Seq<GridPosition>,
)
    requires
        spec_spawn_step(old_foods, new_foods, segments),
        old_foods.len() <= MAX_FOOD_COUNT,
    ensures
        new_foods.len() <= MAX_FOOD_COUNT,
{
}

/// Decide one drawn cell: place food there exactly when the cell lies on no
/// snake segment, and report whether it was placed. Food-on-food overlap is
/// not checked, as duplicate food only reduces variety.
pub fn place_food_if_free(
    cell: GridPosition,
    segments: &Vec<GridPosition>,
    foods: &mut Vec<GridPosition>,
) -> (placed: bool)
    ensures
        placed == !segments@.contains(cell),
        placed ==> final(foods)@ == old(foods)@.push(cell),
        !placed ==> final(foods)@ == old(foods)@,
{
    if contains_position(segments, cell) {
        false
    } else {
        foods.push(cell);
        true
    }
}

/// Answer one spawn request: if the food count has reached the cap, drop the
/// request; otherwise draw random cells until one misses every snake segment,
/// giving up after a bounded number of attempts.
pub fn try_spawn_food(segments: &Vec<GridPosition>, foods: &mut Vec<GridPosition>)
    ensures
        spec_spawn_step(old(foods)@, final(foods)@, segments@),
        old(foods)@.len() >= MAX_FOOD_COUNT ==> final(foods)@ == old(foods)@,
        final(foods)@.len() <= MAX_FOOD_COUNT || final(foods)@.len() == old(foods)@.len(),
{
    if foods.len() >= MAX_FOOD_COUNT {
        return;
    }
    let mut attempts: usize = 0;
    while attempts < MAX_SPAWN_ATTEMPTS
        invariant
            foods@ == old(foods)@,
            old(foods)@.len() < MAX_FOOD_COUNT,
        decreases MAX_SPAWN_ATTEMPTS - attempts,
    {
        let cell = random_cell();
        if place_food_if_free(cell, segments, foods) {
            return;
        }
        attempts = attempts + 1;
    }
}

/// Answer `requests` pending spawn requests in order.
pub fn spawn_foods(requests: usize, segments: &Vec<GridPosition>, foods: &mut Vec<GridPosition>)
    ensures
        final(foods)@.len() <= MAX_FOOD_COUNT || final(foods)@.len() <= old(foods)@.len(),
        final(foods)@.len() <= old(foods)@.len() + requests,
        old(foods)@.is_prefix_of(final(foods)@),
        forall|i: int|
            old(foods)@.len() <= i < final(foods)@.len() ==> spec_in_bounds(
                #[trigger] final(foods)@[i],
            ) && !segments@.contains(final(foods)@[i]),
{
    let mut served: usize = 0;
    while served < requests
        invariant
            served <= requests,
            foods@.len() <= MAX_FOOD_COUNT || foods@.len() <= old(foods)@.len(),
            foods@.len() <= old(foods)@.len() + served,
            old(foods)@.is_prefix_of(foods@),
            forall|i: int|
                old(foods)@.len() <= i < foods@.len() ==> spec_in_bounds(#[trigger] foods@[i])
                    && !segments@.contains(foods@[i]),
        decreases requests - served,
    {
        try_spawn_food(segments, foods);
        served = served + 1;
    }
}

} // verus!
