//! Eating resolver: every food item lying on the head's cell is consumed in
//! one tick, each one independently counting towards score and growth.

use vstd::prelude::*;
use crate::grid::GridPosition;

verus! {

/// The food positions left after every food at `head` is eaten, in their
/// original order.
pub open spec fn spec_remaining(foods: Seq<GridPosition>, head: GridPosition) -> Seq<GridPosition>
    decreases foods.len(),
{
    if foods.len() == 0 {
        Seq::empty()
    } else {
        let rest = spec_remaining(foods.drop_last(), head);
        if foods.last() == head {
            rest
        } else {
            rest.push(foods.last())
        }
    }
}

/// Law: eating never invents food, and no food at the head's cell survives
/// it; what survives was already on the board.
pub proof fn lemma_remaining_props(foods: Seq<GridPosition>, head: GridPosition)
    ensures
        spec_remaining(foods, head).len() <= foods.len(),
        !spec_remaining(foods, head).contains(head),
        forall|k: int|
            0 <= k < spec_remaining(foods, head).len() ==> foods.contains(
                #[trigger] spec_remaining(foods, head)[k],
            ),
    decreases foods.len(),
{
    if foods.len() == 0 {
    } else {
        lemma_remaining_props(foods.drop_last(), head);
        let rest = spec_remaining(foods.drop_last(), head);
        assert forall|k: int|
            0 <= k < spec_remaining(foods, head).len() implies foods.contains(
            #[trigger] spec_remaining(foods, head)[k],
        ) by {
            if foods.last() != head && k == spec_remaining(foods, head).len() - 1 {
                assert(foods[foods.len() - 1] == foods.last());
            } else {
                assert(rest[k] == spec_remaining(foods, head)[k]);
                let j = choose|j: int| 0 <= j < foods.drop_last().len() && foods.drop_last()[j]
                    == rest[k];
                assert(foods[j] == rest[k]);
            }
        }
        if spec_remaining(foods, head).contains(head) {
            let k = choose|k: int| 0 <= k < spec_remaining(foods, head).len() && spec_remaining(
                foods,
                head,
            )[k] == head;
            if foods.last() != head && k == spec_remaining(foods, head).len() - 1 {
            } else {
                assert(rest[k] == head);
                assert(rest.contains(head));
            }
        }
    }
}

/// Law: a board on which no food lies at the head's cell is left exactly as
/// it was.
pub proof fn lemma_remaining_none(foods: Seq<GridPosition>, head: GridPosition)
    requires
        forall|j: int| 0 <= j < foods.len() ==> foods[j] != head,
    ensures
        spec_remaining(foods, head) == foods,
    decreases foods.len(),
{
    if foods.len() == 0 {
        assert(spec_remaining(foods, head) =~= foods);
    } else {
        lemma_remaining_none(foods.drop_last(), head);
        assert(foods[foods.len() - 1] != head);
        assert(spec_remaining(foods, head) =~= foods);
    }
}

/// Law: eating a single food item lying at the head's cell removes exactly
/// that item and nothing else. With exactly one item eaten, the eating
/// resolver's contract then raises the score by exactly one and queues one
/// growth request, and the growth resolver's contract appends exactly one
/// segment.
pub proof fn lemma_eat_one(foods: Seq<GridPosition>, head: GridPosition, i: int)
    requires
        0 <= i < foods.len(),
        foods[i] == head,
        forall|j: int| 0 <= j < foods.len() && j != i ==> foods[j] != head,
    ensures
        spec_remaining(foods, head) == foods.remove(i),
        foods.len() - spec_remaining(foods, head).len() == 1,
    decreases foods.len(),
{
    if i == foods.len() - 1 {
        lemma_remaining_none(foods.drop_last(), head);
        assert(spec_remaining(foods, head) =~= foods.remove(i));
    } else {
        assert(foods[foods.len() - 1] != head);
        lemma_eat_one(foods.drop_last(), head, i);
        assert(spec_remaining(foods, head) =~= foods.remove(i));
    }
}

/// Consume every food at `head`: the board keeps the other food items in
/// order, and the count of items eaten comes back.
pub fn eat_foods(head: GridPosition, foods: &mut Vec<GridPosition>) -> (eaten: usize)
    ensures
        final(foods)@ == spec_remaining(old(foods)@, head),
        eaten == old(foods)@.len() - final(foods)@.len(),
{
    let ghost orig = foods@;
    let mut kept: Vec<GridPosition> = Vec::new();
    let mut eaten: usize = 0;
    let mut i: usize = 0;
    while i < foods.len()
        invariant
            i <= orig.len(),
            foods@ == orig,
            kept@ == spec_remaining(orig.take(i as int), head),
            kept@.len() + eaten == i,
        decreases orig.len() - i,
    {
        proof {
            assert(orig.take(i + 1).drop_last() =~= orig.take(i as int));
            assert(orig.take(i + 1).last() == orig[i as int]);
        }
        if foods[i] == head {
            eaten = eaten + 1;
        } else {
            kept.push(foods[i]);
        }
        i = i + 1;
    }
    proof {
        assert(orig.take(orig.len() as int) =~= orig);
    }
    *foods = kept;
    eaten
}

} // verus!
