//! Headings and the input mapper: directional input becomes a pending
//! heading, with 180-degree reversals rejected.

use vstd::prelude::*;

verus! {

/// The direction the head will move on the next tick.
#[derive(Clone, Copy, PartialEq, Eq, Structural, Debug)]
pub enum Heading {
    Left,
    Up,
    Right,
    Down,
}

/// The heading opposite to `h`: the two disjoint pairs Left/Right and Up/Down.
pub open spec fn spec_opposite(h: Heading) -> Heading {
    match h {
        Heading::Left => Heading::Right,
        Heading::Right => Heading::Left,
        Heading::Up => Heading::Down,
        Heading::Down => Heading::Up,
    }
}

impl Heading {
    /// The opposite heading.
    pub fn opposite(self) -> (r: Heading)
        ensures
            r == spec_opposite(self),
    {
        match self {
            Heading::Left => Heading::Right,
            Heading::Right => Heading::Left,
            Heading::Up => Heading::Down,
            Heading::Down => Heading::Up,
        }
    }
}

/// Which of the four directional keys are currently held.
#[derive(Clone, Copy, PartialEq, Eq, Structural, Debug)]
pub struct InputState {
    pub left: bool,
    pub down: bool,
    pub up: bool,
    pub right: bool,
}

impl InputState {
    /// An input state with no key held.
    pub fn none() -> (r: InputState)
        ensures
            r == (InputState { left: false, down: false, up: false, right: false }),
    {
        InputState { left: false, down: false, up: false, right: false }
    }
}

/// The candidate heading drawn from the held keys, with the fixed priority
/// Left > Down > Up > Right; no held key leaves the current heading.
pub open spec fn spec_candidate(current: Heading, input: InputState) -> Heading {
    if input.left {
        Heading::Left
    } else if input.down {
        Heading::Down
    } else if input.up {
        Heading::Up
    } else if input.right {
        Heading::Right
    } else {
        current
    }
}

/// The heading after input mapping: the candidate, unless it is the opposite
/// of the current heading, in which case the current heading is kept.
pub open spec fn spec_mapped(current: Heading, input: InputState) -> Heading {
    if spec_candidate(current, input) == spec_opposite(current) {
        current
    } else {
        spec_candidate(current, input)
    }
}

/// Map the latest directional input to the next heading, rejecting an
/// instant reversal into the snake's own neck.
pub fn map_input(current: Heading, input: InputState) -> (r: Heading)
    ensures
        r == spec_mapped(current, input),
{
    let candidate = if input.left {
        Heading::Left
    } else if input.down {
        Heading::Down
    } else if input.up {
        Heading::Up
    } else if input.right {
        Heading::Right
    } else {
        current
    };
    if candidate == current.opposite() {
        current
    } else {
        candidate
    }
}

/// Law: for every heading and every input, a candidate equal to the opposite
/// of the current heading is rejected and the current heading is retained
/// unchanged.
pub proof fn lemma_reversal_rejected(current: Heading, input: InputState)
    ensures
        spec_candidate(current, input) == spec_opposite(current) ==> spec_mapped(current, input)
            == current,
        spec_mapped(current, input) != spec_opposite(current),
{
}

} // verus!
