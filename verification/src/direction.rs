//! The axis of autonomous travel of an actor.

use vstd::prelude::*;

verus! {

/// Where an actor is heading. At most one direction is active at a time.
#[derive(Clone, Copy, PartialEq, Eq, Structural, Debug)]
pub enum Direction {
    /// Not travelling.
    Still,
    Left,
    Right,
    Up,
    Down,
}

impl Direction {
    /// The direction that cancels `self` when its key is pressed.
    pub open spec fn opposite_spec(self) -> Direction {
        match self {
            Direction::Still => Direction::Still,
            Direction::Left => Direction::Right,
            Direction::Right => Direction::Left,
            Direction::Up => Direction::Down,
            Direction::Down => Direction::Up,
        }
    }

    /// Returns the direction pointing the other way; `Still` has no opposite
    /// but itself.
    #[verifier::when_used_as_spec(opposite_spec)]
    pub fn opposite(self) -> (r: Direction)
        ensures
            r == self.opposite_spec(),
    {
        match self {
            Direction::Still => Direction::Still,
            Direction::Left => Direction::Right,
            Direction::Right => Direction::Left,
            Direction::Up => Direction::Down,
            Direction::Down => Direction::Up,
        }
    }
}

} // verus!
