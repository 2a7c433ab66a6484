use vstd::prelude::*;

verus! {

/// One of the four animated facings, or `Idle` when the input asks for none.
#[derive(Clone, Copy, Debug, PartialEq, Eq, Structural)]
pub enum Direction {
    Up,
    Down,
    Left,
    Right,
    Idle,
}

/// How the horizontal component of a movement vector compares with zero.
///
/// `Neutral` covers both an exact zero and a value that is neither above nor
/// below zero (a NaN), as a floating-point comparison would.
#[derive(Clone, Copy, Debug, PartialEq, Eq, Structural)]
pub enum Sign {
    Negative,
    Neutral,
    Positive,
}

/// What the resolver reads of a movement vector `(x, y)`: the sign of `x`,
/// and whether `y` lies within a few floating-point steps of `-1.0` (`near_up`)
/// or of `+1.0` (`near_down`).
#[derive(Clone, Copy, Debug, PartialEq, Eq, Structural)]
pub struct InputReading {
    pub horizontal: Sign,
    pub near_up: bool,
    pub near_down: bool,
}

/// The facing that an input reading resolves to. The horizontal component
/// dominates: any input with a nonzero `x` faces sideways, so a diagonal never
/// resolves to `Up` or `Down`.
pub open spec fn facing_of(r: InputReading) -> Direction {
    match r.horizontal {
        Sign::Positive => Direction::Right,
        Sign::Negative => Direction::Left,
        Sign::Neutral => if r.near_up {
            Direction::Up
        } else if r.near_down {
            Direction::Down
        } else {
            Direction::Idle
        },
    }
}

/// Resolves a movement reading to a discrete facing.
pub fn resolve(r: &InputReading) -> (d: Direction)
    ensures
        d == facing_of(*r),
        r.horizontal == Sign::Positive ==> d == Direction::Right,
        r.horizontal == Sign::Negative ==> d == Direction::Left,
{
    match r.horizontal {
        Sign::Positive => Direction::Right,
        Sign::Negative => Direction::Left,
        Sign::Neutral => {
            if r.near_up {
                Direction::Up
            } else if r.near_down {
                Direction::Down
            } else {
                Direction::Idle
            }
        },
    }
}

impl Direction {
    /// Whether this is one of the four real facings.
    pub fn is_facing(&self) -> (b: bool)
        ensures
            b == (*self != Direction::Idle),
    {
        !matches!(self, Direction::Idle)
    }
}

} // verus!
