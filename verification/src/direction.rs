//! Headings of the snake and the reduction of held keys to a heading.

use vstd::prelude::*;

verus! {

/// One of the four headings of the snake.
#[derive(Clone, Copy, Debug, PartialEq, Eq, Structural)]
pub enum Direction {
    Left,
    Up,
    Right,
    Down,
}

impl Direction {
    /// The heading that points the other way.
    pub open spec fn spec_opposite(self) -> Direction {
        match self {
            Direction::Left => Direction::Right,
            Direction::Up => Direction::Down,
            Direction::Right => Direction::Left,
            Direction::Down => Direction::Up,
        }
    }

    /// The heading that points the other way.
    #[verifier::when_used_as_spec(spec_opposite)]
    pub fn opposite(self) -> (d: Direction)
        ensures
            d == self.spec_opposite(),
    {
        match self {
            Direction::Left => Direction::Right,
            Direction::Up => Direction::Down,
            Direction::Right => Direction::Left,
            Direction::Down => Direction::Up,
        }
    }

    /// The heading after a request to turn.
    pub open spec fn spec_steer(self, requested: Direction) -> Direction {
        if requested == self.spec_opposite() {
            self
        } else {
            requested
        }
    }

    /// The heading after a request to turn: the requested heading, unless it
    /// is the reverse of the current one, in which case the current heading
    /// is kept.
    #[verifier::when_used_as_spec(spec_steer)]
    pub fn steer(self, requested: Direction) -> (d: Direction)
        ensures
            d == self.spec_steer(requested),
            requested == self.spec_opposite() ==> d == self,
            requested != self.spec_opposite() ==> d == requested,
            d != self.spec_opposite(),
    {
        if requested == self.opposite() {
            self
        } else {
            requested
        }
    }
}

/// Which of the four directional keys are held down in one frame.
#[derive(Clone, Copy, Debug, PartialEq, Eq, Structural)]
pub struct Keys {
    pub left: bool,
    pub right: bool,
    pub down: bool,
    pub up: bool,
}

impl Keys {
    /// The heading that the held keys ask for, given the `current` one. When
    /// several keys are held the first of left, right, down, up wins; when
    /// none is held the request is the current heading.
    pub open spec fn spec_requested(self, current: Direction) -> Direction {
        if self.left {
            Direction::Left
        } else if self.right {
            Direction::Right
        } else if self.down {
            Direction::Down
        } else if self.up {
            Direction::Up
        } else {
            current
        }
    }

    /// No key held.
    pub fn none() -> (k: Keys)
        ensures
            k == (Keys { left: false, right: false, down: false, up: false }),
    {
        Keys { left: false, right: false, down: false, up: false }
    }

    /// Exactly the key of heading `d` held.
    pub fn only(d: Direction) -> (k: Keys)
        ensures
            k.left == (d == Direction::Left),
            k.right == (d == Direction::Right),
            k.down == (d == Direction::Down),
            k.up == (d == Direction::Up),
    {
        Keys {
            left: d == Direction::Left,
            right: d == Direction::Right,
            down: d == Direction::Down,
            up: d == Direction::Up,
        }
    }

    /// Reduces the held keys to one requested heading.
    #[verifier::when_used_as_spec(spec_requested)]
    pub fn requested(self, current: Direction) -> (d: Direction)
        ensures
            d == self.spec_requested(current),
    {
        if self.left {
            Direction::Left
        } else if self.right {
            Direction::Right
        } else if self.down {
            Direction::Down
        } else if self.up {
            Direction::Up
        } else {
            current
        }
    }
}

} // verus!
