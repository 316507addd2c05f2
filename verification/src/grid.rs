//! Arena geometry: the grid's extent and the cells on it.

use vstd::prelude::*;

use crate::direction::Direction;

verus! {

/// Number of columns of the arena.
pub const ARENA_WIDTH: u32 = 30;

/// Number of rows of the arena.
pub const ARENA_HEIGHT: u32 = 30;

/// A cell of the grid. Columns grow to the right and rows grow upwards.
///
/// Cells of the arena have `0 <= x < ARENA_WIDTH` and `0 <= y < ARENA_HEIGHT`;
/// a position outside of it is representable, because the head of the snake
/// leaves the arena for the one tick in which it hits a wall.
#[derive(Clone, Copy, Debug, PartialEq, Eq, Structural)]
pub struct Position {
    pub x: i32,
    pub y: i32,
}

impl Position {
    /// The cell lies inside the arena.
    pub open spec fn in_arena(self) -> bool {
        0 <= self.x < ARENA_WIDTH && 0 <= self.y < ARENA_HEIGHT
    }

    /// The cell lies inside the arena or on the ring of cells around it.
    pub open spec fn near_arena(self) -> bool {
        -1 <= self.x <= ARENA_WIDTH && -1 <= self.y <= ARENA_HEIGHT
    }

    /// The cell one unit step away in direction `d`.
    pub open spec fn neighbor(self, d: Direction) -> Position
        recommends
            i32::MIN < self.x < i32::MAX,
            i32::MIN < self.y < i32::MAX,
    {
        match d {
            Direction::Left => Position { x: (self.x - 1) as i32, y: self.y },
            Direction::Right => Position { x: (self.x + 1) as i32, y: self.y },
            Direction::Down => Position { x: self.x, y: (self.y - 1) as i32 },
            Direction::Up => Position { x: self.x, y: (self.y + 1) as i32 },
        }
    }

    /// The cell in column `x` and row `y`.
    pub fn new(x: i32, y: i32) -> (p: Position)
        ensures
            p.x == x,
            p.y == y,
    {
        Position { x, y }
    }

    /// Tells whether the cell lies inside the arena.
    pub fn is_in_arena(&self) -> (inside: bool)
        ensures
            inside == self.in_arena(),
    {
        self.x >= 0 && self.y >= 0 && (self.x as u32) < ARENA_WIDTH && (self.y as u32)
            < ARENA_HEIGHT
    }

    /// Moves one unit step in direction `d`: left and right change `x` by one,
    /// down and up change `y` by one, up being the direction of growing `y`.
    pub fn step(&self, d: Direction) -> (p: Position)
        requires
            i32::MIN < self.x < i32::MAX,
            i32::MIN < self.y < i32::MAX,
        ensures
            p == self.neighbor(d),
            d == Direction::Left ==> p.x == self.x - 1 && p.y == self.y,
            d == Direction::Right ==> p.x == self.x + 1 && p.y == self.y,
            d == Direction::Down ==> p.x == self.x && p.y == self.y - 1,
            d == Direction::Up ==> p.x == self.x && p.y == self.y + 1,
    {
        match d {
            Direction::Left => Position { x: self.x - 1, y: self.y },
            Direction::Right => Position { x: self.x + 1, y: self.y },
            Direction::Down => Position { x: self.x, y: self.y - 1 },
            Direction::Up => Position { x: self.x, y: self.y + 1 },
        }
    }
}

/// Tells whether `cell` occurs among `cells`.
pub fn occupies(cells: &Vec<Position>, cell: Position) -> (found: bool)
    ensures
        found == cells@.contains(cell),
{
    let mut i: usize = 0;
    while i < cells.len()
        invariant
            i <= cells.len(),
            forall|k: int| 0 <= k < i ==> cells@[k] != cell,
        decreases cells.len() - i,
    {
        if cells[i] == cell {
            return true;
        }
        i += 1;
    }
    false
}

/// Tells whether every one of `cells` lies inside the arena.
pub fn all_in_arena(cells: &Vec<Position>) -> (all: bool)
    ensures
        all == forall|k: int| 0 <= k < cells@.len() ==> (#[trigger] cells@[k]).in_arena(),
{
    let mut i: usize = 0;
    while i < cells.len()
        invariant
            i <= cells.len(),
            forall|k: int| 0 <= k < i ==> (#[trigger] cells@[k]).in_arena(),
        decreases cells.len() - i,
    {
        if !cells[i].is_in_arena() {
            return false;
        }
        i += 1;
    }
    true
}

/// Tells whether no cell occurs twice among `cells`.
pub fn all_distinct(cells: &Vec<Position>) -> (distinct: bool)
    ensures
        distinct == forall|i: int, j: int| 0 <= i < j < cells@.len() ==> cells@[i] != cells@[j],
{
    let mut j: usize = 0;
    while j < cells.len()
        invariant
            j <= cells.len(),
            forall|a: int, b: int| 0 <= a < b < j ==> cells@[a] != cells@[b],
        decreases cells.len() - j,
    {
        let mut i: usize = 0;
        while i < j
            invariant
                i <= j < cells.len(),
                forall|a: int| 0 <= a < i ==> cells@[a] != cells@[j as int],
            decreases j - i,
        {
            if cells[i] == cells[j] {
                return false;
            }
            i += 1;
        }
        j += 1;
    }
    true
}

} // verus!
