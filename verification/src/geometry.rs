//! Headings and cells of the character grid.

use vstd::prelude::*;

verus! {

/// One of the four headings a snake can take.
#[derive(Clone, Copy, Debug, PartialEq, Eq, Structural)]
pub enum Direction {
    Up,
    Down,
    Left,
    Right,
}

impl Direction {
    /// The heading that points the other way: `Up` and `Down` are a pair, and
    /// so are `Left` and `Right`.
    pub open spec fn reversed(self) -> Direction {
        match self {
            Direction::Up => Direction::Down,
            Direction::Down => Direction::Up,
            Direction::Left => Direction::Right,
            Direction::Right => Direction::Left,
        }
    }

    /// Whether `self` is neither `other` nor its reverse.
    pub open spec fn perpendicular_to(self, other: Direction) -> bool {
        self != other && self != other.reversed()
    }

    /// Computes the reverse heading.
    pub fn opposite(self) -> (r: Direction)
        ensures
            r == self.reversed(),
    {
        match self {
            Direction::Up => Direction::Down,
            Direction::Down => Direction::Up,
            Direction::Left => Direction::Right,
            Direction::Right => Direction::Left,
        }
    }
}

/// A cell of the grid. Column `x` grows to the right and row `y` grows
/// downwards, as terminal coordinates do.
#[derive(Clone, Copy, Debug, PartialEq, Eq, Structural)]
pub struct Position {
    pub x: u16,
    pub y: u16,
}

impl Position {
    /// Whether the neighbouring cell in direction `d` still has coordinates
    /// that fit the grid's integer type.
    pub open spec fn can_move(self, d: Direction) -> bool {
        match d {
            Direction::Up => self.y > 0,
            Direction::Down => self.y < u16::MAX,
            Direction::Left => self.x > 0,
            Direction::Right => self.x < u16::MAX,
        }
    }

    /// The neighbouring cell in direction `d`.
    pub open spec fn moved(self, d: Direction) -> Position
        recommends
            self.can_move(d),
    {
        match d {
            Direction::Up => Position { x: self.x, y: (self.y - 1) as u16 },
            Direction::Down => Position { x: self.x, y: (self.y + 1) as u16 },
            Direction::Left => Position { x: (self.x - 1) as u16, y: self.y },
            Direction::Right => Position { x: (self.x + 1) as u16, y: self.y },
        }
    }

    /// Computes the neighbouring cell in direction `d`.
    pub fn step(self, d: Direction) -> (p: Position)
        requires
            self.can_move(d),
        ensures
            p == self.moved(d),
    {
        match d {
            Direction::Up => Position { x: self.x, y: self.y - 1 },
            Direction::Down => Position { x: self.x, y: self.y + 1 },
            Direction::Left => Position { x: self.x - 1, y: self.y },
            Direction::Right => Position { x: self.x + 1, y: self.y },
        }
    }
}

} // verus!
