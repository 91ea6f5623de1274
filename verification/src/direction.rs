//! The eight compass directions a stream can travel in.

use crate::chance::random_range;
use vstd::prelude::*;

verus! {

/// One of the eight compass directions. `Up` is towards row zero.
#[derive(Clone, Copy, Debug, PartialEq, Eq, Structural)]
pub enum Direction {
    Left,
    Right,
    Up,
    Down,
    UpLeft,
    UpRight,
    DownLeft,
    DownRight,
}

impl Direction {
    /// Horizontal part of the unit step: -1, 0 or 1 columns.
    pub open spec fn dx(self) -> int {
        match self {
            Direction::Left | Direction::UpLeft | Direction::DownLeft => -1,
            Direction::Right | Direction::UpRight | Direction::DownRight => 1,
            Direction::Up | Direction::Down => 0,
        }
    }

    /// Vertical part of the unit step: -1, 0 or 1 rows.
    pub open spec fn dy(self) -> int {
        match self {
            Direction::Up | Direction::UpLeft | Direction::UpRight => -1,
            Direction::Down | Direction::DownLeft | Direction::DownRight => 1,
            Direction::Left | Direction::Right => 0,
        }
    }

    /// The direction with number `i`, in declaration order; every number
    /// but 0 to 6 names `DownRight`.
    pub open spec fn of_index(i: int) -> Direction {
        if i == 0 {
            Direction::Left
        } else if i == 1 {
            Direction::Right
        } else if i == 2 {
            Direction::Up
        } else if i == 3 {
            Direction::Down
        } else if i == 4 {
            Direction::UpLeft
        } else if i == 5 {
            Direction::UpRight
        } else if i == 6 {
            Direction::DownLeft
        } else {
            Direction::DownRight
        }
    }

    /// The number of this direction, 0 to 7.
    pub open spec fn index(self) -> int {
        match self {
            Direction::Left => 0,
            Direction::Right => 1,
            Direction::Up => 2,
            Direction::Down => 3,
            Direction::UpLeft => 4,
            Direction::UpRight => 5,
            Direction::DownLeft => 6,
            Direction::DownRight => 7,
        }
    }

    /// The direction that a draw of `i` stands for: the one with that number,
    /// and `DownRight` for every number above 6.
    pub fn from_index(i: u16) -> (d: Direction)
        ensures
            d == Direction::of_index(i as int),
    {
        match i {
            0 => Direction::Left,
            1 => Direction::Right,
            2 => Direction::Up,
            3 => Direction::Down,
            4 => Direction::UpLeft,
            5 => Direction::UpRight,
            6 => Direction::DownLeft,
            _ => Direction::DownRight,
        }
    }

    /// Draws one of the eight directions, each with the same chance: the
    /// direction of a number drawn from 0 to 7.
    pub fn random() -> (d: Direction)
        ensures
            exists|i: int| 0 <= i < 8 && d == Direction::of_index(i),
    {
        let i: u16 = random_range(0, 8);
        Direction::from_index(i)
    }

    /// The unit step of this direction as `(columns, rows)`.
    pub fn get_offset(&self) -> (offset: (i16, i16))
        ensures
            offset.0 == self.dx(),
            offset.1 == self.dy(),
    {
        match self {
            Direction::Left => (-1, 0),
            Direction::Right => (1, 0),
            Direction::Up => (0, -1),
            Direction::Down => (0, 1),
            Direction::UpLeft => (-1, -1),
            Direction::UpRight => (1, -1),
            Direction::DownLeft => (-1, 1),
            Direction::DownRight => (1, 1),
        }
    }
}

/// The eight numbers 0 to 7 and the eight directions correspond one to one,
/// so a uniform draw of the number is a uniform draw of the direction.
pub proof fn lemma_index_one_to_one(d: Direction, i: int)
    ensures
        0 <= d.index() < 8,
        Direction::of_index(d.index()) == d,
        0 <= i < 8 ==> Direction::of_index(i).index() == i,
{
}

/// Every direction moves by one cell at most in each axis and never stands
/// still, and no two directions share an offset.
pub proof fn lemma_offsets(a: Direction, b: Direction)
    ensures
        -1 <= a.dx() <= 1,
        -1 <= a.dy() <= 1,
        a.dx() != 0 || a.dy() != 0,
        a.dx() == b.dx() && a.dy() == b.dy() ==> a == b,
{
}

} // verus!
