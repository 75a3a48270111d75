//! The eight compass directions of the grid, their unit steps and turns.
use crate::random::random_below;
use vstd::prelude::*;

verus! {

/// A compass direction. East is the positive x axis, north the positive y
/// axis.
#[derive(Debug, Clone, Copy, PartialEq, Eq, Structural)]
pub enum DIR {
    North,
    NorthEast,
    East,
    SouthEast,
    South,
    SouthWest,
    West,
    NorthWest,
}

/// Whether `(x, y)` is the unit step of some direction: both parts in
/// `-1..=1`, and not both zero.
pub open spec fn is_unit_step(x: int, y: int) -> bool {
    -1 <= x <= 1 && -1 <= y <= 1 && !(x == 0 && y == 0)
}

impl DIR {
    /// The unit step of the direction, as `(x, y)`.
    pub open spec fn step(self) -> (int, int) {
        match self {
            DIR::North => (0, 1),
            DIR::NorthEast => (1, 1),
            DIR::East => (1, 0),
            DIR::SouthEast => (1, -1),
            DIR::South => (0, -1),
            DIR::SouthWest => (-1, -1),
            DIR::West => (-1, 0),
            DIR::NorthWest => (-1, 1),
        }
    }

    /// The direction in clockwise order from north: north is 0, north-west 7.
    pub open spec fn nth(i: int) -> DIR {
        if i == 0 {
            DIR::North
        } else if i == 1 {
            DIR::NorthEast
        } else if i == 2 {
            DIR::East
        } else if i == 3 {
            DIR::SouthEast
        } else if i == 4 {
            DIR::South
        } else if i == 5 {
            DIR::SouthWest
        } else if i == 6 {
            DIR::West
        } else {
            DIR::NorthWest
        }
    }

    /// A quarter turn to the left.
    pub open spec fn turned_ccw(self) -> DIR {
        match self {
            DIR::North => DIR::West,
            DIR::NorthEast => DIR::NorthWest,
            DIR::East => DIR::North,
            DIR::SouthEast => DIR::NorthEast,
            DIR::South => DIR::East,
            DIR::SouthWest => DIR::SouthEast,
            DIR::West => DIR::South,
            DIR::NorthWest => DIR::SouthWest,
        }
    }

    /// A quarter turn to the right.
    pub open spec fn turned_cw(self) -> DIR {
        match self {
            DIR::West => DIR::North,
            DIR::NorthWest => DIR::NorthEast,
            DIR::North => DIR::East,
            DIR::NorthEast => DIR::SouthEast,
            DIR::East => DIR::South,
            DIR::SouthEast => DIR::SouthWest,
            DIR::South => DIR::West,
            DIR::SouthWest => DIR::NorthWest,
        }
    }

    /// The opposite direction.
    pub open spec fn reversed(self) -> DIR {
        match self {
            DIR::North => DIR::South,
            DIR::NorthEast => DIR::SouthWest,
            DIR::East => DIR::West,
            DIR::SouthEast => DIR::NorthWest,
            DIR::South => DIR::North,
            DIR::SouthWest => DIR::NorthEast,
            DIR::West => DIR::East,
            DIR::NorthWest => DIR::SouthEast,
        }
    }

    /// The unit step of the direction.
    pub fn get_move_offset(&self) -> (r: (isize, isize))
        ensures
            (r.0 as int, r.1 as int) == self.step(),
    {
        match *self {
            DIR::North => (0, 1),
            DIR::NorthEast => (1, 1),
            DIR::East => (1, 0),
            DIR::SouthEast => (1, -1),
            DIR::South => (0, -1),
            DIR::SouthWest => (-1, -1),
            DIR::West => (-1, 0),
            DIR::NorthWest => (-1, 1),
        }
    }

    /// The direction at place `index` in clockwise order from north.
    pub fn from_index(index: u32) -> (r: DIR)
        requires
            index < 8,
        ensures
            r == DIR::nth(index as int),
    {
        if index == 0 {
            DIR::North
        } else if index == 1 {
            DIR::NorthEast
        } else if index == 2 {
            DIR::East
        } else if index == 3 {
            DIR::SouthEast
        } else if index == 4 {
            DIR::South
        } else if index == 5 {
            DIR::SouthWest
        } else if index == 6 {
            DIR::West
        } else {
            DIR::NorthWest
        }
    }

    /// A direction drawn at random, each of the eight with the same chance:
    /// the direction at a place drawn from the eight.
    pub fn get_random() -> (r: DIR)
        ensures
            exists|i: int| 0 <= i < 8 && r == #[trigger] DIR::nth(i),
    {
        let index: u32 = random_below(8);
        DIR::from_index(index)
    }

    /// The direction whose unit step is `offset`.
    pub fn get_dir_from_offset(offset: (isize, isize)) -> (r: DIR)
        requires
            is_unit_step(offset.0 as int, offset.1 as int),
        ensures
            r.step() == (offset.0 as int, offset.1 as int),
    {
        let (x, y) = offset;
        if x == 0 {
            if y == 1 {
                DIR::North
            } else {
                DIR::South
            }
        } else if x == 1 {
            if y == 1 {
                DIR::NorthEast
            } else if y == 0 {
                DIR::East
            } else {
                DIR::SouthEast
            }
        } else {
            if y == 1 {
                DIR::NorthWest
            } else if y == 0 {
                DIR::West
            } else {
                DIR::SouthWest
            }
        }
    }

    /// A quarter turn to the left: the step `(x, y)` becomes `(-y, x)`.
    pub fn rotateCCW90(&self) -> (r: DIR)
        ensures
            r == self.turned_ccw(),
            r.step() == (-self.step().1, self.step().0),
    {
        match *self {
            DIR::North => DIR::West,
            DIR::NorthEast => DIR::NorthWest,
            DIR::East => DIR::North,
            DIR::SouthEast => DIR::NorthEast,
            DIR::South => DIR::East,
            DIR::SouthWest => DIR::SouthEast,
            DIR::West => DIR::South,
            DIR::NorthWest => DIR::SouthWest,
        }
    }

    /// A quarter turn to the right: the step `(x, y)` becomes `(y, -x)`.
    pub fn rotateCW90(&self) -> (r: DIR)
        ensures
            r == self.turned_cw(),
            r.step() == (self.step().1, -self.step().0),
    {
        match *self {
            DIR::West => DIR::North,
            DIR::NorthWest => DIR::NorthEast,
            DIR::North => DIR::East,
            DIR::NorthEast => DIR::SouthEast,
            DIR::East => DIR::South,
            DIR::SouthEast => DIR::SouthWest,
            DIR::South => DIR::West,
            DIR::SouthWest => DIR::NorthWest,
        }
    }

    /// A half turn: the step `(x, y)` becomes `(-x, -y)`.
    pub fn rotate180(&self) -> (r: DIR)
        ensures
            r == self.reversed(),
            r.step() == (-self.step().0, -self.step().1),
    {
        match *self {
            DIR::North => DIR::South,
            DIR::NorthEast => DIR::SouthWest,
            DIR::East => DIR::West,
            DIR::SouthEast => DIR::NorthWest,
            DIR::South => DIR::North,
            DIR::SouthWest => DIR::NorthEast,
            DIR::West => DIR::East,
            DIR::NorthWest => DIR::SouthEast,
        }
    }
}

/// A half turn made twice leads back to where it began.
pub proof fn lemma_half_turn_twice(d: DIR)
    ensures
        d.reversed().reversed() == d,
{
}

/// A quarter turn one way and a quarter turn the other way cancel, in
/// either order.
pub proof fn lemma_quarter_turns_cancel(d: DIR)
    ensures
        d.turned_ccw().turned_cw() == d,
        d.turned_cw().turned_ccw() == d,
{
}

/// Two quarter turns the same way make a half turn.
pub proof fn lemma_two_quarter_turns(d: DIR)
    ensures
        d.turned_cw().turned_cw() == d.reversed(),
        d.turned_ccw().turned_ccw() == d.reversed(),
{
}

/// In clockwise order from north, a quarter turn to the right is two places
/// on, a half turn four and a quarter turn to the left six, round the eight.
pub proof fn lemma_turns_in_order(i: int)
    requires
        0 <= i < 8,
    ensures
        DIR::nth(i).turned_cw() == DIR::nth((i + 2) % 8),
        DIR::nth(i).reversed() == DIR::nth((i + 4) % 8),
        DIR::nth(i).turned_ccw() == DIR::nth((i + 6) % 8),
{
}

/// The step of a direction is a unit step, and no two directions share one:
/// the direction that `DIR::get_dir_from_offset` finds for the step of `a`
/// is `a`.
pub proof fn lemma_step_fixes_direction(a: DIR, b: DIR)
    ensures
        is_unit_step(a.step().0, a.step().1),
        a.step() == b.step() ==> a == b,
{
}

} // verus!
