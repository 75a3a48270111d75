//! One tick of one cell: what the network is told, what its answer means,
//! and where the cell stands afterwards.
//!
//! The network works in floating point and is not part of this library. It
//! hands over, for each axis, whether the cell moves and which way; the
//! rules for the oscillator, for the nine actions and for the step on the
//! grid are here.
use crate::cell::MovementData;
use crate::direction::DIR;
use crate::{GridValueT, TimeT};
use vstd::arithmetic::div_mod::{lemma_basic_div, lemma_div_plus_one};
use vstd::prelude::*;

verus! {

/// The oscillator's signal at `tick`: a square wave that starts at -1 and
/// changes sign every `period` ticks.
pub open spec fn square_wave(tick: int, period: int) -> int {
    ((tick / period) % 2) * 2 - 1
}

/// The signal that the oscillator sensor shows at `tick`.
pub fn oscillator_signal(tick: TimeT, period: TimeT) -> (r: i8)
    requires
        period > 0,
    ensures
        r == square_wave(tick as int, period as int),
        r == -1 || r == 1,
{
    if (tick / period) % 2 == 0 {
        -1
    } else {
        1
    }
}

/// The oscillator's signal is -1 through the first `period` ticks, and
/// `period` ticks later it is always the opposite of what it was: the wave
/// holds each sign for `period` ticks and comes round after `2 * period`.
pub proof fn lemma_square_wave_alternates(tick: int, period: int)
    requires
        0 <= tick,
        0 < period,
    ensures
        tick < period ==> square_wave(tick, period) == -1,
        square_wave(tick, period) == -1 || square_wave(tick, period) == 1,
        square_wave(tick + period, period) == -square_wave(tick, period),
        square_wave(tick + 2 * period, period) == square_wave(tick, period),
{
    if tick < period {
        lemma_basic_div(tick, period);
    }
    lemma_div_plus_one(tick, period);
    lemma_div_plus_one(tick + period, period);
    assert(tick + 2 * period == period + (tick + period));
}

/// The nine outputs of the network that move a cell.
#[derive(Debug, Clone, Copy, PartialEq, Eq, Structural)]
pub enum Action {
    MoveEast,
    MoveWest,
    MoveNorth,
    MoveSouth,
    MoveRandom,
    MoveForward,
    MoveReverse,
    MoveLeft,
    MoveRight,
}

/// The number of actions.
pub const ACTION_COUNT: usize = 9;

impl Action {
    /// The place of the action's activation among the nine: east, west,
    /// north, south, random, forward, reverse, left, right.
    pub open spec fn place(self) -> int {
        match self {
            Action::MoveEast => 0,
            Action::MoveWest => 1,
            Action::MoveNorth => 2,
            Action::MoveSouth => 3,
            Action::MoveRandom => 4,
            Action::MoveForward => 5,
            Action::MoveReverse => 6,
            Action::MoveLeft => 7,
            Action::MoveRight => 8,
        }
    }

    /// The place of the action's activation among the nine.
    pub fn get_index(&self) -> (r: usize)
        ensures
            r == self.place(),
            r < ACTION_COUNT,
    {
        match *self {
            Action::MoveEast => 0,
            Action::MoveWest => 1,
            Action::MoveNorth => 2,
            Action::MoveSouth => 3,
            Action::MoveRandom => 4,
            Action::MoveForward => 5,
            Action::MoveReverse => 6,
            Action::MoveLeft => 7,
            Action::MoveRight => 8,
        }
    }

    /// The action whose activation stands at `index`, if there is one.
    pub fn from_index(index: usize) -> (r: Option<Action>)
        ensures
            r.is_some() <==> index < ACTION_COUNT,
            r.is_some() ==> r.unwrap().place() == index,
    {
        if index == 0 {
            Some(Action::MoveEast)
        } else if index == 1 {
            Some(Action::MoveWest)
        } else if index == 2 {
            Some(Action::MoveNorth)
        } else if index == 3 {
            Some(Action::MoveSouth)
        } else if index == 4 {
            Some(Action::MoveRandom)
        } else if index == 5 {
            Some(Action::MoveForward)
        } else if index == 6 {
            Some(Action::MoveReverse)
        } else if index == 7 {
            Some(Action::MoveLeft)
        } else if index == 8 {
            Some(Action::MoveRight)
        } else {
            None
        }
    }

    /// The unit step that the action's activation scales, for a cell that
    /// last went `last`, where `random` is the direction drawn for this
    /// tick. Forward, reverse, left and right are taken from `last`.
    pub open spec fn unit_step(self, last: DIR, random: DIR) -> (int, int) {
        match self {
            Action::MoveEast => (1, 0),
            Action::MoveWest => (-1, 0),
            Action::MoveNorth => (0, 1),
            Action::MoveSouth => (0, -1),
            Action::MoveRandom => random.step(),
            Action::MoveForward => last.step(),
            Action::MoveReverse => last.reversed().step(),
            Action::MoveLeft => last.turned_ccw().step(),
            Action::MoveRight => last.turned_cw().step(),
        }
    }

    /// The unit step that the action's activation scales.
    pub fn get_move_offset(&self, last: &DIR, random: &DIR) -> (r: (isize, isize))
        ensures
            (r.0 as int, r.1 as int) == self.unit_step(*last, *random),
    {
        match *self {
            Action::MoveEast => DIR::East.get_move_offset(),
            Action::MoveWest => DIR::West.get_move_offset(),
            Action::MoveNorth => DIR::North.get_move_offset(),
            Action::MoveSouth => DIR::South.get_move_offset(),
            Action::MoveRandom => random.get_move_offset(),
            Action::MoveForward => last.get_move_offset(),
            Action::MoveReverse => last.rotate180().get_move_offset(),
            Action::MoveLeft => last.rotateCCW90().get_move_offset(),
            Action::MoveRight => last.rotateCW90().get_move_offset(),
        }
    }
}

/// What a cell does on one axis in one tick.
#[derive(Debug, Clone, Copy, PartialEq, Eq, Structural)]
pub enum AxisMove {
    Stay,
    Up,
    Down,
}

impl AxisMove {
    /// The move that follows from an axis value `v` and a draw `r`:
    /// `triggered` says whether `r` fell below the size of `v`, `positive`
    /// whether `v` is above zero.
    pub open spec fn of(triggered: bool, positive: bool) -> AxisMove {
        if !triggered {
            AxisMove::Stay
        } else if positive {
            AxisMove::Up
        } else {
            AxisMove::Down
        }
    }

    /// The coordinate after the move on an axis of `limit` places: one up,
    /// one down but not below zero, or as it was, and then no higher than
    /// the last place.
    pub open spec fn apply(self, coord: int, limit: int) -> int {
        let moved: int = match self {
            AxisMove::Stay => coord,
            AxisMove::Up => coord + 1,
            AxisMove::Down => if coord > 0 {
                coord - 1
            } else {
                0
            },
        };
        if moved >= limit {
            limit - 1
        } else {
            moved
        }
    }

    /// The move that follows from the two tests on an axis value.
    pub fn decide(triggered: bool, positive: bool) -> (r: AxisMove)
        ensures
            r == AxisMove::of(triggered, positive),
    {
        if !triggered {
            AxisMove::Stay
        } else if positive {
            AxisMove::Up
        } else {
            AxisMove::Down
        }
    }

    /// The coordinate after the move. The result is a place on the axis
    /// wherever the cell stood before.
    pub fn step(&self, coord: GridValueT, limit: GridValueT) -> (r: GridValueT)
        requires
            limit > 0,
        ensures
            r == self.apply(coord as int, limit as int),
            r < limit,
            coord < limit ==> coord - 1 <= r <= coord + 1,
    {
        let moved: GridValueT = match *self {
            AxisMove::Stay => coord,
            AxisMove::Up => coord.saturating_add(1),
            AxisMove::Down => coord.saturating_sub(1),
        };
        if moved >= limit {
            limit - 1
        } else {
            moved
        }
    }
}

/// Where the cell stands after one tick, given what it does on each axis:
/// `moves.0` along x on a grid `gridWidth` wide, `moves.1` along y on a grid
/// `gridHeight` high. The cell's record is not changed. The result lies on
/// the grid, whatever the moves and wherever the cell stood.
pub fn oneStep(
    cell: &MovementData,
    moves: (AxisMove, AxisMove),
    gridWidth: GridValueT,
    gridHeight: GridValueT,
) -> (r: (GridValueT, GridValueT))
    requires
        gridWidth > 0,
        gridHeight > 0,
    ensures
        r.0 == moves.0.apply(cell.x as int, gridWidth as int),
        r.1 == moves.1.apply(cell.y as int, gridHeight as int),
        r.0 < gridWidth,
        r.1 < gridHeight,
        cell.x < gridWidth ==> cell.x - 1 <= r.0 <= cell.x + 1,
        cell.y < gridHeight ==> cell.y - 1 <= r.1 <= cell.y + 1,
{
    (moves.0.step(cell.x, gridWidth), moves.1.step(cell.y, gridHeight))
}

} // verus!
