use evolution_sim::cell::MovementData;
use evolution_sim::direction::DIR;
use evolution_sim::step::{oneStep, oscillator_signal, Action, AxisMove, ACTION_COUNT};

const ACTIONS: [Action; 9] = [
    Action::MoveEast,
    Action::MoveWest,
    Action::MoveNorth,
    Action::MoveSouth,
    Action::MoveRandom,
    Action::MoveForward,
    Action::MoveReverse,
    Action::MoveLeft,
    Action::MoveRight,
];

const MOVES: [AxisMove; 3] = [AxisMove::Stay, AxisMove::Up, AxisMove::Down];

fn at(x: usize, y: usize) -> MovementData {
    MovementData { x, y, lastMoveDir: DIR::North }
}

#[test]
fn oscillator_toggles_every_period() {
    // period 4: the wave starts low, and changes sign every four ticks
    for tick in 0..100usize {
        let expected: i8 = if (tick / 4) % 2 == 0 { -1 } else { 1 };
        assert_eq!(oscillator_signal(tick, 4), expected);
    }
    for tick in 0..4 {
        assert_eq!(oscillator_signal(tick, 4), -1);
        assert_eq!(oscillator_signal(tick + 4, 4), 1);
        assert_eq!(oscillator_signal(tick + 8, 4), -1);
        assert_eq!(oscillator_signal(tick + 12, 4), 1);
    }
}

#[test]
fn oscillator_follows_the_formula() {
    for period in 1..20usize {
        for tick in 0..200usize {
            let expected = (((tick / period) % 2) * 2) as i64 - 1;
            assert_eq!(oscillator_signal(tick, period) as i64, expected);
            assert_eq!(oscillator_signal(tick + period, period), -oscillator_signal(tick, period));
        }
    }
    assert_eq!(oscillator_signal(0, 1), -1);
    assert_eq!(oscillator_signal(1, 1), 1);
    assert_eq!(oscillator_signal(usize::MAX, usize::MAX), 1);
    assert_eq!(oscillator_signal(usize::MAX - 1, usize::MAX), -1);
}

#[test]
fn actions_have_their_places() {
    assert_eq!(ACTION_COUNT, 9);
    for (i, action) in ACTIONS.iter().enumerate() {
        assert_eq!(action.get_index(), i);
        assert_eq!(Action::from_index(i), Some(*action));
    }
    assert_eq!(Action::from_index(9), None);
    assert_eq!(Action::from_index(usize::MAX), None);
}

#[test]
fn compass_actions_push_along_their_axis() {
    let last = DIR::SouthWest;
    let random = DIR::NorthEast;
    assert_eq!(Action::MoveEast.get_move_offset(&last, &random), (1, 0));
    assert_eq!(Action::MoveWest.get_move_offset(&last, &random), (-1, 0));
    assert_eq!(Action::MoveNorth.get_move_offset(&last, &random), (0, 1));
    assert_eq!(Action::MoveSouth.get_move_offset(&last, &random), (0, -1));
}

#[test]
fn relative_actions_follow_the_last_direction() {
    let random = DIR::West;
    let last = DIR::NorthEast;
    assert_eq!(Action::MoveRandom.get_move_offset(&last, &random), (-1, 0));
    assert_eq!(Action::MoveForward.get_move_offset(&last, &random), (1, 1));
    assert_eq!(Action::MoveReverse.get_move_offset(&last, &random), (-1, -1));
    assert_eq!(Action::MoveLeft.get_move_offset(&last, &random), (-1, 1));
    assert_eq!(Action::MoveRight.get_move_offset(&last, &random), (1, -1));
    let last = DIR::South;
    assert_eq!(Action::MoveForward.get_move_offset(&last, &random), (0, -1));
    assert_eq!(Action::MoveReverse.get_move_offset(&last, &random), (0, 1));
    assert_eq!(Action::MoveLeft.get_move_offset(&last, &random), (1, 0));
    assert_eq!(Action::MoveRight.get_move_offset(&last, &random), (-1, 0));
}

#[test]
fn axis_move_follows_the_draw_and_the_sign() {
    assert_eq!(AxisMove::decide(false, false), AxisMove::Stay);
    assert_eq!(AxisMove::decide(false, true), AxisMove::Stay);
    assert_eq!(AxisMove::decide(true, true), AxisMove::Up);
    assert_eq!(AxisMove::decide(true, false), AxisMove::Down);
}

#[test]
fn axis_step_moves_one_place() {
    assert_eq!(AxisMove::Stay.step(4, 10), 4);
    assert_eq!(AxisMove::Up.step(4, 10), 5);
    assert_eq!(AxisMove::Down.step(4, 10), 3);
}

#[test]
fn axis_step_stops_at_both_ends() {
    assert_eq!(AxisMove::Down.step(0, 10), 0);
    assert_eq!(AxisMove::Up.step(9, 10), 9);
    assert_eq!(AxisMove::Up.step(0, 1), 0);
    assert_eq!(AxisMove::Down.step(0, 1), 0);
    assert_eq!(AxisMove::Stay.step(0, 1), 0);
}

#[test]
fn axis_step_brings_a_stray_coordinate_back() {
    assert_eq!(AxisMove::Stay.step(25, 10), 9);
    assert_eq!(AxisMove::Up.step(25, 10), 9);
    assert_eq!(AxisMove::Down.step(25, 10), 9);
    assert_eq!(AxisMove::Down.step(10, 10), 9);
    assert_eq!(AxisMove::Up.step(usize::MAX, 10), 9);
    assert_eq!(AxisMove::Up.step(usize::MAX, usize::MAX), usize::MAX - 1);
}

#[test]
fn cell_at_the_east_edge_stays_on_the_grid() {
    // a strongly positive x with the draw below it: the cell goes up on x
    let moves = (AxisMove::decide(true, true), AxisMove::decide(false, false));
    assert_eq!(oneStep(&at(9, 0), moves, 10, 10), (9, 0));
    assert_eq!(oneStep(&at(9, 0), (AxisMove::Up, AxisMove::Down), 10, 10), (9, 0));
    assert_eq!(oneStep(&at(9, 0), (AxisMove::Up, AxisMove::Up), 10, 10), (9, 1));
}

#[test]
fn one_step_moves_each_axis_by_itself() {
    assert_eq!(oneStep(&at(3, 7), (AxisMove::Stay, AxisMove::Stay), 10, 10), (3, 7));
    assert_eq!(oneStep(&at(3, 7), (AxisMove::Up, AxisMove::Stay), 10, 10), (4, 7));
    assert_eq!(oneStep(&at(3, 7), (AxisMove::Down, AxisMove::Up), 10, 10), (2, 8));
    assert_eq!(oneStep(&at(3, 7), (AxisMove::Stay, AxisMove::Down), 10, 10), (3, 6));
    assert_eq!(oneStep(&at(3, 7), (AxisMove::Up, AxisMove::Up), 4, 8), (3, 7));
}

#[test]
fn one_step_leaves_the_record_alone() {
    let cell = MovementData { x: 3, y: 7, lastMoveDir: DIR::West };
    let _ = oneStep(&cell, (AxisMove::Up, AxisMove::Down), 10, 10);
    assert_eq!(cell.getCoords(), (3, 7));
    assert_eq!(cell.lastMoveDir, DIR::West);
}

#[test]
fn one_step_never_leaves_the_grid() {
    for width in 1..6usize {
        for height in 1..6usize {
            for x in 0..width {
                for y in 0..height {
                    for mx in MOVES {
                        for my in MOVES {
                            let (nx, ny) = oneStep(&at(x, y), (mx, my), width, height);
                            assert!(nx < width && ny < height);
                            assert!(nx.abs_diff(x) <= 1 && ny.abs_diff(y) <= 1);
                        }
                    }
                }
            }
        }
    }
}
