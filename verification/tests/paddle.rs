use brickbreaker::actions::{initial_actions, map_actions, RawInput};
use brickbreaker::field::PlayField;
use brickbreaker::paddle::{displacement_request, kinematic_step, PaddleState};

fn held(left: bool, right: bool) -> brickbreaker::actions::ActionState {
    let raw = RawInput { arrow_left: left, arrow_right: right, ..RawInput::released() };
    map_actions(&raw, &initial_actions())
}

#[test]
fn left_only_requests_negative_displacement() {
    // 600 units/s for 16666 us: 9_999_600 subunits, leftward.
    let d = displacement_request(&held(true, false), 600, 16666);
    assert_eq!(d, -9_999_600);
    // Proportional to elapsed time: twice the frame, twice the distance.
    let d2 = displacement_request(&held(true, false), 600, 33332);
    assert_eq!(d2, -19_999_200);
}

#[test]
fn right_only_requests_positive_displacement() {
    let d = displacement_request(&held(false, true), 600, 16666);
    assert_eq!(d, 9_999_600);
}

#[test]
fn both_or_neither_request_zero() {
    assert_eq!(displacement_request(&held(true, true), 600, 16666), 0);
    assert_eq!(displacement_request(&held(false, false), 600, 16666), 0);
}

#[test]
fn kinematic_step_moves_by_the_request() {
    let field = PlayField::standard();
    let mut paddle = PaddleState { x: 0, y: -330_240_000, half_extent: 102_400_000, speed: 600 };
    kinematic_step(&field, &mut paddle, 9_999_600);
    assert_eq!(paddle.x, 9_999_600);
    kinematic_step(&field, &mut paddle, -9_999_600);
    assert_eq!(paddle.x, 0);
}

#[test]
fn kinematic_step_stops_at_the_walls() {
    let field = PlayField::standard();
    // Travel band: half width 256 units less half extent 102.4 units = 153.6 units.
    let limit: i64 = 153_600_000;
    let mut paddle =
        PaddleState { x: limit - 1_000_000, y: -330_240_000, half_extent: 102_400_000, speed: 600 };
    kinematic_step(&field, &mut paddle, 9_999_600);
    assert_eq!(paddle.x, limit);
    // Pushing further has nowhere to go.
    kinematic_step(&field, &mut paddle, 9_999_600);
    assert_eq!(paddle.x, limit);
    // Symmetric on the left wall.
    paddle.x = -limit + 1_000_000;
    kinematic_step(&field, &mut paddle, -9_999_600);
    assert_eq!(paddle.x, -limit);
}
