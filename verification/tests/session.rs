use brickbreaker::actions::RawInput;
use brickbreaker::ball::{Impulse, LaunchStatus};
use brickbreaker::events::{CollisionEvent, ContactKind, EventQueue};
use brickbreaker::field::PlayField;
use brickbreaker::session::Session;

const FRAME_MICROS: i64 = 16666;

fn right() -> RawInput {
    RawInput { arrow_right: true, ..RawInput::released() }
}

fn fire() -> RawInput {
    RawInput { space: true, ..RawInput::released() }
}

#[test]
fn standard_session_starts_armed_on_the_paddle() {
    let s = Session::standard();
    assert_eq!(s.paddle.x, 0);
    assert_eq!(s.paddle.y, -330_240_000);
    assert_eq!(s.paddle.half_extent, 102_400_000);
    assert_eq!(s.paddle.speed, 600);
    assert_eq!(s.ball.status, LaunchStatus::Armed);
    assert_eq!(s.ball.x, 0);
    assert_eq!(s.ball.y, -310_240_000);
    assert_eq!(s.ball.vel_x, 0);
    assert_eq!(s.ball.vel_y, 0);
    assert_eq!(s.malformed_events, 0);
}

#[test]
fn half_second_of_right_is_clamped_at_the_right_wall() {
    // 600 units/s for 0.5 s asks for ~300 units, but the travel band ends at
    // 256 - 102.4 = 153.6 units: the paddle stops at the wall.
    let mut s = Session::standard();
    for _ in 0..30 {
        let cmd = s.begin_frame(&right(), FRAME_MICROS);
        assert_eq!(cmd.displacement, 9_999_600);
        assert!(cmd.impulse.is_none());
    }
    assert_eq!(s.paddle.x, 153_600_000);
}

#[test]
fn half_second_of_right_moves_about_300_units() {
    // On a wider field with a narrow paddle nothing clamps: 30 frames of
    // 16666 us at 600 units/s give 299.988 units.
    let field = PlayField::new(400_000_000, 384_000_000, 1_000_000);
    let mut s = Session::new(field, -330_240_000, 10_000_000, 600);
    for _ in 0..30 {
        s.begin_frame(&right(), FRAME_MICROS);
    }
    assert_eq!(s.paddle.x, 299_988_000);
}

#[test]
fn armed_ball_tracks_the_paddle_every_frame() {
    let mut s = Session::standard();
    for _ in 0..5 {
        s.begin_frame(&right(), FRAME_MICROS);
        assert_eq!(s.ball.status, LaunchStatus::Armed);
        assert_eq!(s.ball.x, s.paddle.x);
        assert_eq!(s.ball.y, s.paddle.y + 20_000_000);
        assert_eq!(s.ball.vel_x, 0);
        assert_eq!(s.ball.vel_y, 0);
    }
}

#[test]
fn fire_launches_with_a_single_upward_impulse() {
    let mut s = Session::standard();
    let cmd = s.begin_frame(&fire(), FRAME_MICROS);
    assert_eq!(cmd.impulse, Some(Impulse { x: 0, y: 750_000_000 }));
    assert_eq!(s.ball.status, LaunchStatus::InPlay);

    // Holding fire adds nothing on the next frame.
    let cmd2 = s.begin_frame(&fire(), FRAME_MICROS);
    assert_eq!(cmd2.impulse, None);

    // Releasing and pressing again while in play adds nothing either.
    s.begin_frame(&RawInput::released(), FRAME_MICROS);
    let cmd3 = s.begin_frame(&fire(), FRAME_MICROS);
    assert_eq!(cmd3.impulse, None);
    assert_eq!(s.ball.status, LaunchStatus::InPlay);
}

#[test]
fn launched_ball_leaves_the_tracked_offset() {
    let mut s = Session::standard();
    s.begin_frame(&fire(), FRAME_MICROS);
    // The physics step reports the ball flying upward; the core keeps the
    // observation instead of re-seating the ball on the paddle.
    s.observe_ball_motion(0, -250_000_000, 0, 700_000_000);
    s.begin_frame(&right(), FRAME_MICROS);
    assert_eq!(s.ball.y, -250_000_000);
    assert_eq!(s.ball.vel_y, 700_000_000);
    assert_ne!(s.ball.x, s.paddle.x);
}

#[test]
fn contact_ended_yields_exactly_one_sound_that_frame() {
    let mut s = Session::standard();
    let mut q = EventQueue::new();
    s.begin_frame(&RawInput::released(), FRAME_MICROS);
    q.push(CollisionEvent { kind: ContactKind::Stopped, body_a: Some(10), body_b: Some(20) });
    let out = s.end_frame(&mut q);
    assert_eq!(out.sounds.len(), 1);
    assert_eq!(out.sounds[0].body_a, 10);
    assert_eq!(out.sounds[0].body_b, 20);
    // The queue was drained exactly once: a second read inside the same
    // frame sees nothing.
    let again = s.end_frame(&mut q);
    assert_eq!(again.sounds.len(), 0);
}

#[test]
fn malformed_events_accumulate_on_the_session() {
    let mut s = Session::standard();
    let mut q = EventQueue::new();
    q.push(CollisionEvent { kind: ContactKind::Stopped, body_a: None, body_b: None });
    q.push(CollisionEvent { kind: ContactKind::Stopped, body_a: Some(1), body_b: Some(2) });
    let out = s.end_frame(&mut q);
    assert_eq!(out.sounds.len(), 1);
    assert_eq!(out.malformed, 1);
    assert_eq!(s.malformed_events, 1);
    q.push(CollisionEvent { kind: ContactKind::Started, body_a: None, body_b: Some(3) });
    s.end_frame(&mut q);
    assert_eq!(s.malformed_events, 2);
}
