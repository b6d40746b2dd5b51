//! The ball launch state machine.
//!
//! A single persistent ball is used for the whole session: it starts
//! `Armed` — held at rest a fixed offset above the paddle, tracking the
//! paddle's motion with zero velocity — and moves to `InPlay` on the first
//! `Fire` activation, receiving exactly one upward impulse.  `Fire` while
//! already in play does nothing.  (The alternative policy of spawning a
//! fresh ball on every press is deliberately not implemented.)

use vstd::prelude::*;
use crate::field::BALL_REST_OFFSET_Y;
use crate::field::LAUNCH_IMPULSE_Y;
use crate::field::PlayField;
use crate::paddle::PaddleState;

verus! {

/// Whether the ball is still held on the paddle or free under physics.
#[derive(Clone, Copy, PartialEq, Eq, Structural, Debug)]
pub enum LaunchStatus {
    /// At rest on the paddle, waiting for `Fire`.
    Armed,
    /// Launched; the physics engine owns its motion from here on.
    InPlay,
}

/// An impulse command for the physics engine, in subunits.
#[derive(Clone, Copy, PartialEq, Eq, Structural, Debug)]
pub struct Impulse {
    pub x: i64,
    pub y: i64,
}

/// The ball's logical state plus the position and velocity the core last
/// established or observed for it, in subunits.
#[derive(Clone, Copy, PartialEq, Eq, Structural, Debug)]
pub struct BallState {
    pub status: LaunchStatus,
    pub x: i64,
    pub y: i64,
    pub vel_x: i64,
    pub vel_y: i64,
}

/// An armed ball sitting on a paddle: at the paddle's center, the fixed
/// offset above it, with zero velocity.
pub open spec fn armed_on(paddle: PaddleState) -> BallState {
    BallState {
        status: LaunchStatus::Armed,
        x: paddle.x,
        y: (paddle.y + BALL_REST_OFFSET_Y) as i64,
        vel_x: 0,
        vel_y: 0,
    }
}

/// The single upward launch impulse.
pub open spec fn launch_impulse() -> Impulse {
    Impulse { x: 0, y: LAUNCH_IMPULSE_Y }
}

/// One frame of the launch state machine: an armed ball is first re-derived
/// from the paddle's transform (so it tracks the paddle with no drift), then
/// fires iff `Fire` just activated — producing the one impulse and moving to
/// `InPlay`.  A ball already in play is left untouched and never yields an
/// impulse.
pub open spec fn ball_step_spec(ball: BallState, fire_just_activated: bool, paddle: PaddleState) -> (
    BallState,
    Option<Impulse>,
) {
    match ball.status {
        LaunchStatus::Armed => {
            let seated = armed_on(paddle);
            if fire_just_activated {
                (BallState { status: LaunchStatus::InPlay, ..seated }, Some(launch_impulse()))
            } else {
                (seated, None)
            }
        },
        LaunchStatus::InPlay => (ball, None),
    }
}

/// Runs one frame of the launch state machine against the paddle's position
/// for this frame, returning the impulse the physics engine must apply, if
/// any.
pub fn ball_frame_step(
    ball: &mut BallState,
    fire_just_activated: bool,
    paddle: &PaddleState,
    field: &PlayField,
) -> (impulse: Option<Impulse>)
    requires
        field.wf(),
        paddle.wf(*field),
    ensures
        *final(ball) == ball_step_spec(*old(ball), fire_just_activated, *paddle).0,
        impulse == ball_step_spec(*old(ball), fire_just_activated, *paddle).1,
        impulse.is_some() <==> (old(ball).status == LaunchStatus::Armed && fire_just_activated),
        old(ball).status == LaunchStatus::InPlay ==> *final(ball) == *old(ball),
{
    match ball.status {
        LaunchStatus::Armed => {
            ball.x = paddle.x;
            ball.y = paddle.y + BALL_REST_OFFSET_Y;
            ball.vel_x = 0;
            ball.vel_y = 0;
            if fire_just_activated {
                ball.status = LaunchStatus::InPlay;
                Some(Impulse { x: 0, y: LAUNCH_IMPULSE_Y })
            } else {
                None
            }
        },
        LaunchStatus::InPlay => None,
    }
}

/// Exactly one impulse per launch: firing an armed ball yields the one
/// upward impulse and leaves the ball in play, and a second activation
/// while in play yields no impulse, whatever the paddle has done since.
pub proof fn lemma_one_impulse_per_launch(
    ball: BallState,
    first_paddle: PaddleState,
    later_paddle: PaddleState,
)
    requires
        ball.status == LaunchStatus::Armed,
    ensures
        ball_step_spec(ball, true, first_paddle).1 == Some(launch_impulse()),
        ball_step_spec(ball, true, first_paddle).0.status == LaunchStatus::InPlay,
        ball_step_spec(ball_step_spec(ball, true, first_paddle).0, true, later_paddle).1
            is None,
{
}

/// A ball that was not fired stays armed, seated on the paddle with zero
/// velocity: physics never leaks motion into it.
pub proof fn lemma_armed_ball_stays_seated(ball: BallState, paddle: PaddleState)
    requires
        ball.status == LaunchStatus::Armed,
    ensures
        ball_step_spec(ball, false, paddle).0 == armed_on(paddle),
        ball_step_spec(ball, false, paddle).0.vel_x == 0,
        ball_step_spec(ball, false, paddle).0.vel_y == 0,
        ball_step_spec(ball, false, paddle).1 is None,
{
}

} // verus!
