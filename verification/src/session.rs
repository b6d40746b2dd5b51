//! The per-frame gameplay loop, with explicit ownership: one session holds
//! the field, the one paddle, the one ball and the previous frame's action
//! snapshot, and is stepped once per frame in a fixed order — action
//! mapping, paddle control, then (after the engine's physics step has run
//! outside) collision dispatch.
//!
//! `begin_frame` produces the commands the physics engine consumes for the
//! frame: the paddle's displacement request and the launch impulse, if any.
//! `end_frame` drains the collision events the physics step reported and
//! yields the frame's sound requests.  The engine step between the two
//! calls is the only point where physics output becomes visible to the
//! next frame.

use vstd::prelude::*;
use crate::actions::ActionState;
use crate::actions::RawInput;
use crate::actions::initial_actions;
use crate::actions::initial_actions_spec;
use crate::actions::map_actions;
use crate::actions::map_actions_spec;
use crate::ball::BallState;
use crate::ball::Impulse;
use crate::ball::LaunchStatus;
use crate::ball::armed_on;
use crate::ball::ball_frame_step;
use crate::ball::ball_step_spec;
use crate::events::DispatchOutcome;
use crate::events::EventQueue;
use crate::events::malformed_count;
use crate::events::sounds_for;
use crate::field::BALL_REST_OFFSET_Y;
use crate::field::FRAME_MICROS_LIMIT;
use crate::field::PADDLE_HALF_WIDTH;
use crate::field::PADDLE_REST_Y;
use crate::field::PADDLE_SPEED;
use crate::field::PlayField;
use crate::field::SPEED_LIMIT;
use crate::paddle::PaddleState;
use crate::paddle::displacement_request;
use crate::paddle::displacement_spec;
use crate::paddle::kinematic_step;
use crate::paddle::kinematic_step_spec;
use crate::paddle::lemma_kinematic_step_wf;
use crate::paddle::travel_limit;

verus! {

/// The commands one frame hands to the physics engine: the paddle's
/// translation delta for the kinematic step, and the ball impulse if the
/// frame launched.  Issued anew each frame; a frame that requests nothing
/// requests zero, so motion never persists by omission.
#[derive(Clone, Copy, Debug)]
pub struct FrameCommands {
    pub displacement: i64,
    pub impulse: Option<Impulse>,
}

/// One frame's stimulus: the raw input snapshot and the frame duration.
#[derive(Clone, Copy, Debug)]
pub struct FrameStimulus {
    pub raw: RawInput,
    pub dt_micros: i64,
}

/// A running game session.  Exactly one paddle and one ball exist for the
/// session's lifetime; components hold them here by name instead of
/// querying a world for them, so "no paddle found" cannot arise.
#[derive(Clone, Copy, Debug)]
pub struct Session {
    pub field: PlayField,
    pub paddle: PaddleState,
    pub ball: BallState,
    pub actions: ActionState,
    /// Running count of malformed collision events that were skipped,
    /// saturating at its maximum.  Diagnostic only.
    pub malformed_events: u64,
}

impl Session {
    /// The session invariant: well-formed geometry, the paddle inside its
    /// travel band, and an armed ball seated exactly on the paddle — at
    /// its center, the fixed offset above it, with zero velocity.
    pub open spec fn wf(self) -> bool {
        &&& self.field.wf()
        &&& self.paddle.wf(self.field)
        &&& self.ball.status == LaunchStatus::Armed ==> self.ball == armed_on(self.paddle)
    }

    /// Starts a session on a field: paddle centered at rest, ball armed
    /// and seated on it, no action held, nothing counted.
    pub fn new(field: PlayField, paddle_y: i64, paddle_half_extent: i64, speed: i64) -> (s:
        Session)
        requires
            field.wf(),
            0 < paddle_half_extent <= field.half_width,
            0 <= speed <= SPEED_LIMIT,
            -field.half_height <= paddle_y <= field.half_height,
        ensures
            s.field == field,
            s.paddle == (PaddleState { x: 0, y: paddle_y, half_extent: paddle_half_extent, speed }),
            s.ball == armed_on(s.paddle),
            s.actions == initial_actions_spec(),
            s.malformed_events == 0,
            s.wf(),
    {
        let paddle = PaddleState { x: 0, y: paddle_y, half_extent: paddle_half_extent, speed };
        let ball = BallState {
            status: LaunchStatus::Armed,
            x: 0,
            y: paddle_y + BALL_REST_OFFSET_Y,
            vel_x: 0,
            vel_y: 0,
        };
        Session {
            field,
            paddle,
            ball,
            actions: initial_actions(),
            malformed_events: 0,
        }
    }

    /// Starts a session with the standard geometry and speed.
    pub fn standard() -> (s: Session)
        ensures
            s.field == (PlayField {
                half_width: crate::field::FIELD_HALF_WIDTH,
                half_height: crate::field::FIELD_HALF_HEIGHT,
                wall_half_thickness: crate::field::WALL_HALF_THICKNESS,
            }),
            s.paddle == (PaddleState {
                x: 0,
                y: PADDLE_REST_Y,
                half_extent: PADDLE_HALF_WIDTH,
                speed: PADDLE_SPEED,
            }),
            s.ball == armed_on(s.paddle),
            s.actions == initial_actions_spec(),
            s.malformed_events == 0,
            s.wf(),
    {
        Session::new(PlayField::standard(), PADDLE_REST_Y, PADDLE_HALF_WIDTH, PADDLE_SPEED)
    }

    /// Overwrites the ball's observed position and velocity with what the
    /// physics step reported.  Only a ball in play may be overwritten: an
    /// armed ball is owned by the launch state machine and physics must
    /// not leak motion into it.
    pub fn observe_ball_motion(&mut self, x: i64, y: i64, vel_x: i64, vel_y: i64)
        requires
            old(self).ball.status == LaunchStatus::InPlay,
        ensures
            final(self).ball == (BallState { status: LaunchStatus::InPlay, x, y, vel_x, vel_y }),
            final(self).field == old(self).field,
            final(self).paddle == old(self).paddle,
            final(self).actions == old(self).actions,
            final(self).malformed_events == old(self).malformed_events,
            old(self).wf() ==> final(self).wf(),
    {
        self.ball = BallState { status: LaunchStatus::InPlay, x, y, vel_x, vel_y };
    }

    /// Runs the pre-physics part of one frame: maps the raw input, applies
    /// the paddle's clamped displacement, steps the launch state machine
    /// against the paddle's new transform, and returns the frame's
    /// commands for the engine.
    pub fn begin_frame(&mut self, raw: &RawInput, dt_micros: i64) -> (cmd: FrameCommands)
        requires
            old(self).wf(),
            0 <= dt_micros <= FRAME_MICROS_LIMIT,
        ensures
            *final(self) == begin_frame_spec(*old(self), *raw, dt_micros).0,
            cmd == begin_frame_spec(*old(self), *raw, dt_micros).1,
            final(self).wf(),
    {
        proof {
            lemma_session_step_wf(*old(self), *raw, dt_micros);
        }
        let next_actions = map_actions(raw, &self.actions);
        self.actions = next_actions;
        let delta: i64 = displacement_request(&next_actions, self.paddle.speed, dt_micros);
        let mut paddle = self.paddle;
        kinematic_step(&self.field, &mut paddle, delta);
        self.paddle = paddle;
        let mut ball = self.ball;
        let impulse = ball_frame_step(
            &mut ball,
            next_actions.fire_just_activated,
            &self.paddle,
            &self.field,
        );
        self.ball = ball;
        FrameCommands { displacement: delta, impulse }
    }

    /// Runs the post-physics part of one frame: drains the collision
    /// events the physics step reported — fully, and exactly once — and
    /// returns one sound request per well-formed "contact ended" event.
    /// Malformed events are skipped and added to the session's saturating
    /// count.  The sound requests are fire-and-forget: whether the sink
    /// accepts them is no concern of the simulation.
    pub fn end_frame(&mut self, queue: &mut EventQueue) -> (out: DispatchOutcome)
        ensures
            out.sounds@ == sounds_for(old(queue)@),
            out.malformed == malformed_count(old(queue)@),
            final(queue)@.len() == 0,
            final(self).malformed_events == if old(self).malformed_events + out.malformed
                <= u64::MAX {
                old(self).malformed_events + out.malformed
            } else {
                u64::MAX as int
            },
            final(self).field == old(self).field,
            final(self).paddle == old(self).paddle,
            final(self).ball == old(self).ball,
            final(self).actions == old(self).actions,
            old(self).wf() ==> final(self).wf(),
    {
        let out = queue.dispatch();
        let reported: u64 = out.malformed as u64;
        if self.malformed_events <= u64::MAX - reported {
            self.malformed_events = self.malformed_events + reported;
        } else {
            self.malformed_events = u64::MAX;
        }
        out
    }
}

/// What `begin_frame` does to a session, as one step function: the next
/// session state and the frame's engine commands.
pub open spec fn begin_frame_spec(s: Session, raw: RawInput, dt_micros: i64) -> (
    Session,
    FrameCommands,
) {
    let next_actions = map_actions_spec(raw, s.actions);
    let delta = displacement_spec(next_actions, s.paddle.speed as int, dt_micros as int);
    let next_paddle = kinematic_step_spec(s.field, s.paddle, delta);
    let stepped = ball_step_spec(s.ball, next_actions.fire_just_activated, next_paddle);
    (
        Session {
            field: s.field,
            paddle: next_paddle,
            ball: stepped.0,
            actions: next_actions,
            malformed_events: s.malformed_events,
        },
        FrameCommands { displacement: delta as i64, impulse: stepped.1 },
    )
}

/// One frame step preserves the session invariant, whatever the input and
/// frame duration.
pub proof fn lemma_session_step_wf(s: Session, raw: RawInput, dt_micros: i64)
    requires
        s.wf(),
    ensures
        begin_frame_spec(s, raw, dt_micros).0.wf(),
{
    let next_actions = map_actions_spec(raw, s.actions);
    let delta = displacement_spec(next_actions, s.paddle.speed as int, dt_micros as int);
    lemma_kinematic_step_wf(s.field, s.paddle, delta);
}

/// The session after a whole run: the frame steps folded over a stimulus
/// sequence, oldest first.
pub open spec fn run_spec(s: Session, frames: Seq<FrameStimulus>) -> Session
    decreases frames.len(),
{
    if frames.len() == 0 {
        s
    } else {
        begin_frame_spec(run_spec(s, frames.drop_last()), frames.last().raw, frames.last().dt_micros).0
    }
}

/// Wall-clamping invariant: after any number of frames, under any inputs
/// and frame durations, the session stays well formed and the paddle's
/// center never leaves the band the walls allow — its distance from the
/// center never exceeds the field's half width less the paddle's half
/// extent.
pub proof fn lemma_paddle_never_escapes(s: Session, frames: Seq<FrameStimulus>)
    requires
        s.wf(),
    ensures
        run_spec(s, frames).wf(),
        -travel_limit(run_spec(s, frames).field, run_spec(s, frames).paddle) <= run_spec(
            s,
            frames,
        ).paddle.x <= travel_limit(run_spec(s, frames).field, run_spec(s, frames).paddle),
    decreases frames.len(),
{
    if frames.len() > 0 {
        lemma_paddle_never_escapes(s, frames.drop_last());
        lemma_session_step_wf(
            run_spec(s, frames.drop_last()),
            frames.last().raw,
            frames.last().dt_micros,
        );
    }
}

/// How many frames of a run emitted a launch impulse in their commands.
pub open spec fn impulse_count(s: Session, frames: Seq<FrameStimulus>) -> int
    decreases frames.len(),
{
    if frames.len() == 0 {
        0
    } else {
        impulse_count(s, frames.drop_last()) + if begin_frame_spec(
            run_spec(s, frames.drop_last()),
            frames.last().raw,
            frames.last().dt_micros,
        ).1.impulse is Some {
            1int
        } else {
            0int
        }
    }
}

/// Exactly one impulse per launch, over any whole run: while the ball stays
/// armed no frame emits an impulse; once it has gone in play, exactly one
/// frame of the run emitted one — and a run that starts in play never emits
/// another, however often `Fire` arrives.
pub proof fn lemma_run_emits_one_impulse_per_launch(s: Session, frames: Seq<FrameStimulus>)
    ensures
        s.ball.status == LaunchStatus::InPlay ==> run_spec(s, frames).ball.status
            == LaunchStatus::InPlay && impulse_count(s, frames) == 0,
        s.ball.status == LaunchStatus::Armed && run_spec(s, frames).ball.status
            == LaunchStatus::Armed ==> impulse_count(s, frames) == 0,
        s.ball.status == LaunchStatus::Armed && run_spec(s, frames).ball.status
            == LaunchStatus::InPlay ==> impulse_count(s, frames) == 1,
    decreases frames.len(),
{
    if frames.len() > 0 {
        lemma_run_emits_one_impulse_per_launch(s, frames.drop_last());
    }
}

/// Zero-drift law for the armed ball: after any number of frames, a ball
/// that is still armed sits exactly at the paddle's center, the fixed
/// offset above it, with zero velocity — it has accumulated nothing from
/// physics.
pub proof fn lemma_armed_ball_never_drifts(s: Session, frames: Seq<FrameStimulus>)
    requires
        s.wf(),
    ensures
        run_spec(s, frames).ball.status == LaunchStatus::Armed ==> run_spec(s, frames).ball
            == armed_on(run_spec(s, frames).paddle),
{
    lemma_paddle_never_escapes(s, frames);
}

} // verus!
