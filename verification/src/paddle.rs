//! The paddle controller: held directions become a bounded per-frame
//! displacement request, and the kinematic step resolves that request
//! against the walls so the paddle's center never leaves its travel band.

use vstd::prelude::*;
use crate::actions::ActionState;
use crate::field::COORDINATE_LIMIT;
use crate::field::DISPLACEMENT_LIMIT;
use crate::field::FRAME_MICROS_LIMIT;
use crate::field::PlayField;
use crate::field::SPEED_LIMIT;

verus! {

/// The paddle: free along `x`, fixed along `y`, with a fixed half extent and
/// a fixed travel speed.  One paddle exists for the whole session.
#[derive(Clone, Copy, PartialEq, Eq, Structural, Debug)]
pub struct PaddleState {
    /// Center position along the travel axis, in subunits.
    pub x: i64,
    /// Fixed vertical position, in subunits.
    pub y: i64,
    /// Half extent along the travel axis, in subunits.
    pub half_extent: i64,
    /// Travel speed while a direction is held, in world units per second.
    pub speed: i64,
}

/// How far from the center the paddle's center may go before a wall stops
/// it: the field's half width less the paddle's half extent.
pub open spec fn travel_limit(field: PlayField, paddle: PaddleState) -> int {
    field.half_width - paddle.half_extent
}

impl PaddleState {
    /// A paddle the session can safely run: positive extent no wider than
    /// the field, speed and fixed coordinates in range, and the center
    /// inside the travel band the walls allow.
    pub open spec fn wf(self, field: PlayField) -> bool {
        &&& 0 < self.half_extent <= field.half_width
        &&& 0 <= self.speed <= SPEED_LIMIT
        &&& -field.half_height <= self.y <= field.half_height
        &&& -travel_limit(field, self) <= self.x <= travel_limit(field, self)
    }
}

/// The displacement one frame requests, in subunits: leftward (negative)
/// when only `Left` is held, rightward (positive) when only `Right` is
/// held, zero when both or neither are held.  `speed` is in world units per
/// second and `dt_micros` in microseconds, so the product is already in
/// subunits.
pub open spec fn displacement_spec(actions: ActionState, speed: int, dt_micros: int) -> int {
    if actions.left_held && !actions.right_held {
        -(speed * dt_micros)
    } else if actions.right_held && !actions.left_held {
        speed * dt_micros
    } else {
        0
    }
}

/// Computes the frame's displacement request from the held directions.
/// The request is issued anew each frame; motion never persists on its own.
pub fn displacement_request(actions: &ActionState, speed: i64, dt_micros: i64) -> (d: i64)
    requires
        0 <= speed <= SPEED_LIMIT,
        0 <= dt_micros <= FRAME_MICROS_LIMIT,
    ensures
        d == displacement_spec(*actions, speed as int, dt_micros as int),
        -DISPLACEMENT_LIMIT <= d <= DISPLACEMENT_LIMIT,
{
    proof {
        assert(speed * dt_micros <= SPEED_LIMIT * FRAME_MICROS_LIMIT && 0 <= speed * dt_micros)
            by (nonlinear_arith)
            requires
                0 <= speed <= SPEED_LIMIT,
                0 <= dt_micros <= FRAME_MICROS_LIMIT,
        ;
    }
    if actions.left_held && !actions.right_held {
        -(speed * dt_micros)
    } else if actions.right_held && !actions.left_held {
        speed * dt_micros
    } else {
        0i64
    }
}

/// Direction law for the displacement request: with positive speed and a
/// positive frame duration, holding only `Left` requests a strictly
/// negative displacement proportional to the elapsed time, holding only
/// `Right` the exact opposite, and holding both or neither requests zero.
pub proof fn lemma_displacement_direction(actions: ActionState, speed: int, dt_micros: int)
    requires
        speed > 0,
        dt_micros > 0,
    ensures
        actions.left_held && !actions.right_held ==> displacement_spec(actions, speed, dt_micros)
            == -(speed * dt_micros) < 0,
        actions.right_held && !actions.left_held ==> displacement_spec(actions, speed, dt_micros)
            == speed * dt_micros > 0,
        actions.left_held == actions.right_held ==> displacement_spec(actions, speed, dt_micros)
            == 0,
{
    assert(speed * dt_micros > 0) by (nonlinear_arith)
        requires
            speed > 0,
            dt_micros > 0,
    ;
}

/// A value clamped into a closed interval.
pub open spec fn clamp_spec(v: int, lo: int, hi: int) -> int {
    if v < lo {
        lo
    } else if v > hi {
        hi
    } else {
        v
    }
}

/// Where the paddle's center ends up when a displacement request is
/// resolved against the walls: the requested target, clamped into the
/// travel band.
pub open spec fn resolved_x(field: PlayField, paddle: PaddleState, delta: int) -> int {
    clamp_spec(paddle.x + delta, -travel_limit(field, paddle), travel_limit(field, paddle))
}

/// The paddle after one kinematic step: only the center moves, and only as
/// far as the walls allow.
pub open spec fn kinematic_step_spec(field: PlayField, paddle: PaddleState, delta: int) -> PaddleState {
    PaddleState {
        x: resolved_x(field, paddle, delta) as i64,
        y: paddle.y,
        half_extent: paddle.half_extent,
        speed: paddle.speed,
    }
}

/// Under a well-formed field and paddle the resolved center stays an `i64`
/// and stays inside the travel band, so the step preserves well-formedness.
pub proof fn lemma_kinematic_step_wf(field: PlayField, paddle: PaddleState, delta: int)
    requires
        field.wf(),
        paddle.wf(field),
    ensures
        kinematic_step_spec(field, paddle, delta).wf(field),
        kinematic_step_spec(field, paddle, delta).x == resolved_x(field, paddle, delta),
        -travel_limit(field, paddle) <= kinematic_step_spec(field, paddle, delta).x
            <= travel_limit(field, paddle),
{
}

/// Applies one frame's displacement request, resolving it against the
/// walls: the paddle stops at a wall rather than passing it.  This is the
/// collision resolution of the engine's kinematic character step, stated
/// over the field's travel band.
pub fn kinematic_step(field: &PlayField, paddle: &mut PaddleState, delta: i64)
    requires
        field.wf(),
        old(paddle).wf(*field),
        -DISPLACEMENT_LIMIT <= delta <= DISPLACEMENT_LIMIT,
    ensures
        *final(paddle) == kinematic_step_spec(*field, *old(paddle), delta as int),
        final(paddle).wf(*field),
{
    proof {
        lemma_kinematic_step_wf(*field, *old(paddle), delta as int);
    }
    let limit: i64 = field.half_width - paddle.half_extent;
    let target: i64 = paddle.x + delta;
    let resolved: i64 = if target < -limit {
        -limit
    } else if target > limit {
        limit
    } else {
        target
    };
    paddle.x = resolved;
}

} // verus!
