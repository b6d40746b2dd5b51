//! The play field: fixed geometry the session is created with, and the
//! fixed-point scale every other module measures in.

use vstd::prelude::*;

verus! {

/// Fixed-point scale: subunits per world unit.  All positions, extents and
/// impulses in this crate are integers measured in subunits, and time is
/// measured in microseconds, so that `units/second * microseconds` lands
/// directly in subunits with no division and no rounding.
pub const SUBUNITS_PER_UNIT: i64 = 1_000_000;

/// Half the field's width: 256 world units.
pub const FIELD_HALF_WIDTH: i64 = 256 * SUBUNITS_PER_UNIT;

/// Half the field's height: 384 world units.
pub const FIELD_HALF_HEIGHT: i64 = 384 * SUBUNITS_PER_UNIT;

/// Half the thickness of each boundary wall collider: 1 world unit.
pub const WALL_HALF_THICKNESS: i64 = 1 * SUBUNITS_PER_UNIT;

/// The paddle's half extent along the axis it travels: two fifths of the
/// field's half width (102.4 world units).
pub const PADDLE_HALF_WIDTH: i64 = 102_400_000;

/// The paddle's half extent across the axis it travels: 10 world units.
pub const PADDLE_HALF_HEIGHT: i64 = 10 * SUBUNITS_PER_UNIT;

/// The paddle's fixed vertical position: 86% of the way down from the center
/// to the lower edge of the field (-330.24 world units).
pub const PADDLE_REST_Y: i64 = -330_240_000;

/// The paddle's travel speed while a direction is held, in world units per
/// second.
pub const PADDLE_SPEED: i64 = 600;

/// The ball's radius: 8 world units.
pub const BALL_RADIUS: i64 = 8 * SUBUNITS_PER_UNIT;

/// Vertical offset of an armed ball above the paddle's center: twice the
/// paddle's half height.
pub const BALL_REST_OFFSET_Y: i64 = 2 * PADDLE_HALF_HEIGHT;

/// Magnitude of the single upward impulse applied when the ball launches:
/// 750 world units.
pub const LAUNCH_IMPULSE_Y: i64 = 750 * SUBUNITS_PER_UNIT;

/// Largest extent or coordinate magnitude a field may be built with
/// (one million world units).  Keeps every per-frame sum well inside `i64`.
pub const COORDINATE_LIMIT: i64 = 1_000_000_000_000;

/// Largest paddle speed a session may be built with, in world units per
/// second.
pub const SPEED_LIMIT: i64 = 1_000_000;

/// Largest frame duration a frame step accepts, in microseconds (ten
/// seconds).
pub const FRAME_MICROS_LIMIT: i64 = 10_000_000;

/// Largest displacement magnitude one frame can request:
/// `SPEED_LIMIT * FRAME_MICROS_LIMIT` subunits.
pub const DISPLACEMENT_LIMIT: i64 = 10_000_000_000_000;

/// Immutable geometry of the play field.  The three boundary walls (top,
/// left, right) sit centered on the field's half extents; `wall_half_thickness`
/// is configuration for whoever builds the wall colliders and plays no role
/// in the core's own arithmetic.
#[derive(Clone, Copy, PartialEq, Eq, Structural, Debug)]
pub struct PlayField {
    /// Half the field's width, in subunits.
    pub half_width: i64,
    /// Half the field's height, in subunits.
    pub half_height: i64,
    /// Half the thickness of each boundary wall collider, in subunits.
    pub wall_half_thickness: i64,
}

impl PlayField {
    /// Geometry a session can safely run on: positive extents, bounded so
    /// per-frame arithmetic cannot overflow.
    pub open spec fn wf(self) -> bool {
        &&& 0 < self.half_width <= COORDINATE_LIMIT
        &&& 0 < self.half_height <= COORDINATE_LIMIT
        &&& 0 < self.wall_half_thickness <= COORDINATE_LIMIT
    }

    /// Builds a field from its half extents, in subunits.
    pub fn new(half_width: i64, half_height: i64, wall_half_thickness: i64) -> (f: PlayField)
        requires
            0 < half_width <= COORDINATE_LIMIT,
            0 < half_height <= COORDINATE_LIMIT,
            0 < wall_half_thickness <= COORDINATE_LIMIT,
        ensures
            f.half_width == half_width,
            f.half_height == half_height,
            f.wall_half_thickness == wall_half_thickness,
            f.wf(),
    {
        PlayField { half_width, half_height, wall_half_thickness }
    }

    /// The standard 512 x 768 unit field.
    pub fn standard() -> (f: PlayField)
        ensures
            f.half_width == FIELD_HALF_WIDTH,
            f.half_height == FIELD_HALF_HEIGHT,
            f.wall_half_thickness == WALL_HALF_THICKNESS,
            f.wf(),
    {
        PlayField {
            half_width: FIELD_HALF_WIDTH,
            half_height: FIELD_HALF_HEIGHT,
            wall_half_thickness: WALL_HALF_THICKNESS,
        }
    }
}

} // verus!
