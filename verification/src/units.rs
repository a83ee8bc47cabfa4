//! The grid on which the animation runs, and the limits of ball motion.

use vstd::prelude::*;

verus! {

/// Grid units in one pixel.
pub const UNITS_PER_PIXEL: i64 = 1_000;

/// Radius of every ball: 25 pixels.
pub const BALL_RADIUS: i64 = 25_000;

/// Slowest speed along one axis that a new ball is given: one pixel a tick.
pub const SLOWEST_VELOCITY: i64 = 1_000;

/// Fastest speed along one axis that a new ball is given: five pixels a tick.
pub const FASTEST_VELOCITY: i64 = 5_000;

/// Largest speed along one axis, in either direction, that a ball can have.
pub const MAX_SPEED: i64 = 2_000_000_000_000_000_000;

/// Largest distance from the origin along one axis at which a ball's centre
/// can be. It leaves room for one more step at `MAX_SPEED` in a 64-bit
/// coordinate, and for the widest canvas plus one such step.
pub const MAX_COORDINATE: i64 = 4_000_000_000_000_000_000;

} // verus!
