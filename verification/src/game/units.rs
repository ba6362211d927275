//! The units in which the game counts.
//!
//! Nothing here is a floating-point number. Time is counted in microseconds
//! and the speed coefficient in tenths. A length is counted in steps of one
//! ten-millionth of a world unit: a speed in world units per second, times a
//! time in microseconds, times a coefficient in tenths, is then a whole number
//! of steps, so that no displacement is ever rounded.

use vstd::prelude::*;

verus! {

/// Microseconds in one second.
pub const MICROS_PER_SECOND: i64 = 1_000_000;

/// The speed coefficient 1.0, in tenths.
pub const COEFFICIENT_ONE: u32 = 10;

/// What one paddle bounce adds to the speed coefficient: 0.2, in tenths.
pub const COEFFICIENT_STEP: u32 = 2;

/// Length steps in one world unit: `MICROS_PER_SECOND` times `COEFFICIENT_ONE`.
pub const UNIT: i64 = 10_000_000;

/// The ball's radius, 7.5 world units.
pub const BALL_RADIUS: i64 = 75_000_000;

/// How far ahead of its centre the ball is taken to reach when it is tested
/// against the left and right screen edges: 5 world units.
pub const SCORING_REACH: i64 = 50_000_000;

/// A paddle's width, 10 world units.
pub const PADDLE_WIDTH: i64 = 100_000_000;

/// A paddle's height, 100 world units.
pub const PADDLE_HEIGHT: i64 = 1_000_000_000;

/// The gap between a paddle and its screen edge at the start: 10 world units.
pub const PADDLE_MARGIN: i64 = 100_000_000;

/// The ball's horizontal speed at coefficient 1.0, in world units per second.
pub const BALL_SPEED: i64 = 150;

/// A paddle's speed, in world units per second.
pub const PADDLE_SPEED: i64 = 300;

/// The vertical speed that a paddle gives the ball, in world units per second.
pub const BOUNCE_ANGLE: i32 = 45;

} // verus!
