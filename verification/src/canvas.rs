//! The rectangle inside which the balls move.

use crate::units::{BALL_RADIUS, UNITS_PER_PIXEL};
use vstd::prelude::*;

verus! {

/// Why a canvas cannot take a ball.
#[derive(Clone, Copy, Debug, PartialEq, Eq)]
pub enum ConfigError {
    /// The canvas is narrower than one ball.
    CanvasTooNarrow,
    /// The canvas is wide enough and lower than one ball.
    CanvasTooShort,
}

/// The size of the drawing surface, in pixels. Its corner is the origin and
/// it extends to the right and downward.
#[derive(Clone, Copy, Debug, PartialEq, Eq)]
pub struct Canvas {
    pub width: u32,
    pub height: u32,
}

impl Canvas {
    /// The width in grid units.
    pub open spec fn width_units(self) -> int {
        self.width * UNITS_PER_PIXEL
    }

    /// The height in grid units.
    pub open spec fn height_units(self) -> int {
        self.height * UNITS_PER_PIXEL
    }

    /// What is wrong with the canvas as a place for a ball, if anything. A
    /// ball's centre must find room between `BALL_RADIUS` and the extent less
    /// `BALL_RADIUS` on each axis; the width is looked at first.
    pub open spec fn placement_error(self) -> Option<ConfigError> {
        if self.width_units() - BALL_RADIUS < BALL_RADIUS {
            Some(ConfigError::CanvasTooNarrow)
        } else if self.height_units() - BALL_RADIUS < BALL_RADIUS {
            Some(ConfigError::CanvasTooShort)
        } else {
            None
        }
    }

    /// The canvas is at least one ball wide and one ball high.
    pub open spec fn holds_a_ball(self) -> bool {
        self.placement_error() is None
    }

    /// A canvas of the given size in pixels.
    pub fn new(width: u32, height: u32) -> (canvas: Canvas)
        ensures
            canvas == (Canvas { width, height }),
    {
        Canvas { width, height }
    }

    /// The width in grid units.
    pub fn width_in_units(&self) -> (units: i64)
        ensures
            units == self.width_units(),
    {
        self.width as i64 * UNITS_PER_PIXEL
    }

    /// The height in grid units.
    pub fn height_in_units(&self) -> (units: i64)
        ensures
            units == self.height_units(),
    {
        self.height as i64 * UNITS_PER_PIXEL
    }

    /// Accepts the canvas if a ball fits into it, and says what is wrong
    /// with it if none does.
    pub fn validate(&self) -> (outcome: Result<(), ConfigError>)
        ensures
            outcome is Ok <==> self.holds_a_ball(),
            outcome matches Err(error) ==> self.placement_error() == Some(error),
    {
        if self.width_in_units() - BALL_RADIUS < BALL_RADIUS {
            Err(ConfigError::CanvasTooNarrow)
        } else if self.height_in_units() - BALL_RADIUS < BALL_RADIUS {
            Err(ConfigError::CanvasTooShort)
        } else {
            Ok(())
        }
    }
}

} // verus!
