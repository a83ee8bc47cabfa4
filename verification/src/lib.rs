//! Circles bouncing inside a rectangular canvas, on a fixed-point grid.
//!
//! Every length, position and velocity is a whole number of grid units, a
//! thousand to the pixel, so that each step of the animation is exact integer
//! arithmetic. The library keeps the bodies and the rule that moves them; a
//! caller owns the drawing surface, tells the library its size, and paints
//! the circles that a frame hands back.

pub mod ball;
pub mod canvas;
pub mod random;
pub mod reflect;
pub mod simulation;
pub mod units;

pub use ball::{Ball, BallState, Circle};
pub use canvas::{Canvas, ConfigError};
pub use random::{directed_velocity, random_velocity};
pub use reflect::get_ball_velocity;
pub use simulation::{BouncingBalls, Scene};
