//! Random draws for new balls.
//!
//! The generator is the thread-local one of the `rand` crate. Nothing is
//! known of a draw but the range it was asked for, so whatever is computed
//! from a draw stands in a function of its own that takes the draw as an
//! argument.

use crate::units::{FASTEST_VELOCITY, SLOWEST_VELOCITY};
use rand::rngs::ThreadRng;
use rand::Rng;
use vstd::math::abs;
use vstd::prelude::*;

verus! {

/// The generator type of `rand`, carried through as an opaque value.
#[verifier::external_type_specification]
#[verifier::external_body]
pub struct ExThreadRng(rand::rngs::ThreadRng);

/// `rand::thread_rng` hands out the generator of the current thread, which
/// the system seeds at its first use. Nothing is claimed of it.
pub assume_specification[ rand::thread_rng ]() -> (rng: ThreadRng);

/// Calls `Rng::gen_range` on the closed range from `low` to `high`. The
/// method refuses an empty range, which the precondition leaves out; of the
/// number drawn it is claimed only that it lies in the range.
#[verifier::external_body]
pub(crate) fn draw_between(rng: &mut ThreadRng, low: i64, high: i64) -> (drawn: i64)
    requires
        low <= high,
    ensures
        low <= drawn <= high,
{
    rng.gen_range(low..=high)
}

/// Calls `num::signum`, which for a signed integer gives 1 for a positive
/// number, 0 for zero and -1 for a negative one.
#[verifier::external_body]
fn signum(value: i64) -> (sign: i64)
    ensures
        sign == sign_of(value as int),
{
    num::signum(value)
}

/// The sign of an integer as a number: 1, 0 or -1.
pub open spec fn sign_of(value: int) -> int {
    if value > 0 {
        1
    } else if value == 0 {
        0
    } else {
        -1
    }
}

/// Number of outcomes of the toss that decides a direction. A toss is a
/// number from 0 up to, and not including, this one.
pub const TOSS_OUTCOMES: i64 = 1_000;

/// The velocity of the given speed in the direction that the toss decides:
/// backward for the lower half of the outcomes, forward for the upper half.
pub open spec fn directed(toss: int, speed: int) -> int {
    if 2 * toss < TOSS_OUTCOMES {
        -speed
    } else {
        speed
    }
}

/// Gives a speed the direction that a toss decides. The toss is measured
/// from the middle of its range, in half steps so that no outcome lies
/// on the middle, and the sign of that distance is the direction.
pub fn directed_velocity(toss: i64, speed: i64) -> (velocity: i64)
    requires
        0 <= toss < TOSS_OUTCOMES,
        speed > i64::MIN,
    ensures
        velocity == directed(toss as int, speed as int),
{
    let sign = signum(2 * toss + 1 - TOSS_OUTCOMES);
    speed * sign
}

/// Draws a velocity along one axis: a direction first, each with the same
/// chance, then a speed between the slowest and the fastest.
pub fn random_velocity(rng: &mut ThreadRng) -> (velocity: i64)
    ensures
        SLOWEST_VELOCITY <= abs(velocity as int) <= FASTEST_VELOCITY,
{
    let toss = draw_between(rng, 0, TOSS_OUTCOMES - 1);
    let speed = draw_between(rng, SLOWEST_VELOCITY, FASTEST_VELOCITY);
    directed_velocity(toss, speed)
}

} // verus!
