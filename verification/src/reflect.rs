//! The rule that turns a ball round at the edges of the canvas.
//!
//! The rule works on one axis at a time. The canvas runs from 0 to `extent`
//! along the axis; a ball of the given `radius` touches the near edge when
//! its centre is at `radius` and the far edge when its centre is at
//! `extent - radius`.

use vstd::math::abs;
use vstd::prelude::*;

verus! {

/// The ball touches or has crossed the near edge and is moving further out.
pub open spec fn leaving_near_edge(position: int, velocity: int, radius: int) -> bool {
    position <= radius && velocity < 0
}

/// The ball touches or has crossed the far edge and is moving further out.
pub open spec fn leaving_far_edge(position: int, velocity: int, radius: int, extent: int) -> bool {
    position + radius >= extent && velocity > 0
}

/// The velocity with which a ball leaves its current position: turned round
/// if the ball is about to leave the canvas through either edge, unchanged
/// otherwise. The position is the one before the step is taken.
pub open spec fn reflected(position: int, velocity: int, radius: int, extent: int) -> int {
    if leaving_near_edge(position, velocity, radius) || leaving_far_edge(
        position,
        velocity,
        radius,
        extent,
    ) {
        -velocity
    } else {
        velocity
    }
}

/// Computes the velocity of a ball along one axis for the coming step.
///
/// The only velocity left out is the one whose opposite does not fit in 64
/// bits.
pub fn get_ball_velocity(
    position: i64,
    velocity: i64,
    ball_radius: i64,
    border_position: i64,
) -> (new_velocity: i64)
    requires
        velocity > i64::MIN,
    ensures
        new_velocity == reflected(
            position as int,
            velocity as int,
            ball_radius as int,
            border_position as int,
        ),
{
    let moving_outside_lower_boundary = position <= ball_radius && velocity < 0;
    let moving_outside_upper_boundary = position as i128 + ball_radius as i128
        >= border_position as i128 && velocity > 0;

    if moving_outside_lower_boundary || moving_outside_upper_boundary {
        -velocity
    } else {
        velocity
    }
}

/// Reflection never changes the speed: the new velocity has the magnitude of
/// the old one, whatever the position, radius and extent.
pub proof fn lemma_reflect_keeps_speed(position: int, velocity: int, radius: int, extent: int)
    ensures
        abs(reflected(position, velocity, radius, extent)) == abs(velocity),
{
}

/// A ball strictly inside the canvas, touching neither edge, keeps its
/// velocity, whichever way it moves.
pub proof fn lemma_interior_keeps_velocity(position: int, velocity: int, radius: int, extent: int)
    requires
        position > radius,
        position + radius < extent,
    ensures
        reflected(position, velocity, radius, extent) == velocity,
{
}

/// The new velocity depends on the four inputs and on nothing else: equal
/// inputs give equal velocities, however often the rule is applied.
pub proof fn lemma_reflect_is_a_function(
    position: int,
    velocity: int,
    radius: int,
    extent: int,
    same_position: int,
    same_velocity: int,
    same_radius: int,
    same_extent: int,
)
    requires
        same_position == position,
        same_velocity == velocity,
        same_radius == radius,
        same_extent == extent,
    ensures
        reflected(same_position, same_velocity, same_radius, same_extent) == reflected(
            position,
            velocity,
            radius,
            extent,
        ),
{
}

/// A ball at rest stays at rest, at an edge as anywhere else.
pub proof fn lemma_rest_is_kept(position: int, radius: int, extent: int)
    ensures
        reflected(position, 0, radius, extent) == 0,
{
}

/// At the near edge of a canvas wider than the ball, the ball leaves moving
/// inward at its old speed: an outward velocity is turned round and an inward
/// one is kept.
pub proof fn lemma_near_edge_sends_inward(position: int, velocity: int, radius: int, extent: int)
    requires
        position <= radius,
        2 * radius < extent,
    ensures
        reflected(position, velocity, radius, extent) == abs(velocity),
{
}

/// At the far edge of a canvas wider than the ball, the ball leaves moving
/// inward at its old speed.
pub proof fn lemma_far_edge_sends_inward(position: int, velocity: int, radius: int, extent: int)
    requires
        position + radius >= extent,
        2 * radius < extent,
    ensures
        reflected(position, velocity, radius, extent) == -abs(velocity),
{
}

/// In a canvas wider than the ball a velocity is turned round at most once at
/// one position: applying the rule to its own result changes nothing.
pub proof fn lemma_reflect_settles(position: int, velocity: int, radius: int, extent: int)
    requires
        2 * radius < extent,
    ensures
        reflected(position, reflected(position, velocity, radius, extent), radius, extent)
            == reflected(position, velocity, radius, extent),
{
}

} // verus!
