//! One ball: where it is, how it moves, and the step that moves it.

use crate::canvas::Canvas;
use crate::reflect::{get_ball_velocity, reflected};
use crate::units::{BALL_RADIUS, FASTEST_VELOCITY, MAX_COORDINATE, MAX_SPEED, SLOWEST_VELOCITY};
use vstd::math::abs;
use vstd::prelude::*;

verus! {

/// A ball as a mathematical value: its radius, the position of its centre
/// and its displacement per tick, all in grid units.
pub struct BallState {
    pub radius: int,
    pub x: int,
    pub y: int,
    pub dx: int,
    pub dy: int,
}

impl BallState {
    /// The ball has the one radius there is, and its position and velocity
    /// are such that a step cannot leave the 64-bit range.
    pub open spec fn within_limits(self) -> bool {
        &&& self.radius == BALL_RADIUS
        &&& -MAX_COORDINATE <= self.x <= MAX_COORDINATE
        &&& -MAX_COORDINATE <= self.y <= MAX_COORDINATE
        &&& -MAX_SPEED <= self.dx <= MAX_SPEED
        &&& -MAX_SPEED <= self.dy <= MAX_SPEED
    }

    /// The ball after one tick in a canvas of the given extents. On each
    /// axis the velocity is first turned round if the ball is leaving the
    /// canvas at its present position; then the ball moves by the new
    /// velocity.
    pub open spec fn advanced(self, width: int, height: int) -> BallState {
        let dx = reflected(self.x, self.dx, self.radius, width);
        let dy = reflected(self.y, self.dy, self.radius, height);
        BallState { radius: self.radius, x: self.x + dx, y: self.y + dy, dx, dy }
    }

    /// The ball after the given number of ticks in an unchanging canvas.
    pub open spec fn after(self, ticks: nat, width: int, height: int) -> BallState
        decreases ticks,
    {
        if ticks == 0 {
            self
        } else {
            self.after((ticks - 1) as nat, width, height).advanced(width, height)
        }
    }

    /// The ball lies wholly inside a canvas of the given extents: on each
    /// axis its centre is at least a radius away from both edges.
    pub open spec fn inside(self, width: int, height: int) -> bool {
        &&& self.radius <= self.x <= width - self.radius
        &&& self.radius <= self.y <= height - self.radius
    }

    /// The ball is inside the canvas or sticks out of it by no more than it
    /// moves in one tick.
    pub open spec fn within_reach(self, width: int, height: int) -> bool {
        &&& self.radius - abs(self.dx) <= self.x <= width - self.radius + abs(self.dx)
        &&& self.radius - abs(self.dy) <= self.y <= height - self.radius + abs(self.dy)
    }

    /// The ball is one that initialisation may produce for the canvas: it
    /// has the standard radius, lies wholly inside, and its speed on each
    /// axis is between the slowest and the fastest.
    pub open spec fn newly_placed(self, canvas: Canvas) -> bool {
        &&& self.radius == BALL_RADIUS
        &&& self.inside(canvas.width_units(), canvas.height_units())
        &&& SLOWEST_VELOCITY <= abs(self.dx) <= FASTEST_VELOCITY
        &&& SLOWEST_VELOCITY <= abs(self.dy) <= FASTEST_VELOCITY
    }
}

/// A circle to paint: its centre and radius in grid units.
#[derive(Clone, Copy, Debug, PartialEq, Eq)]
pub struct Circle {
    pub x: i64,
    pub y: i64,
    pub radius: i64,
}

impl Circle {
    /// The circle is the outline of the ball: same centre, same radius.
    pub open spec fn shows(self, ball: BallState) -> bool {
        &&& self.x == ball.x
        &&& self.y == ball.y
        &&& self.radius == ball.radius
    }
}

/// A ball of the animation.
#[derive(Clone, Copy, Debug)]
pub struct Ball {
    radius: i64,
    x: i64,
    y: i64,
    dx: i64,
    dy: i64,
}

impl View for Ball {
    type V = BallState;

    closed spec fn view(&self) -> BallState {
        BallState {
            radius: self.radius as int,
            x: self.x as int,
            y: self.y as int,
            dx: self.dx as int,
            dy: self.dy as int,
        }
    }
}

impl Ball {
    #[verifier::type_invariant]
    spec fn limited(self) -> bool {
        self@.within_limits()
    }

    /// A ball of the standard radius at `(x, y)` that moves by `(dx, dy)` a
    /// tick.
    pub fn new(x: i64, y: i64, dx: i64, dy: i64) -> (ball: Ball)
        requires
            -MAX_COORDINATE <= x <= MAX_COORDINATE,
            -MAX_COORDINATE <= y <= MAX_COORDINATE,
            -MAX_SPEED <= dx <= MAX_SPEED,
            -MAX_SPEED <= dy <= MAX_SPEED,
        ensures
            ball@ == (BallState {
                radius: BALL_RADIUS as int,
                x: x as int,
                y: y as int,
                dx: dx as int,
                dy: dy as int,
            }),
    {
        Ball { radius: BALL_RADIUS, x, y, dx, dy }
    }

    /// Moves the ball by one tick inside the canvas.
    pub fn advance(&mut self, canvas: &Canvas)
        ensures
            final(self)@ == old(self)@.advanced(canvas.width_units(), canvas.height_units()),
            final(self)@.within_limits(),
    {
        proof {
            use_type_invariant(&*self);
        }
        let new_dx = get_ball_velocity(self.x, self.dx, self.radius, canvas.width_in_units());
        let new_dy = get_ball_velocity(self.y, self.dy, self.radius, canvas.height_in_units());

        self.dx = new_dx;
        self.dy = new_dy;

        self.x = self.x + new_dx;
        self.y = self.y + new_dy;
    }

    /// The circle to paint for the ball.
    pub fn outline(&self) -> (circle: Circle)
        ensures
            circle.shows(self@),
    {
        Circle { x: self.x, y: self.y, radius: self.radius }
    }

    /// The radius.
    pub fn radius(&self) -> (radius: i64)
        ensures
            radius == self@.radius,
    {
        self.radius
    }

    /// The horizontal position of the centre.
    pub fn x(&self) -> (x: i64)
        ensures
            x == self@.x,
    {
        self.x
    }

    /// The vertical position of the centre.
    pub fn y(&self) -> (y: i64)
        ensures
            y == self@.y,
    {
        self.y
    }

    /// The horizontal displacement per tick.
    pub fn dx(&self) -> (dx: i64)
        ensures
            dx == self@.dx,
    {
        self.dx
    }

    /// The vertical displacement per tick.
    pub fn dy(&self) -> (dy: i64)
        ensures
            dy == self@.dy,
    {
        self.dy
    }
}

/// A step keeps a ball within the limits, in every canvas whose extents are
/// those of a pixel grid of 32-bit size.
pub proof fn lemma_advance_keeps_limits(ball: BallState, canvas: Canvas)
    requires
        ball.within_limits(),
    ensures
        ball.advanced(canvas.width_units(), canvas.height_units()).within_limits(),
{
}

/// In a canvas that is at least one ball wide and high, a ball that sticks
/// out by no more than one step still does so after a tick: it may overshoot
/// an edge by one step, and is turned back before it can go further.
pub proof fn lemma_advance_keeps_reach(ball: BallState, width: int, height: int)
    requires
        2 * ball.radius <= width,
        2 * ball.radius <= height,
        ball.within_reach(width, height),
    ensures
        ball.advanced(width, height).within_reach(width, height),
        ball.advanced(width, height).radius == ball.radius,
        abs(ball.advanced(width, height).dx) == abs(ball.dx),
        abs(ball.advanced(width, height).dy) == abs(ball.dy),
{
}

/// A ball that starts wholly inside a canvas large enough for it is, after
/// any number of ticks, inside or out by no more than one step, and as fast
/// as at the start.
pub proof fn lemma_stays_within_reach(ball: BallState, ticks: nat, width: int, height: int)
    requires
        2 * ball.radius <= width,
        2 * ball.radius <= height,
        ball.inside(width, height),
    ensures
        ball.after(ticks, width, height).within_reach(width, height),
        ball.after(ticks, width, height).radius == ball.radius,
        abs(ball.after(ticks, width, height).dx) == abs(ball.dx),
        abs(ball.after(ticks, width, height).dy) == abs(ball.dy),
    decreases ticks,
{
    if ticks > 0 {
        let before = ball.after((ticks - 1) as nat, width, height);
        lemma_stays_within_reach(ball, (ticks - 1) as nat, width, height);
        lemma_advance_keeps_reach(before, width, height);
    }
}

} // verus!
