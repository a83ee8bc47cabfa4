//! The animation: a list of balls in a canvas, filled at random and moved
//! tick by tick.

use crate::ball::{lemma_stays_within_reach, Ball, BallState, Circle};
use crate::canvas::{Canvas, ConfigError};
use crate::random::{draw_between, random_velocity};
use crate::units::BALL_RADIUS;
use rand::rngs::ThreadRng;
use vstd::math::abs;
use vstd::prelude::*;

verus! {

/// The animation as a mathematical value.
#[verifier::ext_equal]
pub struct Scene {
    /// How many balls the next initialisation makes.
    pub requested: nat,
    /// The balls now alive, in the order in which they are painted.
    pub balls: Seq<BallState>,
    /// The canvas as it was last reported.
    pub canvas: Canvas,
}

impl Scene {
    /// The scene one tick later: every ball has taken one step in the
    /// canvas, each by itself, and nothing else has changed.
    pub open spec fn ticked(self) -> Scene {
        Scene {
            requested: self.requested,
            balls: self.balls.map_values(
                |ball: BallState|
                    ball.advanced(self.canvas.width_units(), self.canvas.height_units()),
            ),
            canvas: self.canvas,
        }
    }

    /// The scene after the given number of ticks in an unchanging canvas.
    pub open spec fn after(self, ticks: nat) -> Scene
        decreases ticks,
    {
        if ticks == 0 {
            self
        } else {
            self.after((ticks - 1) as nat).ticked()
        }
    }

    /// The scene is one that initialisation may leave: as many balls as
    /// were requested, each newly placed in the canvas.
    pub open spec fn newly_filled(self) -> bool {
        &&& self.balls.len() == self.requested
        &&& forall|i: int|
            0 <= i < self.balls.len() ==> (#[trigger] self.balls[i]).newly_placed(self.canvas)
    }
}

/// The animation: the balls, the number of them that was asked for, and the
/// canvas they move in.
pub struct BouncingBalls {
    amount: usize,
    balls: Vec<Ball>,
    canvas: Canvas,
}

impl View for BouncingBalls {
    type V = Scene;

    closed spec fn view(&self) -> Scene {
        Scene {
            requested: self.amount as nat,
            balls: self.balls@.map_values(|ball: Ball| ball@),
            canvas: self.canvas,
        }
    }
}

impl BouncingBalls {
    /// An animation for `amount` balls in the given canvas. It holds no ball
    /// until it is initialised.
    pub fn new(amount: usize, canvas: Canvas) -> (animation: BouncingBalls)
        ensures
            animation@.requested == amount,
            animation@.balls == Seq::<BallState>::empty(),
            animation@.canvas == canvas,
    {
        BouncingBalls { amount, balls: Vec::new(), canvas }
    }

    /// Replaces the canvas. The balls stay where they are; from the next
    /// tick on they turn round at the new edges.
    pub fn set_canvas(&mut self, canvas: Canvas)
        ensures
            final(self)@.requested == old(self)@.requested,
            final(self)@.balls == old(self)@.balls,
            final(self)@.canvas == canvas,
    {
        self.canvas = canvas;
    }

    /// Discards all balls and makes the requested number of new ones, each
    /// at a random place wholly inside the canvas and with a random velocity.
    ///
    /// A canvas too small for a ball is refused, and then no ball is left.
    pub fn init_balls(&mut self) -> (outcome: Result<(), ConfigError>)
        ensures
            final(self)@.requested == old(self)@.requested,
            final(self)@.canvas == old(self)@.canvas,
            outcome is Ok <==> old(self)@.canvas.holds_a_ball(),
            outcome is Ok ==> final(self)@.newly_filled(),
            outcome matches Err(error) ==> {
                &&& old(self)@.canvas.placement_error() == Some(error)
                &&& final(self)@.balls.len() == 0
            },
    {
        self.balls = Vec::new();
        match self.canvas.validate() {
            Err(error) => {
                return Err(error);
            },
            Ok(()) => {},
        }
        let ball_radius: i64 = BALL_RADIUS;
        let canvas_width: i64 = self.canvas.width_in_units();
        let canvas_height: i64 = self.canvas.height_in_units();

        let mut rng: ThreadRng = rand::thread_rng();
        let mut made: usize = 0;
        while made < self.amount
            invariant
                made <= self.amount,
                self.amount == old(self).amount,
                self.canvas == old(self).canvas,
                self.canvas.holds_a_ball(),
                ball_radius == BALL_RADIUS,
                canvas_width == self.canvas.width_units(),
                canvas_height == self.canvas.height_units(),
                self.balls@.len() == made,
                forall|i: int|
                    0 <= i < made ==> (#[trigger] self.balls@[i])@.newly_placed(self.canvas),
            decreases self.amount - made,
        {
            let x: i64 = draw_between(&mut rng, ball_radius, canvas_width - ball_radius);
            let y: i64 = draw_between(&mut rng, ball_radius, canvas_height - ball_radius);
            let dx: i64 = random_velocity(&mut rng);
            let dy: i64 = random_velocity(&mut rng);

            self.balls.push(Ball::new(x, y, dx, dy));
            made += 1;
        }
        Ok(())
    }

    /// Moves every ball by one tick, each by itself, in the canvas as it
    /// was last reported.
    pub fn next_tick(&mut self)
        ensures
            final(self)@ == old(self)@.ticked(),
    {
        let count = self.balls.len();
        let mut moved: usize = 0;
        while moved < count
            invariant
                moved <= count,
                count == self.balls@.len(),
                count == old(self).balls@.len(),
                self.amount == old(self).amount,
                self.canvas == old(self).canvas,
                forall|i: int|
                    0 <= i < moved ==> (#[trigger] self.balls@[i])@ == old(
                        self,
                    ).balls@[i]@.advanced(self.canvas.width_units(), self.canvas.height_units()),
                forall|i: int| moved <= i < count ==> self.balls@[i] == old(self).balls@[i],
            decreases count - moved,
        {
            let mut ball = self.balls[moved];
            ball.advance(&self.canvas);
            self.balls.set(moved, ball);
            moved += 1;
        }
    }

    /// The number of balls now alive.
    pub fn amount(&self) -> (count: usize)
        ensures
            count == self@.balls.len(),
    {
        self.balls.len()
    }

    /// Requests `amount` balls and initialises anew: the balls there were
    /// are discarded, none of them goes on.
    pub fn set_amount(&mut self, amount: usize) -> (outcome: Result<(), ConfigError>)
        ensures
            final(self)@.requested == amount,
            final(self)@.canvas == old(self)@.canvas,
            outcome is Ok <==> old(self)@.canvas.holds_a_ball(),
            outcome is Ok ==> final(self)@.newly_filled(),
            outcome matches Err(error) ==> {
                &&& old(self)@.canvas.placement_error() == Some(error)
                &&& final(self)@.balls.len() == 0
            },
            amount == 0 ==> final(self)@.balls.len() == 0,
    {
        self.amount = amount;

        self.init_balls()
    }

    /// Puts one more ball behind those that are there. The number of balls
    /// that an initialisation makes stays as it was.
    pub fn add_ball(&mut self, ball: Ball)
        ensures
            final(self)@.requested == old(self)@.requested,
            final(self)@.balls == old(self)@.balls.push(ball@),
            final(self)@.canvas == old(self)@.canvas,
    {
        self.balls.push(ball);
    }

    /// The ball at the given place in the order of painting, if there are
    /// that many.
    pub fn ball(&self, index: usize) -> (found: Option<Ball>)
        ensures
            found is Some <==> index < self@.balls.len(),
            found matches Some(ball) ==> ball@ == self@.balls[index as int],
    {
        if index < self.balls.len() {
            Some(self.balls[index])
        } else {
            None
        }
    }

    /// The number of balls that the next initialisation makes.
    pub fn requested(&self) -> (amount: usize)
        ensures
            amount == self@.requested,
    {
        self.amount
    }

    /// The canvas as it was last reported.
    pub fn canvas(&self) -> (canvas: Canvas)
        ensures
            canvas == self@.canvas,
    {
        self.canvas
    }

    /// Moves every ball by one tick and returns the circles to paint, one
    /// for each ball, in the order of the balls.
    pub fn draw(&mut self) -> (frame: Vec<Circle>)
        ensures
            final(self)@ == old(self)@.ticked(),
            frame@.len() == final(self)@.balls.len(),
            forall|i: int|
                0 <= i < frame@.len() ==> (#[trigger] frame@[i]).shows(final(self)@.balls[i]),
    {
        self.next_tick();

        let mut frame: Vec<Circle> = Vec::new();
        let mut drawn: usize = 0;
        while drawn < self.balls.len()
            invariant
                drawn <= self.balls@.len(),
                frame@.len() == drawn,
                forall|i: int| 0 <= i < drawn ==> (#[trigger] frame@[i]).shows(self.balls@[i]@),
            decreases self.balls@.len() - drawn,
        {
            let ball = self.balls[drawn];
            frame.push(ball.outline());
            drawn += 1;
        }
        frame
    }
}

/// A tick moves each ball by itself: there are as many balls after it as
/// before, and the ball at each place is the one that was there, one step
/// on. No ball has a part in the step of another.
pub proof fn lemma_tick_moves_each_ball_alone(scene: Scene, i: int)
    requires
        0 <= i < scene.balls.len(),
    ensures
        scene.ticked().balls.len() == scene.balls.len(),
        scene.ticked().balls[i] == scene.balls[i].advanced(
            scene.canvas.width_units(),
            scene.canvas.height_units(),
        ),
{
}

/// Over any number of ticks in an unchanging canvas the balls stay the same
/// in number and order, and each goes its own way.
pub proof fn lemma_after_moves_each_ball_alone(scene: Scene, ticks: nat, i: int)
    requires
        0 <= i < scene.balls.len(),
    ensures
        scene.after(ticks).requested == scene.requested,
        scene.after(ticks).canvas == scene.canvas,
        scene.after(ticks).balls.len() == scene.balls.len(),
        scene.after(ticks).balls[i] == scene.balls[i].after(
            ticks,
            scene.canvas.width_units(),
            scene.canvas.height_units(),
        ),
    decreases ticks,
{
    if ticks > 0 {
        lemma_after_moves_each_ball_alone(scene, (ticks - 1) as nat, i);
    }
}

/// After an initialisation, and for as long as the canvas stays as it is, no
/// ball gets further out of the canvas than it moves in one tick, and none
/// changes its speed.
pub proof fn lemma_new_balls_stay_within_reach(scene: Scene, ticks: nat, i: int)
    requires
        scene.newly_filled(),
        0 <= i < scene.balls.len(),
    ensures
        scene.after(ticks).balls.len() == scene.balls.len(),
        scene.after(ticks).balls[i].within_reach(
            scene.canvas.width_units(),
            scene.canvas.height_units(),
        ),
        abs(scene.after(ticks).balls[i].dx) == abs(scene.balls[i].dx),
        abs(scene.after(ticks).balls[i].dy) == abs(scene.balls[i].dy),
{
    lemma_after_moves_each_ball_alone(scene, ticks, i);
    lemma_stays_within_reach(
        scene.balls[i],
        ticks,
        scene.canvas.width_units(),
        scene.canvas.height_units(),
    );
}

/// After an initialisation every ball lies wholly inside the canvas: on each
/// axis its centre is at least a radius away from both edges.
pub proof fn lemma_new_balls_lie_inside(scene: Scene, i: int)
    requires
        scene.newly_filled(),
        0 <= i < scene.balls.len(),
    ensures
        scene.balls[i].radius <= scene.balls[i].x <= scene.canvas.width_units()
            - scene.balls[i].radius,
        scene.balls[i].radius <= scene.balls[i].y <= scene.canvas.height_units()
            - scene.balls[i].radius,
{
}

/// An initialisation that was asked for no ball leaves none.
pub proof fn lemma_none_requested_none_made(scene: Scene)
    requires
        scene.newly_filled(),
        scene.requested == 0,
    ensures
        scene.balls == Seq::<BallState>::empty(),
{
}

} // verus!
