use bouncing_balls::units::{BALL_RADIUS, FASTEST_VELOCITY, SLOWEST_VELOCITY};
use bouncing_balls::{Ball, BouncingBalls, Canvas, Circle, ConfigError};

#[test]
fn a_new_animation_holds_no_ball() {
    let animation = BouncingBalls::new(5, Canvas::new(400, 300));
    assert_eq!(animation.amount(), 0);
    assert!(animation.ball(0).is_none());
    assert_eq!(animation.canvas(), Canvas::new(400, 300));
}

#[test]
fn the_requested_number_is_kept_until_it_is_set() {
    let mut animation = BouncingBalls::new(5, Canvas::new(400, 300));
    assert_eq!(animation.requested(), 5);
    animation.add_ball(Ball::new(100_000, 100_000, 1_000, 1_000));
    animation.next_tick();
    animation.set_canvas(Canvas::new(10, 10));
    assert_eq!(animation.requested(), 5);
    assert_eq!(animation.init_balls(), Err(ConfigError::CanvasTooNarrow));
    assert_eq!(animation.requested(), 5);
    assert_eq!(animation.set_amount(8), Err(ConfigError::CanvasTooNarrow));
    assert_eq!(animation.requested(), 8);
    animation.set_canvas(Canvas::new(400, 300));
    assert_eq!(animation.set_amount(2), Ok(()));
    assert_eq!(animation.requested(), 2);
    assert_eq!(animation.amount(), 2);
}

#[test]
fn initialisation_makes_the_requested_number_of_balls() {
    let mut animation = BouncingBalls::new(5, Canvas::new(400, 300));
    assert_eq!(animation.init_balls(), Ok(()));
    assert_eq!(animation.amount(), 5);
    assert!(animation.ball(4).is_some());
    assert!(animation.ball(5).is_none());
}

#[test]
fn set_amount_zero_leaves_no_ball() {
    let mut animation = BouncingBalls::new(5, Canvas::new(400, 300));
    assert_eq!(animation.init_balls(), Ok(()));
    assert_eq!(animation.set_amount(0), Ok(()));
    assert_eq!(animation.amount(), 0);
    assert!(animation.ball(0).is_none());
    assert_eq!(animation.draw(), Vec::<Circle>::new());
}

#[test]
fn set_amount_zero_leaves_no_ball_in_a_refused_canvas() {
    let mut animation = BouncingBalls::new(0, Canvas::new(10, 10));
    animation.add_ball(Ball::new(5_000, 5_000, 1_000, 1_000));
    assert_eq!(animation.set_amount(0), Err(ConfigError::CanvasTooNarrow));
    assert_eq!(animation.amount(), 0);
}

#[test]
fn new_balls_lie_wholly_inside_the_canvas() {
    let mut animation = BouncingBalls::new(300, Canvas::new(400, 300));
    assert_eq!(animation.init_balls(), Ok(()));
    assert_eq!(animation.amount(), 300);
    let mut index: usize = 0;
    while index < 300 {
        let ball = animation.ball(index).unwrap();
        assert_eq!(ball.radius(), BALL_RADIUS);
        assert!(ball.radius() <= ball.x() && ball.x() <= 400_000 - ball.radius());
        assert!(ball.radius() <= ball.y() && ball.y() <= 300_000 - ball.radius());
        index += 1;
    }
}

#[test]
fn new_balls_move_at_a_speed_between_the_slowest_and_the_fastest() {
    let mut animation = BouncingBalls::new(300, Canvas::new(400, 300));
    assert_eq!(animation.init_balls(), Ok(()));
    let mut index: usize = 0;
    while index < 300 {
        let ball = animation.ball(index).unwrap();
        assert!(SLOWEST_VELOCITY <= ball.dx().abs() && ball.dx().abs() <= FASTEST_VELOCITY);
        assert!(SLOWEST_VELOCITY <= ball.dy().abs() && ball.dy().abs() <= FASTEST_VELOCITY);
        index += 1;
    }
}

#[test]
fn new_balls_are_spread_over_the_canvas() {
    let mut animation = BouncingBalls::new(300, Canvas::new(400, 300));
    assert_eq!(animation.init_balls(), Ok(()));
    let first = animation.ball(0).unwrap();
    let mut other_x: bool = false;
    let mut other_y: bool = false;
    let mut index: usize = 1;
    while index < 300 {
        let ball = animation.ball(index).unwrap();
        other_x = other_x || ball.x() != first.x();
        other_y = other_y || ball.y() != first.y();
        index += 1;
    }
    assert!(other_x);
    assert!(other_y);
}

#[test]
fn a_canvas_of_one_ball_puts_every_ball_in_its_middle() {
    let mut animation = BouncingBalls::new(20, Canvas::new(50, 50));
    assert_eq!(animation.init_balls(), Ok(()));
    assert_eq!(animation.amount(), 20);
    let mut index: usize = 0;
    while index < 20 {
        let ball = animation.ball(index).unwrap();
        assert_eq!(ball.x(), 25_000);
        assert_eq!(ball.y(), 25_000);
        index += 1;
    }
}

#[test]
fn a_narrow_canvas_is_refused_and_no_ball_is_left() {
    let mut animation = BouncingBalls::new(3, Canvas::new(400, 300));
    assert_eq!(animation.init_balls(), Ok(()));
    animation.set_canvas(Canvas::new(49, 300));
    assert_eq!(animation.init_balls(), Err(ConfigError::CanvasTooNarrow));
    assert_eq!(animation.amount(), 0);
}

#[test]
fn a_low_canvas_is_refused_and_no_ball_is_left() {
    let mut animation = BouncingBalls::new(3, Canvas::new(400, 49));
    assert_eq!(animation.init_balls(), Err(ConfigError::CanvasTooShort));
    assert_eq!(animation.amount(), 0);
    assert_eq!(animation.set_amount(4), Err(ConfigError::CanvasTooShort));
    assert_eq!(animation.amount(), 0);
}

#[test]
fn a_refused_canvas_is_refused_whatever_the_number_of_balls() {
    let mut animation = BouncingBalls::new(0, Canvas::new(0, 0));
    assert_eq!(animation.init_balls(), Err(ConfigError::CanvasTooNarrow));
    assert_eq!(animation.amount(), 0);
}

#[test]
fn an_amount_can_be_set_after_a_refusal() {
    let mut animation = BouncingBalls::new(3, Canvas::new(10, 10));
    assert_eq!(animation.set_amount(4), Err(ConfigError::CanvasTooNarrow));
    animation.set_canvas(Canvas::new(400, 300));
    assert_eq!(animation.init_balls(), Ok(()));
    assert_eq!(animation.amount(), 4);
}

#[test]
fn one_tick_turns_a_ball_at_the_edge_and_moves_it() {
    let mut animation = BouncingBalls::new(0, Canvas::new(400, 300));
    animation.add_ball(Ball::new(25_000, 150_000, -2_000, 0));
    animation.next_tick();
    assert_eq!(animation.amount(), 1);
    let ball = animation.ball(0).unwrap();
    assert_eq!(ball.dx(), 2_000);
    assert_eq!(ball.dy(), 0);
    assert_eq!(ball.x(), 27_000);
    assert_eq!(ball.y(), 150_000);
    assert_eq!(ball.radius(), 25_000);
}

#[test]
fn a_tick_moves_every_ball_by_itself() {
    let mut animation = BouncingBalls::new(0, Canvas::new(400, 300));
    animation.add_ball(Ball::new(25_000, 150_000, -2_000, 0));
    animation.add_ball(Ball::new(200_000, 100_000, 1_000, -1_000));
    animation.add_ball(Ball::new(375_000, 275_000, 4_000, 5_000));
    animation.add_ball(Ball::new(200_000, 100_000, 1_000, -1_000));
    animation.next_tick();
    assert_eq!(animation.amount(), 4);
    let first = animation.ball(0).unwrap();
    assert_eq!((first.x(), first.y(), first.dx(), first.dy()), (27_000, 150_000, 2_000, 0));
    let second = animation.ball(1).unwrap();
    assert_eq!((second.x(), second.y(), second.dx(), second.dy()), (201_000, 99_000, 1_000, -1_000));
    let third = animation.ball(2).unwrap();
    assert_eq!((third.x(), third.y(), third.dx(), third.dy()), (371_000, 270_000, -4_000, -5_000));
    let fourth = animation.ball(3).unwrap();
    assert_eq!((fourth.x(), fourth.y(), fourth.dx(), fourth.dy()), (201_000, 99_000, 1_000, -1_000));
}

#[test]
fn a_tick_without_balls_changes_nothing() {
    let mut animation = BouncingBalls::new(3, Canvas::new(400, 300));
    animation.next_tick();
    assert_eq!(animation.amount(), 0);
    assert_eq!(animation.canvas(), Canvas::new(400, 300));
}

#[test]
fn a_new_canvas_moves_the_edges_at_once() {
    let mut animation = BouncingBalls::new(0, Canvas::new(400, 300));
    animation.add_ball(Ball::new(100_000, 100_000, 2_000, 3_000));
    animation.next_tick();
    let ball = animation.ball(0).unwrap();
    assert_eq!((ball.x(), ball.y(), ball.dx(), ball.dy()), (102_000, 103_000, 2_000, 3_000));

    animation.set_canvas(Canvas::new(127, 300));
    assert_eq!(animation.canvas(), Canvas::new(127, 300));
    assert_eq!(animation.amount(), 1);
    let kept = animation.ball(0).unwrap();
    assert_eq!((kept.x(), kept.y(), kept.dx(), kept.dy()), (102_000, 103_000, 2_000, 3_000));

    animation.next_tick();
    let turned = animation.ball(0).unwrap();
    assert_eq!((turned.x(), turned.y(), turned.dx(), turned.dy()), (100_000, 106_000, -2_000, 3_000));
}

#[test]
fn a_ball_left_outside_a_smaller_canvas_comes_back_in() {
    let mut animation = BouncingBalls::new(0, Canvas::new(400, 300));
    animation.add_ball(Ball::new(370_000, 100_000, 5_000, 0));
    animation.set_canvas(Canvas::new(200, 300));
    animation.next_tick();
    let ball = animation.ball(0).unwrap();
    assert_eq!((ball.x(), ball.dx()), (365_000, -5_000));
    animation.next_tick();
    let ball = animation.ball(0).unwrap();
    assert_eq!((ball.x(), ball.dx()), (360_000, -5_000));
}

#[test]
fn initialisation_discards_the_balls_there_were() {
    let mut animation = BouncingBalls::new(2, Canvas::new(50, 50));
    animation.add_ball(Ball::new(7_000, 8_000, 9_000, 10_000));
    animation.add_ball(Ball::new(7_000, 8_000, 9_000, 10_000));
    animation.add_ball(Ball::new(7_000, 8_000, 9_000, 10_000));
    assert_eq!(animation.amount(), 3);
    assert_eq!(animation.init_balls(), Ok(()));
    assert_eq!(animation.amount(), 2);
    let ball = animation.ball(0).unwrap();
    assert_eq!((ball.x(), ball.y()), (25_000, 25_000));
    assert!(ball.dx().abs() <= FASTEST_VELOCITY);
}

#[test]
fn set_amount_starts_afresh() {
    let mut animation = BouncingBalls::new(2, Canvas::new(50, 50));
    assert_eq!(animation.init_balls(), Ok(()));
    let mut tick: u32 = 0;
    while tick < 7 {
        animation.next_tick();
        tick += 1;
    }
    assert_eq!(animation.set_amount(6), Ok(()));
    assert_eq!(animation.amount(), 6);
    let mut index: usize = 0;
    while index < 6 {
        let ball = animation.ball(index).unwrap();
        assert_eq!((ball.x(), ball.y()), (25_000, 25_000));
        index += 1;
    }
    assert_eq!(animation.init_balls(), Ok(()));
    assert_eq!(animation.amount(), 6);
}

#[test]
fn added_balls_keep_their_order() {
    let mut animation = BouncingBalls::new(0, Canvas::new(400, 300));
    animation.add_ball(Ball::new(100_000, 110_000, 1_000, 2_000));
    animation.add_ball(Ball::new(200_000, 210_000, 3_000, 4_000));
    assert_eq!(animation.amount(), 2);
    let first = animation.ball(0).unwrap();
    assert_eq!((first.x(), first.y(), first.dx(), first.dy()), (100_000, 110_000, 1_000, 2_000));
    let second = animation.ball(1).unwrap();
    assert_eq!((second.x(), second.y(), second.dx(), second.dy()), (200_000, 210_000, 3_000, 4_000));
    assert!(animation.ball(2).is_none());
}

#[test]
fn a_frame_shows_the_balls_after_the_tick_in_their_order() {
    let mut animation = BouncingBalls::new(0, Canvas::new(400, 300));
    animation.add_ball(Ball::new(25_000, 150_000, -2_000, 0));
    animation.add_ball(Ball::new(200_000, 100_000, 1_000, -1_000));
    let frame = animation.draw();
    assert_eq!(
        frame,
        vec![
            Circle { x: 27_000, y: 150_000, radius: 25_000 },
            Circle { x: 201_000, y: 99_000, radius: 25_000 },
        ]
    );
    let ball = animation.ball(0).unwrap();
    assert_eq!((ball.x(), ball.y(), ball.dx(), ball.dy()), (27_000, 150_000, 2_000, 0));
    let next = animation.draw();
    assert_eq!(next[0], Circle { x: 29_000, y: 150_000, radius: 25_000 });
    assert_eq!(next[1], Circle { x: 202_000, y: 98_000, radius: 25_000 });
}
