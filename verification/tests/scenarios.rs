use pong::game::game_state::GameState;
use pong::game::paddle::Paddle;
use pong::game::physics::{collision_detected, move_ball, serve, BallDirection};
use pong::game::pong::{player_scored, Ball, Input, Player, Pong, Window};
use pong::game::units::UNIT;

const WINDOW: Window = Window { width: 800 * UNIT as u64, height: 600 * UNIT as u64 };
const FRAME: u32 = 16_667;

const NO_KEYS: Input =
    Input { serve: false, p1_up: false, p1_down: false, p2_up: false, p2_down: false };
const SERVE: Input =
    Input { serve: true, p1_up: false, p1_down: false, p2_up: false, p2_down: false };

fn step(game: &mut Pong, input: &Input, direction: BallDirection, dt: u32) -> Option<Player> {
    assert!(game.can_tick_with(input, direction, &WINDOW, dt));
    game.tick_with(input, direction, &WINDOW, dt)
}

#[test]
fn new_game_starts_at_rest_with_the_paddles_at_the_edges() {
    let game = Pong::new(WINDOW.width);
    assert_eq!(*game.state(), GameState::new());
    assert_eq!(*game.ball(), Ball { x: 0, y: 0 });
    assert_eq!(*game.paddle(Player::P1), Paddle { player: Player::P1, x: -385 * UNIT, y: 0 });
    assert_eq!(*game.paddle(Player::P2), Paddle { player: Player::P2, x: 385 * UNIT, y: 0 });
}

#[test]
fn ticks_without_a_serve_leave_ball_and_scores() {
    let mut game = Pong::new(WINDOW.width);
    let keys = Input { serve: false, p1_up: true, p1_down: false, p2_up: false, p2_down: true };
    for i in 0..200 {
        let direction = if i % 2 == 0 { BallDirection::Left } else { BallDirection::Right };
        assert_eq!(step(&mut game, &keys, direction, FRAME), None);
        assert_eq!(*game.ball(), Ball { x: 0, y: 0 });
        assert_eq!(*game.state(), GameState::new());
    }
    // the paddles did move meanwhile, up to the edges
    assert_eq!(game.paddle(Player::P1).y, 49 * 300 * 16_667 * 10);
    assert_eq!(game.paddle(Player::P2).y, -49 * 300 * 16_667 * 10);
    assert!(game.paddle(Player::P1).y <= 250 * UNIT);
}

#[test]
fn tick_serves_and_moves_in_the_same_tick() {
    let mut game = Pong::new(WINDOW.width);
    assert_eq!(step(&mut game, &SERVE, BallDirection::Left, 1_000_000), None);
    assert!(game.state().ball_moving());
    assert_eq!(*game.state().ball_direction(), BallDirection::Left);
    assert_eq!(*game.ball(), Ball { x: -150 * UNIT, y: 0 });
    // a second serve while the ball moves changes nothing
    assert_eq!(step(&mut game, &SERVE, BallDirection::Right, 1_000_000), None);
    assert_eq!(*game.state().ball_direction(), BallDirection::Left);
    assert_eq!(*game.ball(), Ball { x: -300 * UNIT, y: 0 });
}

#[test]
fn tick_tests_collisions_before_it_moves_the_ball() {
    // Served to the left, the ball reaches the face of player one's paddle
    // (at -380 less the radius) only by moving: the bounce comes one tick
    // after the ball got there.
    let mut game = Pong::new(WINDOW.width);
    step(&mut game, &SERVE, BallDirection::Left, 2_000_000);
    assert_eq!(game.ball().x, -300 * UNIT);
    step(&mut game, &NO_KEYS, BallDirection::Left, 500_000);
    assert_eq!(game.ball().x, -375 * UNIT);
    assert_eq!(*game.state().ball_direction(), BallDirection::Left);
    assert_eq!(game.state().ball_speed_coefficient(), 10);

    step(&mut game, &NO_KEYS, BallDirection::Left, 100_000);
    assert_eq!(*game.state().ball_direction(), BallDirection::Right);
    assert_eq!(game.state().ball_angle(), -45);
    assert_eq!(game.state().ball_speed_coefficient(), 12);
    // and the same tick moves it with the new direction, angle and speed
    assert_eq!(*game.ball(), Ball { x: -375 * UNIT + 18 * UNIT, y: -54 * UNIT / 10 });
}

#[test]
fn serve_to_the_right_past_the_paddle_scores_for_player_one() {
    // Player two holds the paddle up and out of the ball's way.
    let mut game = Pong::new(WINDOW.width);
    let away = Input { serve: false, p1_up: false, p1_down: false, p2_up: true, p2_down: false };
    let serve_away = Input { serve: true, ..away };

    assert_eq!(step(&mut game, &serve_away, BallDirection::Right, FRAME), None);
    assert!(game.state().ball_moving());
    assert_eq!(*game.state().ball_direction(), BallDirection::Right);

    let mut ticks: u32 = 1;
    loop {
        // so far the ball has travelled 150 units a second, at coefficient 1.0
        assert_eq!(*game.ball(), Ball { x: 150 * 16_667 * 10 * ticks as i64, y: 0 });
        assert!(game.ball().x < 395 * UNIT);
        assert_eq!(game.state().p1_score(), 0);
        assert_eq!(game.state().ball_speed_coefficient(), 10);

        let scorer = step(&mut game, &away, BallDirection::Right, FRAME);
        ticks += 1;
        if scorer.is_some() {
            assert_eq!(scorer, Some(Player::P1));
            break;
        }
        assert!(ticks < 1000);
    }
    // 395 units at 150 units a second take 2.633.. seconds: 158 frames
    assert_eq!(ticks, 158);
    assert!(150 * 16_667 * 10 * 158 >= 395 * UNIT);
    assert!(150 * 16_667 * 10 * 157 < 395 * UNIT);

    assert_eq!(game.state().p1_score(), 1);
    assert_eq!(game.state().p2_score(), 0);
    assert_eq!(*game.ball(), Ball { x: 0, y: 0 });
    assert!(!game.state().ball_moving());
    assert_eq!(*game.state().ball_direction(), BallDirection::Right);
    assert_eq!(game.state().ball_angle(), 0);
    assert_eq!(game.state().ball_speed_coefficient(), 10);
    assert_eq!(game.paddle(Player::P2).y, 49 * 300 * 16_667 * 10);
}

#[test]
fn serve_to_the_right_with_no_paddles_scores_at_395() {
    // the same with the steps of the chain called one by one, and no paddle
    let mut state = GameState::new();
    let mut ball = Ball { x: 0, y: 0 };
    serve(&mut state, true, BallDirection::Right);
    let mut seconds = 0;
    loop {
        collision_detected(&mut state, &ball, &[], WINDOW.height);
        move_ball(&state, &mut ball, 100_000);
        seconds += 1;
        let before = ball;
        let scorer = player_scored(&mut state, &mut ball, WINDOW.width);
        if before.x >= 395 * UNIT {
            assert_eq!(scorer, Some(Player::P1));
            break;
        }
        assert_eq!(scorer, None);
        assert_eq!(ball, Ball { x: 15 * UNIT * seconds, y: 0 });
    }
    assert_eq!(seconds, 27);
    assert_eq!(state.p1_score(), 1);
    assert_eq!(state.p2_score(), 0);
    assert_eq!(ball, Ball { x: 0, y: 0 });
    assert!(!state.ball_moving());
}

#[test]
fn rally_speeds_the_ball_up_and_a_point_keeps_the_speed() {
    let mut game = Pong::new(WINDOW.width);
    step(&mut game, &SERVE, BallDirection::Right, 100_000);
    let mut bounces = 0;
    let mut scorer = None;
    let mut last_direction = BallDirection::Right;
    for _ in 0..10_000 {
        scorer = step(&mut game, &NO_KEYS, BallDirection::Left, 100_000);
        if scorer.is_some() {
            break;
        }
        if *game.state().ball_direction() != last_direction {
            bounces += 1;
            last_direction = *game.state().ball_direction();
            assert_eq!(game.state().ball_speed_coefficient(), 10 + 2 * bounces);
        }
        assert!(game.state().ball_moving());
    }
    // The first bounce sends the ball down with angle -45; the paddles stay
    // in the middle, so in the end the ball passes one of them.
    assert!(bounces >= 1);
    assert!(scorer.is_some());
    assert_eq!(game.state().p1_score() + game.state().p2_score(), 1);
    assert_eq!(*game.ball(), Ball { x: 0, y: 0 });
    assert!(!game.state().ball_moving());
    assert_eq!(game.state().ball_speed_coefficient(), 10 + 2 * bounces);
    assert!(game.state().ball_angle() == 45 || game.state().ball_angle() == -45);

    // the next serve picks a new direction, and the speed stays raised
    step(&mut game, &SERVE, BallDirection::Left, 0);
    assert!(game.state().ball_moving());
    assert_eq!(*game.state().ball_direction(), BallDirection::Left);
    assert_eq!(game.state().ball_speed_coefficient(), 10 + 2 * bounces);
}

#[test]
fn ball_at_rest_is_at_the_centre_after_every_tick() {
    let mut game = Pong::new(WINDOW.width);
    let mut served = 0;
    for i in 0..3000u32 {
        let input = Input {
            serve: i % 7 == 0,
            p1_up: i % 3 == 0,
            p1_down: i % 5 == 0,
            p2_up: i % 11 < 5,
            p2_down: i % 13 < 6,
        };
        let was_moving = game.state().ball_moving();
        assert!(game.can_tick(&input, &WINDOW, 50_000));
        game.tick(&input, &WINDOW, 50_000);
        if !was_moving && input.serve {
            served += 1;
        }
        if !game.state().ball_moving() {
            assert_eq!(*game.ball(), Ball { x: 0, y: 0 });
        }
        assert_eq!(game.paddle(Player::P1).player, Player::P1);
        assert_eq!(game.paddle(Player::P2).player, Player::P2);
        assert_eq!(game.paddle(Player::P1).x, -385 * UNIT);
        assert_eq!(game.paddle(Player::P2).x, 385 * UNIT);
        assert!(game.paddle(Player::P1).y.abs() <= 250 * UNIT);
        assert!(game.paddle(Player::P2).y.abs() <= 250 * UNIT);
    }
    assert!(served > 1);
    assert!(game.state().p1_score() + game.state().p2_score() >= 1);
}

#[test]
fn tick_draws_the_direction_of_a_serve() {
    let mut left = 0;
    let mut right = 0;
    for _ in 0..400 {
        let mut game = Pong::new(WINDOW.width);
        assert!(game.can_tick(&SERVE, &WINDOW, 1_000_000));
        assert_eq!(game.tick(&SERVE, &WINDOW, 1_000_000), None);
        assert!(game.state().ball_moving());
        match *game.state().ball_direction() {
            BallDirection::Left => {
                left += 1;
                assert_eq!(*game.ball(), Ball { x: -150 * UNIT, y: 0 });
            },
            BallDirection::Right => {
                right += 1;
                assert_eq!(*game.ball(), Ball { x: 150 * UNIT, y: 0 });
            },
        }
    }
    assert!(left > 100, "left served {} times of 400", left);
    assert!(right > 100, "right served {} times of 400", right);
}

#[test]
fn can_tick_with_refuses_a_tick_that_cannot_be_stored() {
    // In the widest window, with player two's paddle held out of the way and
    // the longest tick, the ball comes to a place from which one more tick
    // would carry it past the largest position.
    let wide = Window { width: u64::MAX, height: u64::MAX };
    let input = Input { serve: true, p1_up: false, p1_down: false, p2_up: true, p2_down: false };
    let stride: i64 = 1500 * u32::MAX as i64;
    let mut game = Pong::new(wide.width);
    let mut moves: i64 = 0;
    while game.can_tick_with(&input, BallDirection::Right, &wide, u32::MAX) {
        assert_eq!(game.tick_with(&input, BallDirection::Right, &wide, u32::MAX), None);
        moves += 1;
        assert_eq!(*game.ball(), Ball { x: moves * stride, y: 0 });
        assert!(moves < 2_000_000);
    }
    assert_eq!(moves, i64::MAX / stride);
    assert!(game.ball().x > i64::MAX - stride);
    assert!(!game.can_tick(&input, &wide, u32::MAX));

    // the refusal changed nothing, and a short tick can still be stored
    assert_eq!(*game.ball(), Ball { x: moves * stride, y: 0 });
    assert!(game.can_tick_with(&input, BallDirection::Right, &wide, 1_000));
    assert_eq!(game.tick_with(&input, BallDirection::Right, &wide, 1_000), None);
    assert_eq!(*game.ball(), Ball { x: moves * stride + 1_500_000, y: 0 });
}
