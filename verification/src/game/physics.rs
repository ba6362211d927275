//! The ball: serving it, moving it, and bouncing it off walls and paddles.

use vstd::prelude::*;
use rand::Rng;
use crate::game::game_state::GameState;
use crate::game::laws::{
    lemma_bounces_keep_angle_in_range, lemma_bounces_keep_scores_and_motion, lemma_coefficient_grows,
};
use crate::game::model::{
    ball_moved, ball_rise, ball_run, collided, collision_fits, paddle_hit, paddles_bounced, served,
    wall_bounced, wall_hit, GameStateView, PaddleView,
};
use crate::game::paddle::{paddle_views, Paddle};
use crate::game::pong::{Ball, Player};
use crate::game::units::{
    BALL_RADIUS, BALL_SPEED, BOUNCE_ANGLE, COEFFICIENT_STEP, PADDLE_HEIGHT, PADDLE_WIDTH,
};

verus! {

/// The side towards which the ball travels.
#[derive(Clone, Copy, Debug, PartialEq, Eq, Structural)]
pub enum BallDirection {
    Left,
    Right,
}

/// Draws 0 or 1 from the thread's random generator: `rand::rng()` and, on it,
/// `Rng::random_range(0..=1)`.
///
/// Believed, not proved: the number drawn lies in the range asked for. Nothing
/// is claimed of which of the two it is, and two draws may differ. The
/// generator seeds itself from the operating system when a thread first uses
/// it, and panics if it cannot: that is not ruled out here.
#[verifier::external_body]
fn draw_side() -> (draw: i32)
    ensures
        0 <= draw <= 1,
{
    rand::rng().random_range(0..=1)
}

/// The direction that a draw stands for: `Left` for 0, `Right` for 1.
pub fn direction_from_draw(draw: i32) -> (direction: BallDirection)
    requires
        draw == 0 || draw == 1,
    ensures
        direction == (if draw == 0 { BallDirection::Left } else { BallDirection::Right }),
{
    if draw == 0 {
        BallDirection::Left
    } else {
        BallDirection::Right
    }
}

/// A direction drawn at random: whatever is drawn, one of the two sides.
pub(crate) fn random_direction() -> (direction: BallDirection)
    ensures
        direction == BallDirection::Left || direction == BallDirection::Right,
{
    direction_from_draw(draw_side())
}

/// The serve with the direction given: where `serve_pressed` holds and the
/// ball is at rest, the ball starts towards `direction`; otherwise nothing
/// changes.
pub fn serve(state: &mut GameState, serve_pressed: bool, direction: BallDirection)
    ensures
        final(state)@ == served(old(state)@, serve_pressed, direction),
{
    if serve_pressed && !state.ball_moving() {
        state.set_ball_direction(direction);
        state.toggle_ball_moving();
    }
}

/// The serve: where `serve_pressed` holds and the ball is at rest, the ball
/// starts towards a side drawn at random; otherwise nothing changes.
pub fn start_ball(state: &mut GameState, serve_pressed: bool)
    ensures
        final(state)@ == served(old(state)@, serve_pressed, BallDirection::Left)
            || final(state)@ == served(old(state)@, serve_pressed, BallDirection::Right),
{
    if serve_pressed && !state.ball_moving() {
        let direction = random_direction();
        serve(state, serve_pressed, direction);
    }
}

/// A product of a time and a speed coefficient, and of those with a speed,
/// stays far inside 128 bits.
proof fn lemma_displacement_bounds(speed: int, dt: int, coefficient: int)
    by (nonlinear_arith)
    requires
        -0x8000_0000 <= speed <= 0x8000_0000,
        0 <= dt <= 0xffff_ffff,
        0 <= coefficient <= 0xffff_ffff,
    ensures
        -0x8000_0000 * 0xffff_ffff <= speed * dt <= 0x8000_0000 * 0xffff_ffff,
        -0x8000_0000 * 0xffff_ffff * 0xffff_ffff <= speed * dt * coefficient <= 0x8000_0000
            * 0xffff_ffff * 0xffff_ffff,
{
}

/// How far a moving ball travels in `dt` microseconds, sideways and upwards:
/// the ball speed and the angle, each times the time and the speed
/// coefficient.
fn ball_displacement(state: &GameState, dt: u32) -> (movement: (i128, i128))
    ensures
        movement.0 == ball_run(state@, dt as nat),
        movement.1 == ball_rise(state@, dt as nat),
        -0x8000_0000 * 0xffff_ffff * 0xffff_ffff <= movement.0 <= 0x8000_0000 * 0xffff_ffff
            * 0xffff_ffff,
        -0x8000_0000 * 0xffff_ffff * 0xffff_ffff <= movement.1 <= 0x8000_0000 * 0xffff_ffff
            * 0xffff_ffff,
{
    let elapsed: i128 = dt as i128;
    let coefficient: i128 = state.ball_speed_coefficient() as i128;
    let angle: i128 = state.ball_angle() as i128;
    proof {
        lemma_displacement_bounds(BALL_SPEED as int, elapsed as int, coefficient as int);
        lemma_displacement_bounds(angle as int, elapsed as int, coefficient as int);
    }
    let x_movement: i128 = BALL_SPEED as i128 * elapsed * coefficient;
    let y_movement: i128 = angle * elapsed * coefficient;
    (x_movement, y_movement)
}

/// Whether `move_ball` may be called: whether the ball's position after `dt`
/// microseconds can be stored.
pub fn can_move_ball(state: &GameState, ball: &Ball, dt: u32) -> (ok: bool)
    ensures
        ok == ball_moved(state@, ball@, dt as nat).representable(),
{
    if !state.ball_moving() {
        return true;
    }
    let (x_movement, y_movement) = ball_displacement(state, dt);
    let x: i128 = match state.ball_direction() {
        BallDirection::Left => ball.x as i128 - x_movement,
        BallDirection::Right => ball.x as i128 + x_movement,
    };
    let y: i128 = ball.y as i128 + y_movement;
    i64::MIN as i128 <= x && x <= i64::MAX as i128 && i64::MIN as i128 <= y && y <= i64::MAX as i128
}

/// Moves the ball by what it travels in `dt` microseconds. A ball at rest
/// stays where it is.
pub fn move_ball(state: &GameState, ball: &mut Ball, dt: u32)
    requires
        ball_moved(state@, old(ball)@, dt as nat).representable(),
    ensures
        final(ball)@ == ball_moved(state@, old(ball)@, dt as nat),
{
    // only run logic below if the ball is currently moving
    if !state.ball_moving() {
        return ;
    }
    let (x_movement, y_movement) = ball_displacement(state, dt);

    match state.ball_direction() {
        BallDirection::Left => {
            ball.x = (ball.x as i128 - x_movement) as i64;
            ball.y = (ball.y as i128 + y_movement) as i64;
        },
        BallDirection::Right => {
            ball.x = (ball.x as i128 + x_movement) as i64;
            ball.y = (ball.y as i128 + y_movement) as i64;
        },
    };
}

/// Whether the ball bounces off the top or the bottom of a window
/// `window_height` high.
pub fn hits_wall(state: &GameState, ball: &Ball, window_height: u64) -> (hit: bool)
    ensures
        hit == wall_hit(state@, ball@, window_height as nat),
{
    let top_collision = 2 * (ball.y as i128 + BALL_RADIUS as i128) >= window_height as i128
        && state.ball_angle() > 0;
    let bottom_collision = 2 * (ball.y as i128 - BALL_RADIUS as i128) <= -(window_height as i128)
        && state.ball_angle() < 0;
    top_collision || bottom_collision
}

/// Whether a ball that travels towards `travel` hits `paddle`, with the
/// ball's leading edge and the paddle's face taken on the side of `heading`.
pub fn hits_paddle(travel: BallDirection, heading: BallDirection, ball: &Ball, paddle: &Paddle) -> (hit: bool)
    ensures
        hit == paddle_hit(travel, heading, ball@, paddle@),
{
    let x_offset_coefficient: i128 = match heading {
        BallDirection::Left => -1,
        BallDirection::Right => 1,
    };
    let ball_x: i128 = ball.x as i128 + BALL_RADIUS as i128 * x_offset_coefficient;
    let paddle_x: i128 = paddle.x as i128 + (PADDLE_WIDTH / 2) as i128 * -x_offset_coefficient;

    let paddle_top: i128 = paddle.y as i128 + (PADDLE_HEIGHT / 2) as i128;
    let paddle_bottom: i128 = paddle.y as i128 - (PADDLE_HEIGHT / 2) as i128;

    let y_collision = ball.y as i128 <= paddle_top && ball.y as i128 >= paddle_bottom;
    let x_collision = match travel {
        BallDirection::Left => ball_x <= paddle_x && matches!(paddle.player, Player::P1),
        BallDirection::Right => ball_x >= paddle_x && matches!(paddle.player, Player::P2),
    };
    y_collision && x_collision
}

/// Whether `collision_detected` may be called: whether the inverted angle and
/// the raised speed coefficient can be stored, where the test inverts the one
/// and raises the other.
pub fn can_collide(state: &GameState, ball: &Ball, paddles: &[Paddle], window_height: u64) -> (ok: bool)
    ensures
        ok == collision_fits(state@, ball@, paddle_views(paddles@), window_height as nat),
{
    if !state.ball_moving() {
        return true;
    }
    let heading: BallDirection = *state.ball_direction();
    if hits_wall(state, ball, window_height) && state.ball_angle() == i32::MIN {
        return false;
    }
    let ghost after_wall: GameStateView = wall_bounced(state@, ball@, window_height as nat);
    let ghost views: Seq<PaddleView> = paddle_views(paddles@);
    proof {
        state.lemma_view_representable();
    }

    let mut travel: BallDirection = heading;
    let mut coefficient: u64 = state.ball_speed_coefficient() as u64;
    let mut i: usize = 0;
    while i < paddles.len()
        invariant
            i <= paddles.len(),
            views == paddle_views(paddles@),
            state@.ball_moving,
            heading == state@.ball_direction,
            after_wall == wall_bounced(state@, ball@, window_height as nat),
            after_wall.representable(),
            travel == paddles_bounced(after_wall, heading, ball@, views.take(i as int)).ball_direction,
            coefficient == paddles_bounced(
                after_wall,
                heading,
                ball@,
                views.take(i as int),
            ).ball_speed_coefficient,
            coefficient <= u32::MAX,
        decreases paddles.len() - i,
    {
        let paddle: Paddle = paddles[i];
        proof {
            assert(views.take(i + 1).drop_last() =~= views.take(i as int));
            assert(views.take(i + 1).last() == paddle@);
        }
        if hits_paddle(travel, heading, ball, &paddle) {
            travel = match travel {
                BallDirection::Left => BallDirection::Right,
                BallDirection::Right => BallDirection::Left,
            };
            coefficient += COEFFICIENT_STEP as u64;
            if coefficient > u32::MAX as u64 {
                proof {
                    lemma_coefficient_grows(after_wall, heading, ball@, views, i + 1);
                }
                return false;
            }
        }
        i += 1;
    }
    proof {
        assert(views.take(i as int) =~= views);
        lemma_bounces_keep_angle_in_range(after_wall, heading, ball@, views);
        lemma_bounces_keep_scores_and_motion(after_wall, heading, ball@, views);
    }
    true
}

/// The collision test of one tick: nothing for a ball at rest; otherwise a
/// wall bounce inverts the angle, and then each paddle in turn, where the
/// ball hits it, turns the ball round, sets the angle to `BOUNCE_ANGLE`
/// upwards or downwards and raises the speed coefficient.
pub fn collision_detected(state: &mut GameState, ball: &Ball, paddles: &[Paddle], window_height: u64)
    requires
        collision_fits(old(state)@, ball@, paddle_views(paddles@), window_height as nat),
    ensures
        final(state)@ == collided(old(state)@, ball@, paddle_views(paddles@), window_height as nat),
{
    // Logic only applies if the ball is moving
    if !state.ball_moving() {
        return ;
    }
    let heading: BallDirection = *state.ball_direction();

    // Check for top/bottom collision
    if hits_wall(state, ball, window_height) {
        let inverted_angle: i32 = -state.ball_angle();
        state.set_ball_angle(inverted_angle);
    }
    let ghost after_wall: GameStateView = state@;
    let ghost views: Seq<PaddleView> = paddle_views(paddles@);

    // Check for paddle collision
    let mut i: usize = 0;
    while i < paddles.len()
        invariant
            i <= paddles.len(),
            views == paddle_views(paddles@),
            state@ == paddles_bounced(after_wall, heading, ball@, views.take(i as int)),
            paddles_bounced(after_wall, heading, ball@, views).ball_speed_coefficient <= u32::MAX,
        decreases paddles.len() - i,
    {
        let paddle: Paddle = paddles[i];
        proof {
            assert(views.take(i + 1).drop_last() =~= views.take(i as int));
            assert(views.take(i + 1).last() == paddle@);
            lemma_coefficient_grows(after_wall, heading, ball@, views, i + 1);
        }
        if hits_paddle(*state.ball_direction(), heading, ball, &paddle) {
            state.toggle_ball_direction();
            if ball.y > paddle.y {
                state.set_ball_angle(BOUNCE_ANGLE);
            } else {
                state.set_ball_angle(-BOUNCE_ANGLE);
            }
            state.bump_speed_coefficient();
        }
        i += 1;
    }
    proof {
        assert(views.take(i as int) =~= views);
    }
}

} // verus!
