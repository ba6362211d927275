//! The game as mathematics.
//!
//! Each value of the game has a view over unbounded integers, and each rule is
//! a function from views to views. Nothing here can overflow, so a rule reads
//! as it is meant; the executable functions say in their contracts which of
//! these functions they compute, and ask of their callers only that the result
//! can be stored.

use vstd::prelude::*;
use crate::game::physics::BallDirection;
use crate::game::pong::{Input, Player, Window};
use crate::game::units::{
    BALL_RADIUS, BALL_SPEED, BOUNCE_ANGLE, COEFFICIENT_ONE, COEFFICIENT_STEP, PADDLE_HEIGHT,
    PADDLE_MARGIN, PADDLE_SPEED, PADDLE_WIDTH, SCORING_REACH,
};

verus! {

/// What a `GameState` holds.
pub struct GameStateView {
    pub p1_score: nat,
    pub p2_score: nat,
    pub ball_moving: bool,
    pub ball_direction: BallDirection,
    /// The ball's vertical speed in world units per second, upwards if positive.
    pub ball_angle: int,
    /// The speed coefficient, in tenths.
    pub ball_speed_coefficient: nat,
}

/// Where the centre of the ball is, in length steps.
pub struct BallView {
    pub x: int,
    pub y: int,
}

/// Whose paddle it is, and where its centre is, in length steps.
pub struct PaddleView {
    pub player: Player,
    pub x: int,
    pub y: int,
}

/// The whole game: the state, the ball, and the paddles in the order in which
/// the ball is tested against them.
pub struct PongView {
    pub state: GameStateView,
    pub ball: BallView,
    pub paddles: Seq<PaddleView>,
}

impl GameStateView {
    /// The state in which a game begins.
    pub open spec fn initial() -> GameStateView {
        GameStateView {
            p1_score: 0,
            p2_score: 0,
            ball_moving: false,
            ball_direction: BallDirection::Left,
            ball_angle: 0,
            ball_speed_coefficient: COEFFICIENT_ONE as nat,
        }
    }

    /// Whether a `GameState` can hold these values.
    pub open spec fn representable(self) -> bool {
        &&& self.p1_score <= u16::MAX
        &&& self.p2_score <= u16::MAX
        &&& i32::MIN <= self.ball_angle <= i32::MAX
        &&& self.ball_speed_coefficient <= u32::MAX
    }
}

impl BallView {
    /// The centre of the screen.
    pub open spec fn origin() -> BallView {
        BallView { x: 0, y: 0 }
    }

    /// Whether a `Ball` can hold this position.
    pub open spec fn representable(self) -> bool {
        &&& i64::MIN <= self.x <= i64::MAX
        &&& i64::MIN <= self.y <= i64::MAX
    }
}

/// The other direction.
pub open spec fn opposite(direction: BallDirection) -> BallDirection {
    match direction {
        BallDirection::Left => BallDirection::Right,
        BallDirection::Right => BallDirection::Left,
    }
}

// ---------------------------------------------------------------------------
// Serving
// ---------------------------------------------------------------------------

/// The serve: where the serve key went down and the ball is at rest, the ball
/// starts towards `direction`; otherwise nothing changes.
pub open spec fn served(s: GameStateView, pressed: bool, direction: BallDirection) -> GameStateView {
    if pressed && !s.ball_moving {
        GameStateView { ball_direction: direction, ball_moving: true, ..s }
    } else {
        s
    }
}

// ---------------------------------------------------------------------------
// Paddles
// ---------------------------------------------------------------------------

/// How far a paddle travels in `dt` microseconds, in length steps.
pub open spec fn paddle_step(dt: nat) -> int {
    PADDLE_SPEED * COEFFICIENT_ONE * dt
}

/// Whether a paddle that moved up by one step would still lie below the top
/// edge of a window `window_height` high: its centre at most half the window
/// less half the paddle above the middle.
pub open spec fn may_move_up(p: PaddleView, window_height: nat, dt: nat) -> bool {
    2 * (p.y + paddle_step(dt)) <= window_height - PADDLE_HEIGHT
}

/// Whether a paddle that moved down by one step would still lie above the
/// bottom edge.
pub open spec fn may_move_down(p: PaddleView, window_height: nat, dt: nat) -> bool {
    2 * (p.y - paddle_step(dt)) >= PADDLE_HEIGHT - window_height
}

/// Whether a paddle lies inside a window `window_height` high, from end to
/// end.
pub open spec fn paddle_inside(p: PaddleView, window_height: nat) -> bool {
    PADDLE_HEIGHT - window_height <= 2 * p.y <= window_height - PADDLE_HEIGHT
}

/// One paddle after one tick. Up is looked at first; a key whose move would
/// leave the window does nothing.
pub open spec fn paddle_moved(p: PaddleView, up: bool, down: bool, window_height: nat, dt: nat) -> PaddleView {
    if up && may_move_up(p, window_height, dt) {
        PaddleView { y: p.y + paddle_step(dt), ..p }
    } else if down && may_move_down(p, window_height, dt) {
        PaddleView { y: p.y - paddle_step(dt), ..p }
    } else {
        p
    }
}

/// Whether the key that moves `player`'s paddle up is held.
pub open spec fn holds_up(input: Input, player: Player) -> bool {
    match player {
        Player::P1 => input.p1_up,
        Player::P2 => input.p2_up,
    }
}

/// Whether the key that moves `player`'s paddle down is held.
pub open spec fn holds_down(input: Input, player: Player) -> bool {
    match player {
        Player::P1 => input.p1_down,
        Player::P2 => input.p2_down,
    }
}

/// Every paddle after one tick, each moved by its own player's keys.
pub open spec fn controls_handled(paddles: Seq<PaddleView>, input: Input, window_height: nat, dt: nat) -> Seq<PaddleView> {
    Seq::new(
        paddles.len(),
        |i: int| paddle_moved(
            paddles[i],
            holds_up(input, paddles[i].player),
            holds_down(input, paddles[i].player),
            window_height,
            dt,
        ),
    )
}

// ---------------------------------------------------------------------------
// Collisions
// ---------------------------------------------------------------------------

/// Whether the ball is within one radius of the top edge, or beyond it.
pub open spec fn touches_top(ball: BallView, window_height: nat) -> bool {
    2 * (ball.y + BALL_RADIUS) >= window_height
}

/// Whether the ball is within one radius of the bottom edge, or beyond it.
pub open spec fn touches_bottom(ball: BallView, window_height: nat) -> bool {
    2 * (ball.y - BALL_RADIUS) <= -window_height
}

/// Whether the ball bounces off a wall: it touches the top while it rises, or
/// the bottom while it falls.
pub open spec fn wall_hit(s: GameStateView, ball: BallView, window_height: nat) -> bool {
    ||| touches_top(ball, window_height) && s.ball_angle > 0
    ||| touches_bottom(ball, window_height) && s.ball_angle < 0
}

/// The state after the wall test: a bounce inverts the angle.
pub open spec fn wall_bounced(s: GameStateView, ball: BallView, window_height: nat) -> GameStateView {
    if wall_hit(s, ball, window_height) {
        GameStateView { ball_angle: -s.ball_angle, ..s }
    } else {
        s
    }
}

/// The side of the ball that is ahead when it travels towards `heading`.
pub open spec fn leading_edge(ball: BallView, heading: BallDirection) -> int {
    match heading {
        BallDirection::Left => ball.x - BALL_RADIUS,
        BallDirection::Right => ball.x + BALL_RADIUS,
    }
}

/// The side of paddle `p` that faces a ball which travels towards `heading`.
pub open spec fn paddle_face(p: PaddleView, heading: BallDirection) -> int {
    match heading {
        BallDirection::Left => p.x + PADDLE_WIDTH / 2,
        BallDirection::Right => p.x - PADDLE_WIDTH / 2,
    }
}

/// Whether the ball hits paddle `p`.
///
/// `heading` is the direction in which the ball travelled when the tick's
/// collision test began: the ball's leading edge and the paddle's face are
/// taken on that side for every paddle of the tick. `travel` is the direction
/// in which it travels now, after the paddles tested before `p`: player one
/// blocks only a ball that travels left, player two only one that travels
/// right. The ball's centre must lie within the paddle's height.
pub open spec fn paddle_hit(travel: BallDirection, heading: BallDirection, ball: BallView, p: PaddleView) -> bool {
    &&& p.y - PADDLE_HEIGHT / 2 <= ball.y <= p.y + PADDLE_HEIGHT / 2
    &&& match travel {
        BallDirection::Left => leading_edge(ball, heading) <= paddle_face(p, heading) && p.player is P1,
        BallDirection::Right => leading_edge(ball, heading) >= paddle_face(p, heading) && p.player is P2,
    }
}

/// The angle with which the ball leaves paddle `p`: up if its centre is above
/// the paddle's, down otherwise.
pub open spec fn bounce_angle(ball: BallView, p: PaddleView) -> int {
    if ball.y > p.y {
        BOUNCE_ANGLE as int
    } else {
        -BOUNCE_ANGLE
    }
}

/// The state after the test against paddle `p`: a hit turns the ball round,
/// sets its angle and raises the speed coefficient by one step.
pub open spec fn paddle_bounced(s: GameStateView, heading: BallDirection, ball: BallView, p: PaddleView) -> GameStateView {
    if paddle_hit(s.ball_direction, heading, ball, p) {
        GameStateView {
            ball_direction: opposite(s.ball_direction),
            ball_angle: bounce_angle(ball, p),
            ball_speed_coefficient: s.ball_speed_coefficient + COEFFICIENT_STEP as nat,
            ..s
        }
    } else {
        s
    }
}

/// The state after the test against each of `paddles` in turn, first to last.
pub open spec fn paddles_bounced(s: GameStateView, heading: BallDirection, ball: BallView, paddles: Seq<PaddleView>) -> GameStateView
    decreases paddles.len(),
{
    if paddles.len() == 0 {
        s
    } else {
        paddle_bounced(
            paddles_bounced(s, heading, ball, paddles.drop_last()),
            heading,
            ball,
            paddles.last(),
        )
    }
}

/// The state after one tick's collision test: nothing for a ball at rest;
/// otherwise the wall test, then the paddles.
pub open spec fn collided(s: GameStateView, ball: BallView, paddles: Seq<PaddleView>, window_height: nat) -> GameStateView {
    if s.ball_moving {
        paddles_bounced(wall_bounced(s, ball, window_height), s.ball_direction, ball, paddles)
    } else {
        s
    }
}

/// Whether every state that the collision test passes through can be stored.
pub open spec fn collision_fits(s: GameStateView, ball: BallView, paddles: Seq<PaddleView>, window_height: nat) -> bool {
    s.ball_moving ==> {
        &&& wall_bounced(s, ball, window_height).representable()
        &&& collided(s, ball, paddles, window_height).representable()
    }
}

// ---------------------------------------------------------------------------
// Movement
// ---------------------------------------------------------------------------

/// How far a moving ball travels sideways in `dt` microseconds, in length
/// steps: the ball speed times the time times the speed coefficient.
pub open spec fn ball_run(s: GameStateView, dt: nat) -> int {
    BALL_SPEED * dt * s.ball_speed_coefficient
}

/// How far a moving ball travels upwards in `dt` microseconds, in length
/// steps: the angle times the time times the speed coefficient.
pub open spec fn ball_rise(s: GameStateView, dt: nat) -> int {
    s.ball_angle * dt * s.ball_speed_coefficient
}

/// The ball after `dt` microseconds: where it was if it is at rest; otherwise
/// its run further towards the side to which it travels, and its rise
/// further up.
pub open spec fn ball_moved(s: GameStateView, ball: BallView, dt: nat) -> BallView {
    if s.ball_moving {
        BallView {
            x: match s.ball_direction {
                BallDirection::Left => ball.x - ball_run(s, dt),
                BallDirection::Right => ball.x + ball_run(s, dt),
            },
            y: ball.y + ball_rise(s, dt),
        }
    } else {
        ball
    }
}

// ---------------------------------------------------------------------------
// Scoring
// ---------------------------------------------------------------------------

/// Who scores, if anyone: player two when the ball travels left and its
/// leading edge is on the left screen edge or past it, player one on the
/// right in the same way; nobody while the ball is at rest.
pub open spec fn scorer(s: GameStateView, ball: BallView, window_width: nat) -> Option<Player> {
    if !s.ball_moving {
        None
    } else {
        match s.ball_direction {
            BallDirection::Left => if 2 * (ball.x - SCORING_REACH) <= -window_width {
                Some(Player::P2)
            } else {
                None
            },
            BallDirection::Right => if 2 * (ball.x + SCORING_REACH) >= window_width {
                Some(Player::P1)
            } else {
                None
            },
        }
    }
}

/// The state with one more point for `player`.
pub open spec fn awarded(s: GameStateView, player: Player) -> GameStateView {
    match player {
        Player::P1 => GameStateView { p1_score: s.p1_score + 1, ..s },
        Player::P2 => GameStateView { p2_score: s.p2_score + 1, ..s },
    }
}

/// The reset: the moving flag flips and the ball goes back to the centre.
/// Direction, angle, speed coefficient and scores stay.
pub open spec fn reset(s: GameStateView, ball: BallView) -> (GameStateView, BallView) {
    (GameStateView { ball_moving: !s.ball_moving, ..s }, BallView::origin())
}

/// State and ball after the scoring test: unchanged where nobody scores;
/// otherwise the point is given and the game is reset.
pub open spec fn scored(s: GameStateView, ball: BallView, window_width: nat) -> (GameStateView, BallView) {
    match scorer(s, ball, window_width) {
        None => (s, ball),
        Some(player) => reset(awarded(s, player), ball),
    }
}

// ---------------------------------------------------------------------------
// The game
// ---------------------------------------------------------------------------

impl PongView {
    /// What holds of a game at all times: it has player one's paddle and then
    /// player two's, and a ball at rest lies at the centre of the screen.
    pub open spec fn well_formed(self) -> bool {
        &&& self.paddles.len() == 2
        &&& self.paddles[0].player is P1
        &&& self.paddles[1].player is P2
        &&& !self.state.ball_moving ==> self.ball == BallView::origin()
    }
}

/// The paddles at the start: player one's at the left edge, player two's at
/// the right, each one margin inside it and halfway up.
pub open spec fn initial_paddles(window_width: nat) -> Seq<PaddleView> {
    seq![
        PaddleView { player: Player::P1, x: PADDLE_MARGIN + PADDLE_WIDTH / 2 - window_width / 2, y: 0 },
        PaddleView { player: Player::P2, x: window_width / 2 - PADDLE_MARGIN - PADDLE_WIDTH / 2, y: 0 },
    ]
}

/// The game at the start, in a window `window_width` wide.
pub open spec fn initial_game(window_width: nat) -> PongView {
    PongView {
        state: GameStateView::initial(),
        ball: BallView::origin(),
        paddles: initial_paddles(window_width),
    }
}

/// The paddles after one tick's paddle step.
pub open spec fn chain_paddles(g: PongView, input: Input, window: Window, dt: nat) -> Seq<PaddleView> {
    controls_handled(g.paddles, input, window.height as nat, dt)
}

/// The state after one tick's collision test, which sees the paddles where
/// the tick's paddle step left them.
pub open spec fn chain_collided(g: PongView, input: Input, window: Window, dt: nat) -> GameStateView {
    collided(g.state, g.ball, chain_paddles(g, input, window, dt), window.height as nat)
}

/// The ball after one tick's movement, which follows the collision test.
pub open spec fn chain_moved(g: PongView, input: Input, window: Window, dt: nat) -> BallView {
    ball_moved(chain_collided(g, input, window, dt), g.ball, dt)
}

/// The update chain of one tick, after the serve: paddles, collisions,
/// movement, scoring, in that order.
pub open spec fn chained(g: PongView, input: Input, window: Window, dt: nat) -> PongView {
    let end = scored(
        chain_collided(g, input, window, dt),
        chain_moved(g, input, window, dt),
        window.width as nat,
    );
    PongView { state: end.0, ball: end.1, paddles: chain_paddles(g, input, window, dt) }
}

/// Whether every value that the update chain passes through can be stored.
pub open spec fn chain_fits(g: PongView, input: Input, window: Window, dt: nat) -> bool {
    &&& collision_fits(g.state, g.ball, chain_paddles(g, input, window, dt), window.height as nat)
    &&& chain_moved(g, input, window, dt).representable()
    &&& chained(g, input, window, dt).state.representable()
}

/// The game with the serve looked at: `direction` is where the ball goes if
/// this tick serves it.
pub open spec fn serve_looked_at(g: PongView, input: Input, direction: BallDirection) -> PongView {
    PongView { state: served(g.state, input.serve, direction), ..g }
}

/// One tick: the serve, then the update chain.
pub open spec fn ticked(g: PongView, input: Input, direction: BallDirection, window: Window, dt: nat) -> PongView {
    chained(serve_looked_at(g, input, direction), input, window, dt)
}

/// Whether every value that one tick passes through can be stored.
pub open spec fn tick_fits(g: PongView, input: Input, direction: BallDirection, window: Window, dt: nat) -> bool {
    chain_fits(serve_looked_at(g, input, direction), input, window, dt)
}

/// What one tick is given: the input, the direction that a serve in it would
/// take, the window, and the time that has passed, in microseconds.
pub struct Step {
    pub input: Input,
    pub direction: BallDirection,
    pub window: Window,
    pub dt: nat,
}

/// The game after the ticks `steps`, first to last.
pub open spec fn ran(g: PongView, steps: Seq<Step>) -> PongView
    decreases steps.len(),
{
    if steps.len() == 0 {
        g
    } else {
        let step = steps.last();
        ticked(ran(g, steps.drop_last()), step.input, step.direction, step.window, step.dt)
    }
}

/// Who scores in one tick, if anyone.
pub open spec fn tick_scorer(g: PongView, input: Input, direction: BallDirection, window: Window, dt: nat) -> Option<Player> {
    let served = serve_looked_at(g, input, direction);
    scorer(
        chain_collided(served, input, window, dt),
        chain_moved(served, input, window, dt),
        window.width as nat,
    )
}

} // verus!
