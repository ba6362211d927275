//! The players, the ball and the game as a whole.

use vstd::prelude::*;
use crate::game::game_state::GameState;
use crate::game::laws::lemma_tick_keeps_well_formed;
use crate::game::model::{
    controls_handled, holds_down, holds_up, initial_game, initial_paddles, paddle_moved, reset,
    scored, scorer, tick_fits, tick_scorer, ticked, BallView, PongView,
};
use crate::game::paddle::{paddle_views, Paddle};
use crate::game::physics::{
    can_collide, can_move_ball, collision_detected, move_ball, random_direction, serve,
    BallDirection,
};
use crate::game::units::{
    COEFFICIENT_ONE, PADDLE_HEIGHT, PADDLE_MARGIN, PADDLE_SPEED, PADDLE_WIDTH, SCORING_REACH,
};

verus! {

/// One of the two players. `P1` defends the left edge, `P2` the right.
#[derive(Clone, Copy, Debug, PartialEq, Eq, Structural)]
pub enum Player {
    P1,
    P2,
}

/// The ball: the position of its centre, in length steps from the centre of
/// the screen.
#[derive(Clone, Copy, Debug, PartialEq, Eq, Structural)]
pub struct Ball {
    pub x: i64,
    pub y: i64,
}

impl View for Ball {
    type V = BallView;

    open spec fn view(&self) -> BallView {
        BallView { x: self.x as int, y: self.y as int }
    }
}

/// What the players do during one tick.
#[derive(Clone, Copy, Debug, PartialEq, Eq, Structural)]
pub struct Input {
    /// The serve key went down in this tick.
    pub serve: bool,
    /// Player one holds the key that moves the left paddle up.
    pub p1_up: bool,
    /// Player one holds the key that moves the left paddle down.
    pub p1_down: bool,
    /// Player two holds the key that moves the right paddle up.
    pub p2_up: bool,
    /// Player two holds the key that moves the right paddle down.
    pub p2_down: bool,
}

/// The size of the window, in length steps. The centre of the window is the
/// origin of all positions.
#[derive(Clone, Copy, Debug, PartialEq, Eq, Structural)]
pub struct Window {
    pub width: u64,
    pub height: u64,
}

/// The ball at the start: at the centre of the screen.
pub fn setup_ball() -> (ball: Ball)
    ensures
        ball@ == BallView::origin(),
{
    Ball { x: 0, y: 0 }
}

/// The paddles at the start, in a window `window_width` wide: player one's at
/// the left screen edge and player two's at the right, each one margin inside
/// it and halfway up.
pub fn setup_players(window_width: u64) -> (paddles: Vec<Paddle>)
    ensures
        paddles@.len() == 2,
        paddle_views(paddles@) == initial_paddles(window_width as nat),
{
    let half_width: i64 = (window_width / 2) as i64;

    let left_x: i64 = -half_width + PADDLE_MARGIN + PADDLE_WIDTH / 2;
    let right_x: i64 = half_width - PADDLE_MARGIN - PADDLE_WIDTH / 2;

    let mut paddles: Vec<Paddle> = Vec::new();
    paddles.push(Paddle::new(Player::P1, left_x, 0));
    paddles.push(Paddle::new(Player::P2, right_x, 0));
    proof {
        assert(paddle_views(paddles@) =~= initial_paddles(window_width as nat));
    }
    paddles
}

/// Moves one paddle by what it travels in `dt` microseconds: up if `up` holds
/// and the paddle then still lies inside a window `window_height` high;
/// otherwise down in the same way; otherwise not at all.
pub fn move_paddle(paddle: &mut Paddle, up: bool, down: bool, window_height: u64, dt: u32)
    ensures
        final(paddle)@ == paddle_moved(old(paddle)@, up, down, window_height as nat, dt as nat),
{
    let movement: i64 = PADDLE_SPEED * (COEFFICIENT_ONE as i64) * (dt as i64);
    let can_move_up = 2 * (paddle.y as i128 + movement as i128) <= window_height as i128
        - PADDLE_HEIGHT as i128;
    let can_move_down = 2 * (paddle.y as i128 - movement as i128) >= PADDLE_HEIGHT as i128
        - window_height as i128;

    if up && can_move_up {
        paddle.y += movement;
    } else if down && can_move_down {
        paddle.y -= movement;
    }
}

/// The paddle step of one tick: each paddle is moved by its own player's
/// keys.
pub fn handle_controls(paddles: &mut Vec<Paddle>, input: &Input, window_height: u64, dt: u32)
    ensures
        paddle_views(final(paddles)@) == controls_handled(
            paddle_views(old(paddles)@),
            *input,
            window_height as nat,
            dt as nat,
        ),
{
    let ghost before: Seq<Paddle> = paddles@;
    let mut i: usize = 0;
    while i < paddles.len()
        invariant
            i <= paddles.len(),
            paddles@.len() == before.len(),
            forall|j: int|
                0 <= j < i ==> (#[trigger] paddles@[j])@ == paddle_moved(
                    before[j]@,
                    holds_up(*input, before[j].player),
                    holds_down(*input, before[j].player),
                    window_height as nat,
                    dt as nat,
                ),
            forall|j: int| i <= j < before.len() ==> #[trigger] paddles@[j] == before[j],
        decreases paddles.len() - i,
    {
        let mut paddle: Paddle = paddles[i];

        // Determine which keys should be used for up and down based on the current player
        let up: bool;
        let down: bool;
        match paddle.player {
            Player::P1 => {
                up = input.p1_up;
                down = input.p1_down;
            },
            Player::P2 => {
                up = input.p2_up;
                down = input.p2_down;
            },
        };

        move_paddle(&mut paddle, up, down, window_height, dt);
        paddles.set(i, paddle);
        i += 1;
    }
    proof {
        assert(paddle_views(paddles@) =~= controls_handled(
            paddle_views(before),
            *input,
            window_height as nat,
            dt as nat,
        ));
    }
}

/// Who scores in a window `window_width` wide, if anyone.
pub fn scoring_player(state: &GameState, ball: &Ball, window_width: u64) -> (player: Option<Player>)
    ensures
        player == scorer(state@, ball@, window_width as nat),
{
    if !state.ball_moving() {
        return None;
    }
    match state.ball_direction() {
        BallDirection::Left => {
            let ball_x_offset_pos: i128 = ball.x as i128 - SCORING_REACH as i128;
            let out_of_bounds = 2 * ball_x_offset_pos <= -(window_width as i128);
            if out_of_bounds {
                Some(Player::P2)
            } else {
                None
            }
        },
        BallDirection::Right => {
            let ball_x_offset_pos: i128 = ball.x as i128 + SCORING_REACH as i128;
            let out_of_bounds = 2 * ball_x_offset_pos >= window_width as i128;
            if out_of_bounds {
                Some(Player::P1)
            } else {
                None
            }
        },
    }
}

/// Whether `player_scored` may be called: whether the score that it raises,
/// if it raises one, can be stored.
pub fn can_score(state: &GameState, ball: &Ball, window_width: u64) -> (ok: bool)
    ensures
        ok == scored(state@, ball@, window_width as nat).0.representable(),
{
    proof {
        state.lemma_view_representable();
    }
    match scoring_player(state, ball, window_width) {
        Some(Player::P1) => state.p1_score() < u16::MAX,
        Some(Player::P2) => state.p2_score() < u16::MAX,
        None => true,
    }
}

/// The reset: flips the moving flag and puts the ball back at the centre.
/// Direction, angle, speed coefficient and scores stay as they are.
///
/// The reset is for the scoring test, which calls it while the ball moves.
/// Called on a game whose ball is at rest, it leaves the ball at the centre
/// and sets it moving: it is for the caller not to do so.
pub fn reset_game(state: &mut GameState, ball: &mut Ball)
    ensures
        (final(state)@, final(ball)@) == reset(old(state)@, old(ball)@),
{
    state.toggle_ball_moving();
    ball.x = 0;
    ball.y = 0;
}

/// The scoring test of one tick: where the moving ball's leading edge has
/// reached the screen edge towards which it travels, the player on the other
/// side gets a point and the game is reset. Returns who scored.
pub fn player_scored(state: &mut GameState, ball: &mut Ball, window_width: u64) -> (player: Option<Player>)
    requires
        scored(old(state)@, old(ball)@, window_width as nat).0.representable(),
    ensures
        (final(state)@, final(ball)@) == scored(old(state)@, old(ball)@, window_width as nat),
        player == scorer(old(state)@, old(ball)@, window_width as nat),
{
    let player = scoring_player(state, ball, window_width);
    match player {
        Some(Player::P1) => {
            state.inc_p1_score();
            reset_game(state, ball);
        },
        Some(Player::P2) => {
            state.inc_p2_score();
            reset_game(state, ball);
        },
        None => {},
    };
    player
}

/// A game of Pong: its state, the ball and the two paddles.
///
/// At all times player one's paddle comes first and player two's second, and
/// a ball at rest lies at the centre of the screen.
#[derive(Clone, Copy, Debug, PartialEq, Eq)]
pub struct Pong {
    state: GameState,
    ball: Ball,
    p1: Paddle,
    p2: Paddle,
}

impl View for Pong {
    type V = PongView;

    closed spec fn view(&self) -> PongView {
        PongView { state: self.state@, ball: self.ball@, paddles: seq![self.p1@, self.p2@] }
    }
}

impl Pong {
    #[verifier::type_invariant]
    spec fn well_formed(self) -> bool {
        self@.well_formed()
    }

    /// The game at the start, in a window `window_width` wide.
    pub fn new(window_width: u64) -> (game: Pong)
        ensures
            game@ == initial_game(window_width as nat),
            game@.well_formed(),
    {
        let paddles = setup_players(window_width);
        proof {
            assert(paddle_views(paddles@)[0] == paddles@[0]@);
            assert(paddle_views(paddles@)[1] == paddles@[1]@);
            assert(seq![paddles@[0]@, paddles@[1]@] =~= initial_paddles(window_width as nat));
        }
        Pong { state: GameState::new(), ball: setup_ball(), p1: paddles[0], p2: paddles[1] }
    }

    /// The scores and how the ball travels.
    pub fn state(&self) -> (state: &GameState)
        ensures
            state@ == self@.state,
            self@.well_formed(),
    {
        proof {
            use_type_invariant(self);
        }
        &self.state
    }

    /// Where the ball is.
    pub fn ball(&self) -> (ball: &Ball)
        ensures
            ball@ == self@.ball,
            self@.well_formed(),
    {
        proof {
            use_type_invariant(self);
        }
        &self.ball
    }

    /// `player`'s paddle.
    pub fn paddle(&self, player: Player) -> (paddle: &Paddle)
        ensures
            paddle@ == self@.paddles[if player is P1 { 0int } else { 1int }],
            paddle.player == player,
            self@.well_formed(),
    {
        proof {
            use_type_invariant(self);
        }
        match player {
            Player::P1 => &self.p1,
            Player::P2 => &self.p2,
        }
    }

    /// Whether `tick_with` may be called: whether every value that the tick
    /// passes through can be stored.
    pub fn can_tick_with(&self, input: &Input, direction: BallDirection, window: &Window, dt: u32) -> (ok: bool)
        ensures
            ok == tick_fits(self@, *input, direction, *window, dt as nat),
    {
        let mut state: GameState = self.state;
        let mut ball: Ball = self.ball;
        let mut paddles: Vec<Paddle> = Vec::new();
        paddles.push(self.p1);
        paddles.push(self.p2);
        proof {
            assert(paddle_views(paddles@) =~= self@.paddles);
        }

        serve(&mut state, input.serve, direction);
        handle_controls(&mut paddles, input, window.height, dt);
        if !can_collide(&state, &ball, paddles.as_slice(), window.height) {
            return false;
        }
        collision_detected(&mut state, &ball, paddles.as_slice(), window.height);
        if !can_move_ball(&state, &ball, dt) {
            return false;
        }
        move_ball(&state, &mut ball, dt);
        can_score(&state, &ball, window.width)
    }

    /// Whether `tick` may be called: whether the tick can be stored whichever
    /// way a serve in it goes.
    pub fn can_tick(&self, input: &Input, window: &Window, dt: u32) -> (ok: bool)
        ensures
            ok == (tick_fits(self@, *input, BallDirection::Left, *window, dt as nat) && tick_fits(
                self@,
                *input,
                BallDirection::Right,
                *window,
                dt as nat,
            )),
    {
        self.can_tick_with(input, BallDirection::Left, window, dt) && self.can_tick_with(
            input,
            BallDirection::Right,
            window,
            dt,
        )
    }

    /// One tick with the serve's direction given: the serve, then the paddles,
    /// the collisions, the movement and the scoring, in that order. `direction`
    /// is where the ball goes if this tick serves it. Returns who scored.
    pub fn tick_with(&mut self, input: &Input, direction: BallDirection, window: &Window, dt: u32) -> (player: Option<Player>)
        requires
            tick_fits(old(self)@, *input, direction, *window, dt as nat),
        ensures
            final(self)@ == ticked(old(self)@, *input, direction, *window, dt as nat),
            player == tick_scorer(old(self)@, *input, direction, *window, dt as nat),
            final(self)@.well_formed(),
    {
        proof {
            use_type_invariant(&*self);
        }
        let mut state: GameState = self.state;
        let mut ball: Ball = self.ball;
        let mut paddles: Vec<Paddle> = Vec::new();
        paddles.push(self.p1);
        paddles.push(self.p2);
        proof {
            assert(paddle_views(paddles@) =~= self@.paddles);
        }

        serve(&mut state, input.serve, direction);
        handle_controls(&mut paddles, input, window.height, dt);
        collision_detected(&mut state, &ball, paddles.as_slice(), window.height);
        move_ball(&state, &mut ball, dt);
        let player = player_scored(&mut state, &mut ball, window.width);

        let p1: Paddle = paddles[0];
        let p2: Paddle = paddles[1];
        proof {
            assert(paddle_views(paddles@)[0] == p1@);
            assert(paddle_views(paddles@)[1] == p2@);
            assert(seq![p1@, p2@] =~= paddle_views(paddles@));
            lemma_tick_keeps_well_formed(old(self)@, *input, direction, *window, dt as nat);
        }
        *self = Pong { state, ball, p1, p2 };
        player
    }

    /// One tick: as `tick_with`, with the direction of a serve drawn at
    /// random.
    pub fn tick(&mut self, input: &Input, window: &Window, dt: u32) -> (player: Option<Player>)
        requires
            tick_fits(old(self)@, *input, BallDirection::Left, *window, dt as nat),
            tick_fits(old(self)@, *input, BallDirection::Right, *window, dt as nat),
        ensures
            ({
                ||| {
                    &&& final(self)@ == ticked(old(self)@, *input, BallDirection::Left, *window, dt as nat)
                    &&& player == tick_scorer(old(self)@, *input, BallDirection::Left, *window, dt as nat)
                }
                ||| {
                    &&& final(self)@ == ticked(old(self)@, *input, BallDirection::Right, *window, dt as nat)
                    &&& player == tick_scorer(old(self)@, *input, BallDirection::Right, *window, dt as nat)
                }
            }),
            final(self)@.well_formed(),
    {
        let direction = if input.serve && !self.state.ball_moving() {
            random_direction()
        } else {
            BallDirection::Left
        };
        self.tick_with(input, direction, window, dt)
    }
}

} // verus!
