//! What holds of the game, proved of the model.

use vstd::prelude::*;
use crate::game::model::{
    ball_moved, chain_collided, chain_paddles, chained, collided, paddle_bounced, paddle_hit,
    paddle_inside, paddle_moved, paddle_step, paddles_bounced, ran, reset, scored, scorer,
    serve_looked_at, tick_scorer, ticked, touches_bottom, touches_top, wall_bounced, BallView,
    GameStateView, PaddleView, PongView, Step,
};
use crate::game::physics::BallDirection;
use crate::game::pong::{Input, Player, Window};
use crate::game::units::{
    BALL_RADIUS, BALL_SPEED, BOUNCE_ANGLE, COEFFICIENT_ONE, COEFFICIENT_STEP, PADDLE_HEIGHT,
    PADDLE_SPEED, PADDLE_WIDTH, SCORING_REACH,
};

verus! {

// ---------------------------------------------------------------------------
// Paddles
// ---------------------------------------------------------------------------

/// A paddle moves up and down only, and one that lies inside the window stays
/// inside it, whatever keys are held and however long the tick.
pub proof fn lemma_paddle_stays_inside(p: PaddleView, up: bool, down: bool, window_height: nat, dt: nat)
    ensures
        paddle_moved(p, up, down, window_height, dt).player == p.player,
        paddle_moved(p, up, down, window_height, dt).x == p.x,
        paddle_inside(p, window_height) ==> paddle_inside(
            paddle_moved(p, up, down, window_height, dt),
            window_height,
        ),
{
    assert(paddle_step(dt) >= 0) by (nonlinear_arith)
        requires
            paddle_step(dt) == PADDLE_SPEED * COEFFICIENT_ONE * dt,
            PADDLE_SPEED == 300,
            COEFFICIENT_ONE == 10,
    ;
}

// ---------------------------------------------------------------------------
// Collisions
// ---------------------------------------------------------------------------

/// A paddle bounce changes neither the scores nor whether the ball moves, and
/// never lowers the speed coefficient: so it is after any number of paddles.
pub proof fn lemma_bounces_keep_scores_and_motion(
    s: GameStateView,
    heading: BallDirection,
    ball: BallView,
    paddles: Seq<PaddleView>,
)
    ensures
        paddles_bounced(s, heading, ball, paddles).p1_score == s.p1_score,
        paddles_bounced(s, heading, ball, paddles).p2_score == s.p2_score,
        paddles_bounced(s, heading, ball, paddles).ball_moving == s.ball_moving,
        paddles_bounced(s, heading, ball, paddles).ball_speed_coefficient >= s.ball_speed_coefficient,
    decreases paddles.len(),
{
    if paddles.len() > 0 {
        lemma_bounces_keep_scores_and_motion(s, heading, ball, paddles.drop_last());
    }
}

/// After any number of paddles the angle is the one before them or
/// `BOUNCE_ANGLE`, upwards or downwards.
pub proof fn lemma_bounces_keep_angle_in_range(
    s: GameStateView,
    heading: BallDirection,
    ball: BallView,
    paddles: Seq<PaddleView>,
)
    ensures
        ({
            let angle = paddles_bounced(s, heading, ball, paddles).ball_angle;
            angle == s.ball_angle || angle == BOUNCE_ANGLE || angle == -BOUNCE_ANGLE
        }),
    decreases paddles.len(),
{
    if paddles.len() > 0 {
        lemma_bounces_keep_angle_in_range(s, heading, ball, paddles.drop_last());
    }
}

/// The speed coefficient after the first `n` paddles is at most what it is
/// after all of them.
pub proof fn lemma_coefficient_grows(
    s: GameStateView,
    heading: BallDirection,
    ball: BallView,
    paddles: Seq<PaddleView>,
    n: int,
)
    requires
        0 <= n <= paddles.len(),
    ensures
        paddles_bounced(s, heading, ball, paddles.take(n)).ball_speed_coefficient
            <= paddles_bounced(s, heading, ball, paddles).ball_speed_coefficient,
    decreases paddles.len(),
{
    if n == paddles.len() {
        assert(paddles.take(n) =~= paddles);
    } else {
        assert(paddles.drop_last().take(n) =~= paddles.take(n));
        lemma_coefficient_grows(s, heading, ball, paddles.drop_last(), n);
    }
}

/// The collision test changes neither the scores nor whether the ball moves,
/// and never lowers the speed coefficient.
pub proof fn lemma_collision_keeps_scores_and_motion(
    s: GameStateView,
    ball: BallView,
    paddles: Seq<PaddleView>,
    window_height: nat,
)
    ensures
        collided(s, ball, paddles, window_height).p1_score == s.p1_score,
        collided(s, ball, paddles, window_height).p2_score == s.p2_score,
        collided(s, ball, paddles, window_height).ball_moving == s.ball_moving,
        collided(s, ball, paddles, window_height).ball_speed_coefficient >= s.ball_speed_coefficient,
{
    lemma_bounces_keep_scores_and_motion(
        wall_bounced(s, ball, window_height),
        s.ball_direction,
        ball,
        paddles,
    );
}

/// Paddles that the ball does not hit leave the state as it is.
pub proof fn lemma_missed_paddles_leave_state(
    s: GameStateView,
    heading: BallDirection,
    ball: BallView,
    paddles: Seq<PaddleView>,
)
    requires
        forall|i: int|
            0 <= i < paddles.len() ==> !paddle_hit(s.ball_direction, heading, ball, #[trigger] paddles[i]),
    ensures
        paddles_bounced(s, heading, ball, paddles) == s,
    decreases paddles.len(),
{
    if paddles.len() > 0 {
        let earlier = paddles.drop_last();
        assert forall|i: int| 0 <= i < earlier.len() implies !paddle_hit(
            s.ball_direction,
            heading,
            ball,
            #[trigger] earlier[i],
        ) by {
            assert(earlier[i] == paddles[i]);
        }
        lemma_missed_paddles_leave_state(s, heading, ball, earlier);
        assert(paddles.last() == paddles[paddles.len() - 1]);
    }
}

/// Wall bounce at the top: a moving ball that rises and whose centre is
/// within one radius of the top edge, as it is at half the window's height,
/// falls after the collision test, as fast as it rose, if it hits none of the
/// paddles; nothing else changes.
pub proof fn lemma_top_wall_inverts_angle(
    s: GameStateView,
    ball: BallView,
    paddles: Seq<PaddleView>,
    window_height: nat,
)
    requires
        s.ball_moving,
        s.ball_angle > 0,
        touches_top(ball, window_height),
        forall|i: int|
            0 <= i < paddles.len() ==> !paddle_hit(
                s.ball_direction,
                s.ball_direction,
                ball,
                #[trigger] paddles[i],
            ),
    ensures
        wall_bounced(s, ball, window_height) == (GameStateView { ball_angle: -s.ball_angle, ..s }),
        collided(s, ball, paddles, window_height) == (GameStateView { ball_angle: -s.ball_angle, ..s }),
        collided(s, ball, paddles, window_height).ball_angle < 0,
{
    lemma_missed_paddles_leave_state(
        wall_bounced(s, ball, window_height),
        s.ball_direction,
        ball,
        paddles,
    );
}

/// Wall bounce at the bottom: a moving ball that falls and whose centre is
/// within one radius of the bottom edge rises after the collision test, as
/// fast as it fell, if it hits none of the paddles; nothing else changes.
pub proof fn lemma_bottom_wall_inverts_angle(
    s: GameStateView,
    ball: BallView,
    paddles: Seq<PaddleView>,
    window_height: nat,
)
    requires
        s.ball_moving,
        s.ball_angle < 0,
        touches_bottom(ball, window_height),
        forall|i: int|
            0 <= i < paddles.len() ==> !paddle_hit(
                s.ball_direction,
                s.ball_direction,
                ball,
                #[trigger] paddles[i],
            ),
    ensures
        wall_bounced(s, ball, window_height) == (GameStateView { ball_angle: -s.ball_angle, ..s }),
        collided(s, ball, paddles, window_height) == (GameStateView { ball_angle: -s.ball_angle, ..s }),
        collided(s, ball, paddles, window_height).ball_angle > 0,
{
    lemma_missed_paddles_leave_state(
        wall_bounced(s, ball, window_height),
        s.ball_direction,
        ball,
        paddles,
    );
}

/// Paddle bounce on the left: a ball that travels left, whose leading edge
/// has reached the face of player one's paddle and whose centre is above the
/// paddle's and within its span, travels right afterwards, rises with
/// `BOUNCE_ANGLE`, and is faster by exactly one step of the coefficient;
/// nothing else changes. With that paddle alone the whole collision test gives
/// the same.
pub proof fn lemma_left_paddle_bounce(s: GameStateView, ball: BallView, p: PaddleView, window_height: nat)
    requires
        s.ball_moving,
        s.ball_direction is Left,
        p.player is P1,
        ball.x - BALL_RADIUS <= p.x + PADDLE_WIDTH / 2,
        p.y < ball.y <= p.y + PADDLE_HEIGHT / 2,
    ensures
        paddle_bounced(s, s.ball_direction, ball, p) == (GameStateView {
            ball_direction: BallDirection::Right,
            ball_angle: BOUNCE_ANGLE as int,
            ball_speed_coefficient: s.ball_speed_coefficient + COEFFICIENT_STEP as nat,
            ..s
        }),
        collided(s, ball, seq![p], window_height) == (GameStateView {
            ball_direction: BallDirection::Right,
            ball_angle: BOUNCE_ANGLE as int,
            ball_speed_coefficient: s.ball_speed_coefficient + COEFFICIENT_STEP as nat,
            ..s
        }),
{
    let after_wall = wall_bounced(s, ball, window_height);
    assert(seq![p].drop_last() =~= Seq::<PaddleView>::empty());
    assert(seq![p].last() == p);
    assert(paddles_bounced(after_wall, s.ball_direction, ball, Seq::<PaddleView>::empty()) == after_wall);
    assert(paddles_bounced(after_wall, s.ball_direction, ball, seq![p]) == paddle_bounced(
        after_wall,
        s.ball_direction,
        ball,
        p,
    ));
}

/// Paddle bounce on the left with both paddles in play: where player two's
/// paddle stands to the right of player one's, the ball that player one's
/// paddle has turned round is not bounced again in the same tick. The whole
/// collision test gives what the left paddle alone gives: the ball travels
/// right, rises with `BOUNCE_ANGLE`, and is faster by exactly one step.
pub proof fn lemma_left_paddle_bounce_between_paddles(
    s: GameStateView,
    ball: BallView,
    p: PaddleView,
    q: PaddleView,
    window_height: nat,
)
    requires
        s.ball_moving,
        s.ball_direction is Left,
        p.player is P1,
        q.player is P2,
        p.x < q.x,
        ball.x - BALL_RADIUS <= p.x + PADDLE_WIDTH / 2,
        p.y < ball.y <= p.y + PADDLE_HEIGHT / 2,
    ensures
        collided(s, ball, seq![p, q], window_height) == (GameStateView {
            ball_direction: BallDirection::Right,
            ball_angle: BOUNCE_ANGLE as int,
            ball_speed_coefficient: s.ball_speed_coefficient + COEFFICIENT_STEP as nat,
            ..s
        }),
{
    lemma_left_paddle_bounce(s, ball, p, window_height);
    assert(seq![p, q].drop_last() =~= seq![p]);
    assert(seq![p, q].last() == q);
}

/// Paddle bounce on the right: the same for a ball that travels right and
/// player two's paddle, except that here the ball's centre is at or below the
/// paddle's, so that it falls afterwards.
pub proof fn lemma_right_paddle_bounce(s: GameStateView, ball: BallView, p: PaddleView, window_height: nat)
    requires
        s.ball_moving,
        s.ball_direction is Right,
        p.player is P2,
        ball.x + BALL_RADIUS >= p.x - PADDLE_WIDTH / 2,
        p.y - PADDLE_HEIGHT / 2 <= ball.y <= p.y,
    ensures
        paddle_bounced(s, s.ball_direction, ball, p) == (GameStateView {
            ball_direction: BallDirection::Left,
            ball_angle: -BOUNCE_ANGLE as int,
            ball_speed_coefficient: s.ball_speed_coefficient + COEFFICIENT_STEP as nat,
            ..s
        }),
        collided(s, ball, seq![p], window_height) == (GameStateView {
            ball_direction: BallDirection::Left,
            ball_angle: -BOUNCE_ANGLE as int,
            ball_speed_coefficient: s.ball_speed_coefficient + COEFFICIENT_STEP as nat,
            ..s
        }),
{
    let after_wall = wall_bounced(s, ball, window_height);
    assert(seq![p].drop_last() =~= Seq::<PaddleView>::empty());
    assert(seq![p].last() == p);
    assert(paddles_bounced(after_wall, s.ball_direction, ball, Seq::<PaddleView>::empty()) == after_wall);
    assert(paddles_bounced(after_wall, s.ball_direction, ball, seq![p]) == paddle_bounced(
        after_wall,
        s.ball_direction,
        ball,
        p,
    ));
}

// ---------------------------------------------------------------------------
// Movement
// ---------------------------------------------------------------------------

/// A moving ball travels `BALL_SPEED` times the speed coefficient a second
/// towards its side, and the angle times the speed coefficient upwards: after
/// `dt` microseconds it is the one product of time and coefficient further
/// sideways and the other further up. A ball at rest stays.
pub proof fn lemma_ball_travels_with_speed_and_angle(s: GameStateView, ball: BallView, dt: nat)
    ensures
        s.ball_moving && s.ball_direction is Right ==> ball_moved(s, ball, dt) == (BallView {
            x: ball.x + BALL_SPEED * dt * s.ball_speed_coefficient,
            y: ball.y + s.ball_angle * dt * s.ball_speed_coefficient,
        }),
        s.ball_moving && s.ball_direction is Left ==> ball_moved(s, ball, dt) == (BallView {
            x: ball.x - BALL_SPEED * dt * s.ball_speed_coefficient,
            y: ball.y + s.ball_angle * dt * s.ball_speed_coefficient,
        }),
        !s.ball_moving ==> ball_moved(s, ball, dt) == ball,
{
}

// ---------------------------------------------------------------------------
// Scoring and reset
// ---------------------------------------------------------------------------

/// Scoring on the right: when the ball travels right and its leading edge has
/// reached the right screen edge, player one has one point more, the ball is
/// at the centre and at rest, and direction, angle and speed coefficient are
/// what they were.
pub proof fn lemma_right_edge_scores_for_player_one(s: GameStateView, ball: BallView, window_width: nat)
    requires
        s.ball_moving,
        s.ball_direction is Right,
        2 * (ball.x + SCORING_REACH) >= window_width,
    ensures
        scorer(s, ball, window_width) == Some(Player::P1),
        scored(s, ball, window_width) == (
            GameStateView { p1_score: s.p1_score + 1, ball_moving: false, ..s },
            BallView::origin(),
        ),
{
}

/// Scoring on the left: when the ball travels left and its leading edge has
/// reached the left screen edge, player two has one point more, the ball is
/// at the centre and at rest, and direction, angle and speed coefficient are
/// what they were.
pub proof fn lemma_left_edge_scores_for_player_two(s: GameStateView, ball: BallView, window_width: nat)
    requires
        s.ball_moving,
        s.ball_direction is Left,
        2 * (ball.x - SCORING_REACH) <= -window_width,
    ensures
        scorer(s, ball, window_width) == Some(Player::P2),
        scored(s, ball, window_width) == (
            GameStateView { p2_score: s.p2_score + 1, ball_moving: false, ..s },
            BallView::origin(),
        ),
{
}

/// The reset twice: the second reset leaves the ball where the first put it,
/// at the centre, and flips the moving flag back to what it was before the
/// first; so the state is the one before the two resets. A reset of a game
/// whose ball is at rest at the centre does not move the ball, but it sets
/// the ball moving: the reset is for the scoring test to call.
pub proof fn lemma_reset_twice(s: GameStateView, ball: BallView)
    ensures
        reset(reset(s, ball).0, reset(s, ball).1).1 == reset(s, ball).1,
        reset(reset(s, ball).0, reset(s, ball).1).0 == s,
        ball == BallView::origin() ==> reset(s, ball).1 == ball,
        !s.ball_moving ==> reset(s, ball).0.ball_moving,
{
}

// ---------------------------------------------------------------------------
// The game
// ---------------------------------------------------------------------------

/// The update chain keeps a game well formed.
pub proof fn lemma_chain_keeps_well_formed(g: PongView, input: Input, window: Window, dt: nat)
    requires
        g.well_formed(),
    ensures
        chained(g, input, window, dt).well_formed(),
{
    lemma_collision_keeps_scores_and_motion(
        g.state,
        g.ball,
        chain_paddles(g, input, window, dt),
        window.height as nat,
    );
}

/// A tick keeps a game well formed: in particular, a ball at rest lies at the
/// centre of the screen after it as before.
pub proof fn lemma_tick_keeps_well_formed(
    g: PongView,
    input: Input,
    direction: BallDirection,
    window: Window,
    dt: nat,
)
    requires
        g.well_formed(),
    ensures
        ticked(g, input, direction, window, dt).well_formed(),
{
    let looked_at = serve_looked_at(g, input, direction);
    if looked_at.state.ball_moving {
        assert(looked_at.well_formed());
    }
    lemma_chain_keeps_well_formed(looked_at, input, window, dt);
}

/// While the ball is at rest the update chain changes neither the state, and
/// so not the scores, nor the ball's position.
pub proof fn lemma_chain_leaves_ball_at_rest(g: PongView, input: Input, window: Window, dt: nat)
    requires
        !g.state.ball_moving,
    ensures
        chained(g, input, window, dt).state == g.state,
        chained(g, input, window, dt).ball == g.ball,
{
}

/// While the ball is at rest, a tick without the serve changes neither the
/// state nor the ball's position.
pub proof fn lemma_tick_without_serve_leaves_ball_at_rest(
    g: PongView,
    input: Input,
    direction: BallDirection,
    window: Window,
    dt: nat,
)
    requires
        !g.state.ball_moving,
        !input.serve,
    ensures
        ticked(g, input, direction, window, dt).state == g.state,
        ticked(g, input, direction, window, dt).ball == g.ball,
{
}

/// While the ball is at rest, no sequence of ticks without a serve changes
/// the state, and so the scores, or the ball's position: only the serve sets
/// the ball moving.
pub proof fn lemma_ticks_without_serve_leave_ball_at_rest(g: PongView, steps: Seq<Step>)
    requires
        !g.state.ball_moving,
        forall|i: int| 0 <= i < steps.len() ==> !(#[trigger] steps[i]).input.serve,
    ensures
        ran(g, steps).state == g.state,
        ran(g, steps).ball == g.ball,
    decreases steps.len(),
{
    if steps.len() > 0 {
        let earlier = steps.drop_last();
        assert forall|i: int| 0 <= i < earlier.len() implies !(#[trigger] earlier[i]).input.serve by {
            assert(earlier[i] == steps[i]);
        }
        lemma_ticks_without_serve_leave_ball_at_rest(g, earlier);
        let step = steps.last();
        assert(step == steps[steps.len() - 1]);
        lemma_tick_without_serve_leaves_ball_at_rest(
            ran(g, earlier),
            step.input,
            step.direction,
            step.window,
            step.dt,
        );
    }
}

/// A tick gives one point at most, and gives it to the player that it names;
/// after a point the ball is at rest at the centre. No tick takes a point away
/// or lowers the speed coefficient, and a point leaves the speed coefficient
/// as the tick's collisions left it.
pub proof fn lemma_tick_gives_one_point_at_most(
    g: PongView,
    input: Input,
    direction: BallDirection,
    window: Window,
    dt: nat,
)
    ensures
        ({
            let after = ticked(g, input, direction, window, dt);
            let who = tick_scorer(g, input, direction, window, dt);
            let collided = chain_collided(serve_looked_at(g, input, direction), input, window, dt);
            &&& after.state.p1_score == g.state.p1_score + (if who == Some(Player::P1) {
                1nat
            } else {
                0nat
            })
            &&& after.state.p2_score == g.state.p2_score + (if who == Some(Player::P2) {
                1nat
            } else {
                0nat
            })
            &&& who is Some ==> !after.state.ball_moving && after.ball == BallView::origin()
            &&& after.state.ball_speed_coefficient == collided.ball_speed_coefficient
            &&& after.state.ball_direction == collided.ball_direction
            &&& after.state.ball_angle == collided.ball_angle
            &&& after.state.ball_speed_coefficient >= g.state.ball_speed_coefficient
        }),
{
    let looked_at = serve_looked_at(g, input, direction);
    lemma_collision_keeps_scores_and_motion(
        looked_at.state,
        looked_at.ball,
        chain_paddles(looked_at, input, window, dt),
        window.height as nat,
    );
}

} // verus!
