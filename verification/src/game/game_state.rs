//! The state of a game: the scores and how the ball travels.

use vstd::prelude::*;
use crate::game::model::{opposite, GameStateView};
use crate::game::physics::BallDirection;
use crate::game::units::{COEFFICIENT_ONE, COEFFICIENT_STEP};

verus! {

/// The scores, whether and where the ball travels, and how fast.
///
/// The speed coefficient is never below 1.0: it starts there and only grows.
#[derive(Clone, Copy, Debug, PartialEq, Eq)]
pub struct GameState {
    p1_score: u16,
    p2_score: u16,
    ball_moving: bool,
    ball_direction: BallDirection,
    ball_angle: i32,
    ball_speed_coefficient: u32,
}

impl View for GameState {
    type V = GameStateView;

    closed spec fn view(&self) -> GameStateView {
        GameStateView {
            p1_score: self.p1_score as nat,
            p2_score: self.p2_score as nat,
            ball_moving: self.ball_moving,
            ball_direction: self.ball_direction,
            ball_angle: self.ball_angle as int,
            ball_speed_coefficient: self.ball_speed_coefficient as nat,
        }
    }
}

impl GameState {
    #[verifier::type_invariant]
    spec fn coefficient_at_least_one(self) -> bool {
        self.ball_speed_coefficient >= COEFFICIENT_ONE
    }

    /// What a `GameState` holds can be stored in one.
    pub proof fn lemma_view_representable(self)
        ensures
            self@.representable(),
    {
    }

    /// The state at the start: no points, the ball at rest, the speed
    /// coefficient 1.0.
    pub fn new() -> (state: GameState)
        ensures
            state@ == GameStateView::initial(),
    {
        GameState {
            p1_score: 0,
            p2_score: 0,
            ball_moving: false,
            ball_direction: BallDirection::Left,
            ball_angle: 0,
            ball_speed_coefficient: COEFFICIENT_ONE,
        }
    }

    /// Player one's points.
    pub fn p1_score(&self) -> (score: u16)
        ensures
            score == self@.p1_score,
    {
        self.p1_score
    }

    /// Player two's points.
    pub fn p2_score(&self) -> (score: u16)
        ensures
            score == self@.p2_score,
    {
        self.p2_score
    }

    /// Whether the ball moves.
    pub fn ball_moving(&self) -> (moving: bool)
        ensures
            moving == self@.ball_moving,
    {
        self.ball_moving
    }

    /// The side towards which the ball travels, or last travelled.
    pub fn ball_direction(&self) -> (direction: &BallDirection)
        ensures
            *direction == self@.ball_direction,
    {
        &self.ball_direction
    }

    /// The ball's vertical speed, in world units per second.
    pub fn ball_angle(&self) -> (angle: i32)
        ensures
            angle == self@.ball_angle,
    {
        self.ball_angle
    }

    /// The speed coefficient, in tenths; never below `COEFFICIENT_ONE`.
    pub fn ball_speed_coefficient(&self) -> (coefficient: u32)
        ensures
            coefficient == self@.ball_speed_coefficient,
            coefficient >= COEFFICIENT_ONE,
    {
        proof {
            use_type_invariant(self);
        }
        self.ball_speed_coefficient
    }

    /// Gives player one a point.
    pub fn inc_p1_score(&mut self)
        requires
            old(self)@.p1_score < u16::MAX,
        ensures
            final(self)@ == (GameStateView { p1_score: old(self)@.p1_score + 1, ..old(self)@ }),
    {
        proof {
            use_type_invariant(&*self);
        }
        self.p1_score += 1;
    }

    /// Gives player two a point.
    pub fn inc_p2_score(&mut self)
        requires
            old(self)@.p2_score < u16::MAX,
        ensures
            final(self)@ == (GameStateView { p2_score: old(self)@.p2_score + 1, ..old(self)@ }),
    {
        proof {
            use_type_invariant(&*self);
        }
        self.p2_score += 1;
    }

    /// Sets a ball at rest moving, and a moving ball at rest.
    pub fn toggle_ball_moving(&mut self)
        ensures
            final(self)@ == (GameStateView { ball_moving: !old(self)@.ball_moving, ..old(self)@ }),
    {
        proof {
            use_type_invariant(&*self);
        }
        self.ball_moving = !self.ball_moving;
    }

    /// Turns the ball round.
    pub fn toggle_ball_direction(&mut self)
        ensures
            final(self)@ == (GameStateView {
                ball_direction: opposite(old(self)@.ball_direction),
                ..old(self)@
            }),
    {
        proof {
            use_type_invariant(&*self);
        }
        match self.ball_direction {
            BallDirection::Right => self.ball_direction = BallDirection::Left,
            BallDirection::Left => self.ball_direction = BallDirection::Right,
        };
    }

    /// Sets the side towards which the ball travels.
    pub fn set_ball_direction(&mut self, direction: BallDirection)
        ensures
            final(self)@ == (GameStateView { ball_direction: direction, ..old(self)@ }),
    {
        proof {
            use_type_invariant(&*self);
        }
        self.ball_direction = direction;
    }

    /// Sets the ball's vertical speed, in world units per second.
    pub fn set_ball_angle(&mut self, angle: i32)
        ensures
            final(self)@ == (GameStateView { ball_angle: angle as int, ..old(self)@ }),
    {
        proof {
            use_type_invariant(&*self);
        }
        self.ball_angle = angle;
    }

    /// Raises the speed coefficient by 0.2.
    pub fn bump_speed_coefficient(&mut self)
        requires
            old(self)@.ball_speed_coefficient + COEFFICIENT_STEP <= u32::MAX,
        ensures
            final(self)@ == (GameStateView {
                ball_speed_coefficient: old(self)@.ball_speed_coefficient + COEFFICIENT_STEP as nat,
                ..old(self)@
            }),
    {
        proof {
            use_type_invariant(&*self);
        }
        self.ball_speed_coefficient += COEFFICIENT_STEP;
    }
}

} // verus!
