//! A player's paddle.

use vstd::prelude::*;
use crate::game::model::PaddleView;
use crate::game::pong::Player;

verus! {

/// A paddle: whose it is, and the position of its centre, in length steps from
/// the centre of the screen. Every paddle is `PADDLE_WIDTH` wide and
/// `PADDLE_HEIGHT` high.
#[derive(Clone, Copy, Debug, PartialEq, Eq, Structural)]
pub struct Paddle {
    pub player: Player,
    pub x: i64,
    pub y: i64,
}

impl View for Paddle {
    type V = PaddleView;

    open spec fn view(&self) -> PaddleView {
        PaddleView { player: self.player, x: self.x as int, y: self.y as int }
    }
}

impl Paddle {
    /// `player`'s paddle with its centre at (`x`, `y`).
    pub fn new(player: Player, x: i64, y: i64) -> (paddle: Paddle)
        ensures
            paddle@ == (PaddleView { player, x: x as int, y: y as int }),
    {
        Paddle { player, x, y }
    }
}

/// The views of `paddles`, in their order.
pub open spec fn paddle_views(paddles: Seq<Paddle>) -> Seq<PaddleView> {
    Seq::new(paddles.len(), |i: int| paddles[i]@)
}

} // verus!
