//! A two-player Pong simulation in exact integer arithmetic.
//!
//! The crate holds the rules of the game and nothing of an engine: a caller
//! reads the keyboard, the window and the clock, hands them to [`game::pong::Pong::tick`]
//! as plain values, and draws what the game then holds. Every rule is stated
//! once as a function of the mathematical model in [`game::model`], and each
//! executable function is proved to compute exactly that.

pub mod game;
