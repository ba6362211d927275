//! The game: its units, its mathematical model, its state and its rules.

pub mod units;
pub mod model;
pub mod laws;
pub mod game_state;
pub mod paddle;
pub mod physics;
pub mod pong;
