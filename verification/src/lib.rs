//! Rock-paper-scissors: the move vocabulary, the win relation, input
//! normalisation and the round state machine of an interactive game.

pub mod game;
pub mod input;
pub mod moves;
pub mod sampler;
pub mod text;

pub use crate::game::{Ending, Game, Outcome, Prompt, State, Turn};
pub use crate::input::{normalize, validate};
pub use crate::moves::{Move, ParseMoveError};
pub use crate::sampler::sample_move;
