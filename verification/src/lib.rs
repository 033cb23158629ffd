//! A word-guessing game: one secret word, the letters tried so far, and the
//! rules that turn a line of input into the next state of the game.

pub mod error;
pub mod laws;
pub mod session;
pub mod text;
pub mod turn;
