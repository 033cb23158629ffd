//! What can go wrong in a game, and which failures end it.

use vstd::prelude::*;

verus! {

/// The failures of a game.
#[derive(Clone, Copy, Debug, PartialEq, Eq, Structural)]
pub enum GameError {
    /// The word source could not be reached, or the transfer failed.
    Fetch,
    /// The word source answered, but the answer holds no usable word.
    Parse,
    /// The player's input is neither a command, nor the secret, nor a single letter.
    Input,
}

impl GameError {
    /// Which failures are fatal: without a word there is no game, while a
    /// malformed input only costs the player another prompt.
    pub open spec fn fatal(self) -> bool {
        self != GameError::Input
    }

    /// Whether the game has to stop on this failure.
    pub fn is_fatal(&self) -> (stop: bool)
        ensures
            stop == self.fatal(),
    {
        match self {
            GameError::Fetch => true,
            GameError::Parse => true,
            GameError::Input => false,
        }
    }
}

} // verus!
