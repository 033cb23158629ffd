//! One turn of the game: what a line of input means, and what it does to the
//! session. Whoever runs the game reads the line, calls `play_line`, and shows
//! what came back.

use crate::error::GameError;
use crate::session::{GuessOutcome, Word, WordView};
use crate::text::{same_text, trim, trimmed};
use vstd::prelude::*;

verus! {

/// The input that ends the game and has the secret shown.
pub const QUIT_COMMAND: &'static str = "!exit";

/// The input that has the letters tried so far listed.
pub const LIST_COMMAND: &'static str = "!list";

/// The letters of `QUIT_COMMAND`.
pub open spec fn quit_command() -> Seq<char> {
    seq!['!', 'e', 'x', 'i', 't']
}

/// The letters of `LIST_COMMAND`.
pub open spec fn list_command() -> Seq<char> {
    seq!['!', 'l', 'i', 's', 't']
}

/// What a well-formed input came to.
#[derive(Clone, Copy, Debug, PartialEq, Eq, Structural)]
pub enum Turn {
    /// The input was the secret itself: the player has won.
    Won,
    /// The player gave up: the secret is to be shown.
    Quit,
    /// The player asked for the letters tried so far.
    Listed,
    /// The input was one letter, and it was taken as a guess.
    Guessed {
        /// The letter guessed.
        letter: char,
        /// Whether it occurs in the secret.
        outcome: GuessOutcome,
        /// Whether the display shows the whole secret after this guess.
        solved: bool,
    },
}

impl Turn {
    /// The game goes on after a guess that leaves something hidden, and after
    /// nothing else.
    pub open spec fn is_last(self) -> bool {
        match self {
            Turn::Guessed { solved, .. } => solved,
            _ => true,
        }
    }

    /// Whether the game is over with this turn.
    pub fn ends_game(&self) -> (over: bool)
        ensures
            over == self.is_last(),
    {
        match self {
            Turn::Guessed { solved, .. } => *solved,
            _ => true,
        }
    }
}

/// Whether `input` is taken as a guess in session `s`: it is not the secret, not
/// a command, and it is exactly one letter.
pub open spec fn is_guess(s: WordView, input: Seq<char>) -> bool {
    input != s.secret && input != quit_command() && input != list_command() && input.len() == 1
}

/// What `input` comes to in session `s`. The secret itself is looked for first,
/// then the commands; anything else has to be a single letter.
pub open spec fn answer(s: WordView, input: Seq<char>) -> Result<Turn, GameError> {
    if input == s.secret {
        Ok(Turn::Won)
    } else if input == quit_command() {
        Ok(Turn::Quit)
    } else if input == list_command() {
        Ok(Turn::Listed)
    } else if input.len() != 1 {
        Err(GameError::Input)
    } else {
        Ok(
            Turn::Guessed {
                letter: input[0],
                outcome: s.outcome(input[0]),
                solved: s.after_guess(input[0]).is_solved(),
            },
        )
    }
}

/// The session after `input`: a guess is recorded, anything else leaves the
/// session as it was.
pub open spec fn after_input(s: WordView, input: Seq<char>) -> WordView {
    if is_guess(s, input) {
        s.after_guess(input[0])
    } else {
        s
    }
}

/// The letters of `letters` in their order, with a comma between each two.
pub open spec fn comma_separated(letters: Seq<char>) -> Seq<char> {
    Seq::new(
        if letters.len() == 0 {
            0
        } else {
            (2 * letters.len() - 1) as nat
        },
        |i: int|
            if i % 2 == 0 {
                letters[i / 2]
            } else {
                ','
            },
    )
}

impl Word {
    /// Plays one turn on an input that is taken as it stands: white space in it
    /// counts like any other character.
    pub fn play(&mut self, input: &str) -> (turn: Result<Turn, GameError>)
        ensures
            turn == answer(old(self)@, input@),
            final(self)@ == after_input(old(self)@, input@),
    {
        proof {
            reveal_strlit("!exit");
            reveal_strlit("!list");
            assert(QUIT_COMMAND@ =~= quit_command());
            assert(LIST_COMMAND@ =~= list_command());
        }
        if same_text(input, self.reveal_secret()) {
            Ok(Turn::Won)
        } else if same_text(input, QUIT_COMMAND) {
            Ok(Turn::Quit)
        } else if same_text(input, LIST_COMMAND) {
            Ok(Turn::Listed)
        } else if input.unicode_len() != 1 {
            Err(GameError::Input)
        } else {
            let letter = input.get_char(0);
            let outcome = self.guess(letter);
            let solved = self.is_solved();
            Ok(Turn::Guessed { letter, outcome, solved })
        }
    }

    /// Plays one turn on a line as the player typed it: the white space around
    /// it is dropped, and the rest is played.
    pub fn play_line(&mut self, line: &str) -> (turn: Result<Turn, GameError>)
        ensures
            turn == answer(old(self)@, trimmed(line@)),
            final(self)@ == after_input(old(self)@, trimmed(line@)),
    {
        let input = trim(line);
        self.play(input)
    }

    /// The letters tried so far as one line of text, separated by commas.
    pub fn guessed_line(&self) -> (line: String)
        ensures
            line@ == comma_separated(self@.guessed),
    {
        let letters = self.guessed_list();
        let mut line = String::new();
        let mut i: usize = 0;
        while i < letters.len()
            invariant
                i <= letters.len(),
                line@ == comma_separated(letters@.take(i as int)),
            decreases letters.len() - i,
        {
            if i > 0 {
                line.push(',');
            }
            line.push(letters[i]);
            i += 1;
            assert(line@ =~= comma_separated(letters@.take(i as int)));
        }
        assert(letters@.take(letters.len() as int) =~= letters@);
        line
    }
}

} // verus!
