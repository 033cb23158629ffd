//! The guessing session: a secret word and the letters tried against it.

use crate::error::GameError;
use vstd::prelude::*;

verus! {

/// The glyph shown in place of a letter that has not been guessed.
pub const MASK: char = '_';

/// How a guessed letter stands to the secret.
#[derive(Clone, Copy, Debug, PartialEq, Eq, Structural)]
pub enum GuessOutcome {
    /// The letter occurs somewhere in the secret.
    Present,
    /// The letter occurs nowhere in the secret.
    Absent,
}

/// A session as the rules see it: the secret, and every letter tried so far in the
/// order in which it was tried. A letter tried twice stands twice.
pub struct WordView {
    pub secret: Seq<char>,
    pub guessed: Seq<char>,
}

impl WordView {
    /// The session at its start: nothing has been tried.
    pub open spec fn start(secret: Seq<char>) -> WordView {
        WordView { secret, guessed: Seq::empty() }
    }

    /// The session after one more guess. The secret never changes.
    pub open spec fn after_guess(self, c: char) -> WordView {
        WordView { secret: self.secret, guessed: self.guessed.push(c) }
    }

    /// The session after the guesses in `letters`, made one after the other.
    pub open spec fn after_guesses(self, letters: Seq<char>) -> WordView {
        WordView { secret: self.secret, guessed: self.guessed + letters }
    }

    /// What a guess of `c` is answered with. It depends on the secret alone.
    pub open spec fn outcome(self, c: char) -> GuessOutcome {
        if self.secret.contains(c) {
            GuessOutcome::Present
        } else {
            GuessOutcome::Absent
        }
    }

    /// The secret with every letter that was not tried replaced by the mask.
    pub open spec fn masked_display(self) -> Seq<char> {
        Seq::new(
            self.secret.len(),
            |i: int|
                if self.guessed.contains(self.secret[i]) {
                    self.secret[i]
                } else {
                    MASK
                },
        )
    }

    /// The session is solved when the display shows the secret itself.
    pub open spec fn is_solved(self) -> bool {
        self.masked_display() == self.secret
    }

    /// Every letter of the secret has been tried.
    pub open spec fn all_guessed(self) -> bool {
        forall|c: char| self.secret.contains(c) ==> self.guessed.contains(c)
    }
}

/// Whether `c` is one of `letters`.
fn occurs(letters: &Vec<char>, c: char) -> (found: bool)
    ensures
        found == letters@.contains(c),
{
    let mut i: usize = 0;
    while i < letters.len()
        invariant
            i <= letters.len(),
            forall|j: int| 0 <= j < i ==> letters@[j] != c,
        decreases letters.len() - i,
    {
        if letters[i] == c {
            return true;
        }
        i += 1;
    }
    false
}

/// One game: the secret word and the letters the player has tried.
///
/// The secret is never empty and never changes; the letters tried only grow.
#[derive(Debug)]
pub struct Word {
    word: String,
    guessed_chars: Vec<char>,
}

impl View for Word {
    type V = WordView;

    closed spec fn view(&self) -> WordView {
        WordView { secret: self.word@, guessed: self.guessed_chars@ }
    }
}

impl Word {
    #[verifier::type_invariant]
    spec fn has_secret(self) -> bool {
        self.word@.len() > 0
    }

    /// Starts a session on `secret`, with nothing tried yet.
    pub fn new(secret: String) -> (session: Word)
        requires
            secret@.len() > 0,
        ensures
            session@ == WordView::start(secret@),
    {
        Word { word: secret, guessed_chars: Vec::new() }
    }

    /// Starts a session on a word as it came from the word source. An empty
    /// word is no word: it is refused as an unusable answer, and no session is made.
    pub fn try_new(secret: String) -> (made: Result<Word, GameError>)
        ensures
            match made {
                Ok(session) => secret@.len() > 0 && session@ == WordView::start(secret@),
                Err(e) => secret@.len() == 0 && e == GameError::Parse,
            },
    {
        if secret.as_str().is_empty() {
            Err(GameError::Parse)
        } else {
            Ok(Word::new(secret))
        }
    }

    /// The secret itself, as it is shown when the game is over.
    pub fn reveal_secret(&self) -> (secret: &str)
        ensures
            secret@ == self@.secret,
    {
        self.word.as_str()
    }

    /// How many letters the secret has. There is at least one.
    pub fn secret_len(&self) -> (n: usize)
        ensures
            n == self@.secret.len(),
            n > 0,
    {
        proof {
            use_type_invariant(self);
        }
        self.word.as_str().unicode_len()
    }

    /// The letters tried so far, in the order in which they were tried.
    pub fn guessed_list(&self) -> (letters: &Vec<char>)
        ensures
            letters@ == self@.guessed,
    {
        &self.guessed_chars
    }

    /// Whether `c` occurs anywhere in the secret.
    pub fn contains(&self, c: char) -> (found: bool)
        ensures
            found == self@.secret.contains(c),
            found == (self@.outcome(c) == GuessOutcome::Present),
    {
        for a in it: self.word.as_str().chars()
            invariant
                it.seq() == self.word@,
                forall|j: int| 0 <= j < it.index() ==> self.word@[j] != c,
        {
            if a == c {
                assert(self.word@[it.index() as int] == c);
                return true;
            }
        }
        false
    }

    /// Whether `c` has been tried before.
    pub fn has_guessed(&self, c: char) -> (tried: bool)
        ensures
            tried == self@.guessed.contains(c),
    {
        occurs(&self.guessed_chars, c)
    }

    /// The secret as the player may see it: a letter that has been tried shows,
    /// every other position shows the mask.
    pub fn display_word(&self) -> (shown: String)
        ensures
            shown@ == self@.masked_display(),
            shown@.len() == self@.secret.len(),
    {
        let mut shown = String::new();
        for a in it: self.word.as_str().chars()
            invariant
                it.seq() == self.word@,
                shown@ == self@.masked_display().take(it.index() as int),
        {
            if occurs(&self.guessed_chars, a) {
                shown.push(a);
            } else {
                shown.push(MASK);
            }
        }
        shown
    }

    /// Whether the display shows the whole secret.
    pub fn is_solved(&self) -> (solved: bool)
        ensures
            solved == self@.is_solved(),
    {
        for a in it: self.word.as_str().chars()
            invariant
                it.seq() == self.word@,
                forall|j: int|
                    0 <= j < it.index() ==> #[trigger] self@.masked_display()[j] == self.word@[j],
        {
            if a != MASK && !occurs(&self.guessed_chars, a) {
                assert(self@.masked_display()[it.index() as int] != self.word@[it.index() as int]);
                return false;
            }
        }
        assert(self@.masked_display() =~= self@.secret);
        true
    }

    /// Records `c` as tried, behind the letters tried before. A letter already
    /// tried is recorded again.
    pub fn add_guessed_char(&mut self, c: char)
        ensures
            final(self)@ == old(self)@.after_guess(c),
    {
        // A push may unwind, so the list is moved out for it and put back:
        // the session is whole at every point where control may leave.
        proof {
            use_type_invariant(&*self);
        }
        let mut letters: Vec<char> = Vec::new();
        core::mem::swap(&mut self.guessed_chars, &mut letters);
        letters.push(c);
        core::mem::swap(&mut self.guessed_chars, &mut letters);
    }

    /// Takes one guess: records `c` as tried and says whether it occurs in the
    /// secret. A guess is taken whether or not the session is solved already.
    pub fn guess(&mut self, c: char) -> (outcome: GuessOutcome)
        ensures
            final(self)@ == old(self)@.after_guess(c),
            outcome == old(self)@.outcome(c),
    {
        self.add_guessed_char(c);
        if self.contains(c) {
            GuessOutcome::Present
        } else {
            GuessOutcome::Absent
        }
    }
}

} // verus!
