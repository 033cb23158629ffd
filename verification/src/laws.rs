//! What holds of every session, whatever the secret and whatever was tried.

use crate::session::{WordView, MASK};
use vstd::prelude::*;

verus! {

/// The display is as long as the secret, whatever has been tried, and also when
/// nothing has been tried.
pub proof fn law_display_keeps_length(s: WordView)
    ensures
        s.masked_display().len() == s.secret.len(),
        WordView::start(s.secret).masked_display().len() == s.secret.len(),
{
}

/// A session is solved exactly when every position of the secret either holds a
/// letter that was tried or holds the mask glyph itself, which looks the same
/// masked and unmasked.
pub proof fn law_solved_means_nothing_hidden(s: WordView)
    ensures
        s.is_solved() <==> forall|i: int|
            0 <= i < s.secret.len() ==> s.secret[i] == MASK || s.guessed.contains(
                #[trigger] s.secret[i],
            ),
{
    if s.is_solved() {
        assert forall|i: int| 0 <= i < s.secret.len() implies s.secret[i] == MASK
            || s.guessed.contains(#[trigger] s.secret[i]) by {
            assert(s.masked_display()[i] == s.secret[i]);
        }
    }
    if forall|i: int|
        0 <= i < s.secret.len() ==> s.secret[i] == MASK || s.guessed.contains(
            #[trigger] s.secret[i],
        ) {
        assert(s.masked_display() =~= s.secret);
    }
}

/// Once every letter of the secret has been tried the session is solved. For a
/// secret that does not hold the mask glyph the converse holds too: it is solved
/// only then.
pub proof fn law_solved_when_all_guessed(s: WordView)
    ensures
        s.all_guessed() ==> s.is_solved(),
        !s.secret.contains(MASK) ==> (s.is_solved() <==> s.all_guessed()),
{
    law_solved_means_nothing_hidden(s);
    if s.is_solved() && !s.secret.contains(MASK) {
        assert forall|c: char| s.secret.contains(c) implies s.guessed.contains(c) by {
            let i = choose|i: int| 0 <= i < s.secret.len() && s.secret[i] == c;
            assert(s.secret[i] != MASK);
        }
    }
}

/// Guess the distinct letters of a secret one by one, each once, in any order:
/// the session is solved after the last of them and at no point before, and the
/// display then shows the secret. This is stated for a secret without the mask
/// glyph; where the secret holds one, that position never looks hidden.
pub proof fn law_solved_exactly_at_last_letter(secret: Seq<char>, order: Seq<char>, k: int)
    requires
        !secret.contains(MASK),
        order.no_duplicates(),
        forall|c: char| order.contains(c) <==> secret.contains(c),
        0 <= k <= order.len(),
    ensures
        WordView::start(secret).after_guesses(order.take(k)).is_solved() <==> k == order.len(),
        k == order.len() ==> WordView::start(secret).after_guesses(
            order.take(k),
        ).masked_display() == secret,
{
    let s = WordView::start(secret).after_guesses(order.take(k));
    assert(s.guessed =~= order.take(k));
    law_solved_when_all_guessed(s);
    if k == order.len() {
        assert(order.take(k) =~= order);
    } else {
        let missing = order[k];
        assert(order.contains(missing));
        assert(!order.take(k).contains(missing));
    }
}

/// What the display shows depends on which letters were tried, not on their
/// order nor on how often each was tried.
pub proof fn law_order_of_guesses_is_irrelevant(one: WordView, other: WordView)
    requires
        one.secret == other.secret,
        forall|c: char| one.guessed.contains(c) <==> other.guessed.contains(c),
    ensures
        one.masked_display() == other.masked_display(),
        one.is_solved() == other.is_solved(),
{
    assert(one.masked_display() =~= other.masked_display());
}

/// A guess is answered from the secret alone. So the same letter gets the same
/// answer when it is guessed again, at once or after any other guesses.
pub proof fn law_same_guess_same_outcome(s: WordView, between: Seq<char>, c: char)
    ensures
        s.after_guess(c).outcome(c) == s.outcome(c),
        s.after_guess(c).after_guesses(between).outcome(c) == s.outcome(c),
{
}

/// Guessing a run of letters and then one more is guessing the longer run.
pub proof fn law_guesses_chain(s: WordView, letters: Seq<char>, c: char)
    ensures
        s.after_guesses(letters).after_guess(c) == s.after_guesses(letters.push(c)),
        s.after_guesses(Seq::empty()) == s,
{
    assert(s.guessed + letters.push(c) =~= (s.guessed + letters).push(c));
    assert(s.guessed + Seq::<char>::empty() =~= s.guessed);
}

} // verus!
