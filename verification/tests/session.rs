use hangman::error::GameError;
use hangman::session::{GuessOutcome, Word, MASK};

fn session(secret: &str) -> Word {
    Word::new(secret.to_string())
}

#[test]
fn mask_is_an_underscore() {
    assert_eq!(MASK, '_');
}

#[test]
fn apple_is_revealed_letter_by_letter() {
    let mut w = session("apple");
    assert_eq!(w.display_word(), "_____");
    assert!(!w.is_solved());

    assert_eq!(w.guess('p'), GuessOutcome::Present);
    assert_eq!(w.display_word(), "_pp__");
    assert!(!w.is_solved());

    assert_eq!(w.guess('a'), GuessOutcome::Present);
    assert_eq!(w.display_word(), "app__");
    assert!(!w.is_solved());

    assert_eq!(w.guess('l'), GuessOutcome::Present);
    assert_eq!(w.display_word(), "appl_");
    assert!(!w.is_solved());

    assert_eq!(w.guess('e'), GuessOutcome::Present);
    assert_eq!(w.display_word(), "apple");
    assert!(w.is_solved());
}

#[test]
fn absent_letter_leaves_cat_hidden() {
    let mut w = session("cat");
    assert_eq!(w.guess('x'), GuessOutcome::Absent);
    assert_eq!(w.display_word(), "___");
    assert!(!w.is_solved());
    assert_eq!(w.guessed_list(), &vec!['x']);
}

#[test]
fn empty_word_makes_no_session() {
    match Word::try_new(String::new()) {
        Ok(_) => panic!("a session was made on an empty word"),
        Err(e) => {
            assert_eq!(e, GameError::Parse);
            assert!(e.is_fatal());
        }
    }
}

#[test]
fn usable_word_makes_a_fresh_session() {
    let w = Word::try_new("cat".to_string()).expect("a word of three letters");
    assert_eq!(w.reveal_secret(), "cat");
    assert_eq!(w.secret_len(), 3);
    assert!(w.guessed_list().is_empty());
    assert_eq!(w.display_word(), "___");
}

#[test]
fn one_letter_word() {
    let mut w = session("a");
    assert_eq!(w.secret_len(), 1);
    assert_eq!(w.display_word(), "_");
    assert_eq!(w.guess('a'), GuessOutcome::Present);
    assert_eq!(w.display_word(), "a");
    assert!(w.is_solved());
}

#[test]
fn display_is_as_long_as_the_secret() {
    let mut w = session("banana");
    assert_eq!(w.display_word().chars().count(), 6);
    for c in ['z', 'a', 'a', 'n', 'q', 'b'] {
        w.guess(c);
        assert_eq!(w.display_word().chars().count(), 6);
    }
    assert_eq!(w.display_word(), "banana");
}

#[test]
fn length_counts_letters_not_bytes() {
    let mut w = session("été");
    assert_eq!(w.secret_len(), 3);
    assert_eq!(w.display_word(), "___");
    assert_eq!(w.guess('é'), GuessOutcome::Present);
    assert_eq!(w.display_word(), "é_é");
    assert_eq!(w.guess('e'), GuessOutcome::Absent);
    assert_eq!(w.guess('t'), GuessOutcome::Present);
    assert_eq!(w.display_word(), "été");
    assert!(w.is_solved());
}

#[test]
fn same_guess_gets_the_same_answer() {
    let mut w = session("apple");
    assert_eq!(w.guess('p'), GuessOutcome::Present);
    assert_eq!(w.guess('p'), GuessOutcome::Present);
    assert_eq!(w.guess('x'), GuessOutcome::Absent);
    assert_eq!(w.guess('a'), GuessOutcome::Present);
    assert_eq!(w.guess('x'), GuessOutcome::Absent);
    assert_eq!(w.guess('p'), GuessOutcome::Present);
}

#[test]
fn repeated_guesses_are_all_recorded() {
    let mut w = session("apple");
    w.guess('p');
    w.guess('x');
    w.guess('p');
    assert_eq!(w.guessed_list(), &vec!['p', 'x', 'p']);
    assert_eq!(w.display_word(), "_pp__");
}

#[test]
fn add_guessed_char_records_without_answering() {
    let mut w = session("cat");
    assert!(!w.has_guessed('c'));
    w.add_guessed_char('c');
    assert!(w.has_guessed('c'));
    assert!(!w.has_guessed('a'));
    assert_eq!(w.guessed_list(), &vec!['c']);
    assert_eq!(w.display_word(), "c__");
}

#[test]
fn contains_looks_at_the_secret_only() {
    let mut w = session("cat");
    assert!(w.contains('c'));
    assert!(w.contains('t'));
    assert!(!w.contains('x'));
    assert!(!w.contains('C'));
    w.guess('x');
    assert!(!w.contains('x'));
    assert_eq!(w.reveal_secret(), "cat");
}

#[test]
fn solved_only_after_the_last_distinct_letter_in_any_order() {
    let orders: [[char; 4]; 6] = [
        ['a', 'p', 'l', 'e'],
        ['e', 'l', 'p', 'a'],
        ['p', 'a', 'e', 'l'],
        ['l', 'e', 'a', 'p'],
        ['p', 'l', 'a', 'e'],
        ['e', 'a', 'l', 'p'],
    ];
    for order in orders {
        let mut w = session("apple");
        for (k, c) in order.iter().enumerate() {
            assert!(!w.is_solved());
            assert_ne!(w.display_word(), "apple");
            assert_eq!(w.guess(*c), GuessOutcome::Present);
            assert_eq!(w.is_solved(), k == 3);
        }
        assert_eq!(w.display_word(), "apple");
    }
}

#[test]
fn wrong_guesses_in_between_change_nothing() {
    let mut w = session("cat");
    for c in ['x', 'c', 'y', 'y', 'a', 'z'] {
        w.guess(c);
        assert!(!w.is_solved());
    }
    assert_eq!(w.display_word(), "ca_");
    w.guess('t');
    assert!(w.is_solved());
    assert_eq!(w.display_word(), "cat");
}

#[test]
fn guesses_are_taken_after_the_word_is_solved() {
    let mut w = session("aa");
    assert_eq!(w.guess('a'), GuessOutcome::Present);
    assert!(w.is_solved());
    assert_eq!(w.guess('b'), GuessOutcome::Absent);
    assert_eq!(w.guess('a'), GuessOutcome::Present);
    assert!(w.is_solved());
    assert_eq!(w.guessed_list(), &vec!['a', 'b', 'a']);
    assert_eq!(w.display_word(), "aa");
}

#[test]
fn mask_glyph_in_the_secret_never_looks_hidden() {
    let mut w = session("a_b");
    assert_eq!(w.display_word(), "___");
    assert!(!w.is_solved());
    w.guess('a');
    assert_eq!(w.display_word(), "a__");
    w.guess('b');
    assert_eq!(w.display_word(), "a_b");
    assert!(w.is_solved());
    assert!(!w.has_guessed('_'));
}

#[test]
fn letters_are_told_apart_by_case() {
    let mut w = session("Anna");
    assert_eq!(w.guess('a'), GuessOutcome::Present);
    assert_eq!(w.display_word(), "___a");
    assert_eq!(w.guess('n'), GuessOutcome::Present);
    assert!(!w.is_solved());
    assert_eq!(w.guess('A'), GuessOutcome::Present);
    assert_eq!(w.display_word(), "Anna");
    assert!(w.is_solved());
}

#[test]
fn only_a_malformed_input_is_no_fatal_error() {
    assert!(GameError::Fetch.is_fatal());
    assert!(GameError::Parse.is_fatal());
    assert!(!GameError::Input.is_fatal());
}
