use wordle_core::evaluate::check_word;
use wordle_core::evaluate::CharFeedback;

#[test]
fn near_miss_feedback() {
    let (feedback, full_match) = check_word("crane", "crate");
    assert_eq!(
        feedback,
        vec![
            CharFeedback::Exact,
            CharFeedback::Exact,
            CharFeedback::Exact,
            CharFeedback::Absent,
            CharFeedback::Exact,
        ]
    );
    assert!(!full_match);
}

#[test]
fn full_match_is_all_exact() {
    let (feedback, full_match) = check_word("crane", "crane");
    assert_eq!(feedback, vec![CharFeedback::Exact; 5]);
    assert!(full_match);
}

#[test]
fn no_shared_letters_is_all_absent() {
    let (feedback, full_match) = check_word("crane", "zzzzz");
    assert_eq!(feedback, vec![CharFeedback::Absent; 5]);
    assert!(!full_match);
}

#[test]
fn misplaced_letters_are_present() {
    let (feedback, full_match) = check_word("crane", "ecarn");
    assert_eq!(
        feedback,
        vec![
            CharFeedback::Present,
            CharFeedback::Present,
            CharFeedback::Exact,
            CharFeedback::Present,
            CharFeedback::Present,
        ]
    );
    assert!(!full_match);
}

#[test]
fn repeated_guess_letter_ignores_multiplicity() {
    // The containment test is not frequency-aware: a letter the solution
    // holds once may be marked Present at every position that guesses it.
    let (feedback, full_match) = check_word("crane", "eeeee");
    assert_eq!(
        feedback,
        vec![
            CharFeedback::Present,
            CharFeedback::Present,
            CharFeedback::Present,
            CharFeedback::Present,
            CharFeedback::Exact,
        ]
    );
    assert!(!full_match);
}

#[test]
fn empty_words_match_in_full() {
    let (feedback, full_match) = check_word("", "");
    assert_eq!(feedback, Vec::<CharFeedback>::new());
    assert!(full_match);
}
