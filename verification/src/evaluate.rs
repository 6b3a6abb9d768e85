//! Guess evaluation: comparing a guessed word against the solution word,
//! one character position at a time.
//!
//! A guessed character is `Absent` when it occurs nowhere in the solution,
//! `Exact` when the solution holds the same character at the same position,
//! and `Present` otherwise. The containment test looks at the whole
//! solution word and does not account for letter multiplicity: a repeated
//! guessed letter that the solution holds once may be marked `Present`
//! more than once. That is the intended behaviour, kept as is.

use vstd::prelude::*;

verus! {

/// Per-character feedback for one position of a guess.
#[derive(Clone, Copy, Debug, PartialEq, Eq, Structural)]
pub enum CharFeedback {
    /// The solution holds this character at this very position.
    Exact,
    /// The solution holds this character, but at another position.
    Present,
    /// The solution holds this character nowhere.
    Absent,
}

/// The character `c` occurs somewhere in `word`.
pub open spec fn occurs(word: Seq<char>, c: char) -> bool {
    exists|j: int| 0 <= j < word.len() && word[j] == c
}

/// The feedback owed to position `i` of `guess` against `solution`.
pub open spec fn classify_char(solution: Seq<char>, guess: Seq<char>, i: int) -> CharFeedback {
    if !occurs(solution, guess[i]) {
        CharFeedback::Absent
    } else if solution[i] == guess[i] {
        CharFeedback::Exact
    } else {
        CharFeedback::Present
    }
}

/// The feedback owed to a whole guess: one classification per position.
pub open spec fn feedback_of(solution: Seq<char>, guess: Seq<char>) -> Seq<CharFeedback> {
    Seq::new(guess.len(), |i: int| classify_char(solution, guess, i))
}

/// Every position of a guess falls in exactly one of the three feedback
/// categories; `Exact` means the same character stands at the same
/// position, `Absent` means the character occurs nowhere in the solution,
/// and `Present` means it occurs, though not at this position.
pub proof fn lemma_classification_exhaustive(solution: Seq<char>, guess: Seq<char>, i: int)
    requires
        0 <= i < guess.len(),
        guess.len() == solution.len(),
    ensures
        classify_char(solution, guess, i) is Exact ==> solution[i] == guess[i],
        classify_char(solution, guess, i) is Absent ==> !occurs(solution, guess[i]),
        classify_char(solution, guess, i) is Present ==> occurs(solution, guess[i])
            && solution[i] != guess[i],
{
}

/// A word guessed against itself is marked `Exact` at every position.
pub proof fn lemma_self_guess_all_exact(word: Seq<char>, i: int)
    requires
        0 <= i < word.len(),
    ensures
        classify_char(word, word, i) is Exact,
{
}

/// Whether `c` occurs anywhere in `word`.
fn contains_char(word: &str, c: char) -> (r: bool)
    ensures
        r == occurs(word@, c),
{
    let len: usize = word.unicode_len();
    let mut j: usize = 0;
    while j < len
        invariant
            len == word@.len(),
            j <= len,
            forall|k: int| 0 <= k < j ==> word@[k] != c,
        decreases len - j,
    {
        if word.get_char(j) == c {
            return true;
        }
        j = j + 1;
    }
    false
}

/// Evaluate a guess against the solution word. Returns the per-character
/// feedback together with the full-match flag; the full match holds
/// exactly when the guessed word equals the solution word as a character
/// sequence. Length equality is the caller's duty.
pub fn check_word(solution_word: &str, guessed_word: &str) -> (result: (Vec<CharFeedback>, bool))
    requires
        guessed_word@.len() == solution_word@.len(),
    ensures
        result.0@ == feedback_of(solution_word@, guessed_word@),
        result.1 == (guessed_word@ == solution_word@),
{
    let len: usize = guessed_word.unicode_len();
    let mut feedback: Vec<CharFeedback> = Vec::new();
    let mut all_exact: bool = true;
    let mut i: usize = 0;
    while i < len
        invariant
            len == guessed_word@.len(),
            guessed_word@.len() == solution_word@.len(),
            i <= len,
            feedback@.len() == i,
            forall|k: int| 0 <= k < i ==> feedback@[k]
                == classify_char(solution_word@, guessed_word@, k),
            all_exact == (forall|k: int| 0 <= k < i ==> guessed_word@[k] == solution_word@[k]),
        decreases len - i,
    {
        let g = guessed_word.get_char(i);
        let s = solution_word.get_char(i);
        let class = if !contains_char(solution_word, g) {
            CharFeedback::Absent
        } else if s == g {
            CharFeedback::Exact
        } else {
            CharFeedback::Present
        };
        feedback.push(class);
        all_exact = all_exact && s == g;
        i = i + 1;
    }
    proof {
        assert(feedback@ =~= feedback_of(solution_word@, guessed_word@));
        if all_exact {
            assert(guessed_word@ =~= solution_word@);
        }
    }
    (feedback, all_exact)
}

} // verus!
