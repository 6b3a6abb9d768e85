//! The attempt state machine of one game session.
//!
//! A session starts with an attempt counter of zero and a budget of
//! `MAX_ATTEMPTS` accepted guesses. A guess that the dictionary does not
//! know costs nothing; a known guess consumes one attempt and either wins
//! the session on a full match or, once the budget is spent, loses it.
//! A solution already guessed in an earlier session wins immediately,
//! before any attempt is made.

use vstd::prelude::*;

use crate::evaluate::CharFeedback;
use crate::evaluate::check_word;
use crate::evaluate::feedback_of;

verus! {

/// How many accepted guesses one session may consume.
pub const MAX_ATTEMPTS: u32 = 6;

/// The state of a game session.
#[derive(Clone, Copy, Debug, PartialEq, Eq, Structural)]
pub enum SessionState {
    /// The session is live and waits for the next guess.
    AwaitingGuess,
    /// A guess matched the solution in full.
    Won,
    /// The attempt budget is spent without a full match.
    Lost,
    /// The solution was already guessed in an earlier session; the
    /// session wins at once, with no attempt consumed.
    AlreadySolved,
}

/// What one recorded attempt came to.
#[derive(Clone, Copy, Debug, PartialEq, Eq, Structural)]
pub enum AttemptOutcome {
    /// The guess is not in the word list; it costs no attempt.
    NotInWordList,
    /// The guess matched the solution in full; the session is won.
    Won,
    /// The guess was known but wrong; one attempt is consumed.
    Incorrect {
        /// How many attempts are still left after this one.
        remaining: u32,
        /// Whether the next guess is the last one (reported in place of
        /// the remaining count).
        last_guess: bool,
        /// Whether no attempt is left at all (reported in addition).
        out_of_guesses: bool,
    },
}

/// One game session: the state and the attempt counter.
#[derive(Clone, Copy, Debug, PartialEq, Eq, Structural)]
pub struct GameSession {
    pub state: SessionState,
    pub counter: u32,
}

/// The session a game starts in, by whether the solution was already
/// guessed in an earlier session.
pub open spec fn initial_session(previously_guessed: bool) -> GameSession {
    GameSession {
        state: if previously_guessed {
            SessionState::AlreadySolved
        } else {
            SessionState::AwaitingGuess
        },
        counter: 0,
    }
}

impl GameSession {
    /// Well-formedness: the counter never exceeds the budget, a live
    /// session still has budget left, a lost one has spent all of it,
    /// and the already-solved shortcut consumed nothing.
    pub open spec fn inv(self) -> bool {
        &&& self.counter <= MAX_ATTEMPTS
        &&& (self.state is AwaitingGuess ==> self.counter < MAX_ATTEMPTS)
        &&& (self.state is Lost ==> self.counter == MAX_ATTEMPTS)
        &&& (self.state is AlreadySolved ==> self.counter == 0)
    }

    /// No further attempt can be recorded.
    pub open spec fn is_terminal(self) -> bool {
        !(self.state is AwaitingGuess)
    }

    /// The session ends as a win the player is told about.
    pub open spec fn reports_win(self) -> bool {
        self.state is Won || self.state is AlreadySolved
    }

    /// Start a session for a solution word. When the solution was already
    /// guessed in an earlier session, the session is won at once and no
    /// attempt will be consumed; otherwise it awaits the first guess.
    pub fn start_session(previously_guessed: bool) -> (s: GameSession)
        ensures
            s == initial_session(previously_guessed),
            s.inv(),
    {
        GameSession {
            state: if previously_guessed {
                SessionState::AlreadySolved
            } else {
                SessionState::AwaitingGuess
            },
            counter: 0,
        }
    }

    /// Record one length-valid guess against a live session. A guess the
    /// dictionary does not know leaves the session unchanged. A known
    /// guess consumes one attempt: a full match wins the session, and a
    /// wrong guess either keeps it live or, when the budget is now spent,
    /// loses it. The outcome carries what is to be reported: the count of
    /// attempts left, whether the next guess is the last, and whether
    /// none is left.
    pub fn record_attempt(&mut self, known_word: bool, full_match: bool) -> (outcome:
        AttemptOutcome)
        requires
            old(self).inv(),
            old(self).state is AwaitingGuess,
        ensures
            final(self).inv(),
            final(self).counter >= old(self).counter,
            !known_word ==> *final(self) == *old(self) && outcome is NotInWordList,
            known_word ==> final(self).counter == old(self).counter + 1,
            known_word && full_match ==> final(self).state is Won && outcome is Won,
            known_word && !full_match ==> {
                &&& (final(self).counter < MAX_ATTEMPTS ==> final(self).state is AwaitingGuess)
                &&& (final(self).counter == MAX_ATTEMPTS ==> final(self).state is Lost)
                &&& (outcome matches AttemptOutcome::Incorrect {
                    remaining,
                    last_guess,
                    out_of_guesses,
                } && remaining == MAX_ATTEMPTS - old(self).counter - 1 && last_guess == (remaining
                    <= 1) && out_of_guesses == (remaining == 0))
            },
    {
        if !known_word {
            return AttemptOutcome::NotInWordList;
        }
        let remaining: u32 = MAX_ATTEMPTS - self.counter - 1;
        self.counter = self.counter + 1;
        if full_match {
            self.state = SessionState::Won;
            AttemptOutcome::Won
        } else {
            if self.counter == MAX_ATTEMPTS {
                self.state = SessionState::Lost;
            }
            AttemptOutcome::Incorrect {
                remaining,
                last_guess: remaining <= 1,
                out_of_guesses: remaining == 0,
            }
        }
    }
}

/// One iteration of the guess loop, for one length-valid attempt: a
/// guess the dictionary does not know costs nothing and is not
/// evaluated; a known guess is evaluated against the solution word and
/// recorded, winning the session exactly when it equals the solution.
pub fn play_attempt(
    session: &mut GameSession,
    solution_word: &str,
    attempt: &str,
    known_word: bool,
) -> (r: (Option<Vec<CharFeedback>>, AttemptOutcome))
    requires
        old(session).inv(),
        old(session).state is AwaitingGuess,
        attempt@.len() == solution_word@.len(),
    ensures
        final(session).inv(),
        r.0 is Some <==> known_word,
        r.0 matches Some(feedback) ==> feedback@ == feedback_of(solution_word@, attempt@),
        !known_word ==> *final(session) == *old(session) && r.1 is NotInWordList,
        known_word ==> final(session).counter == old(session).counter + 1,
        known_word && attempt@ == solution_word@ ==> final(session).state is Won && r.1 is Won,
        known_word && attempt@ != solution_word@ ==> {
            &&& (final(session).counter < MAX_ATTEMPTS ==> final(session).state is AwaitingGuess)
            &&& (final(session).counter == MAX_ATTEMPTS ==> final(session).state is Lost)
            &&& (r.1 matches AttemptOutcome::Incorrect {
                remaining,
                last_guess,
                out_of_guesses,
            } && remaining == MAX_ATTEMPTS - old(session).counter - 1 && last_guess == (remaining
                <= 1) && out_of_guesses == (remaining == 0))
        },
{
    if !known_word {
        let outcome = session.record_attempt(false, false);
        (None, outcome)
    } else {
        let (feedback, full_match) = check_word(solution_word, attempt);
        let outcome = session.record_attempt(true, full_match);
        (Some(feedback), outcome)
    }
}

/// The attempt budget: in every well-formed session the counter never
/// exceeds `MAX_ATTEMPTS`, and it reaches `MAX_ATTEMPTS` only in a
/// session that has ended, won or lost.
pub proof fn lemma_attempt_budget(s: GameSession)
    requires
        s.inv(),
    ensures
        s.counter <= MAX_ATTEMPTS,
        s.counter == MAX_ATTEMPTS ==> s.state is Won || s.state is Lost,
{
}

/// The already-solved shortcut: a session whose solution was guessed in
/// an earlier session starts terminal, reports a win, and has consumed
/// zero attempts.
pub proof fn lemma_already_solved_shortcut()
    ensures
        initial_session(true).counter == 0,
        initial_session(true).is_terminal(),
        initial_session(true).reports_win(),
{
}

} // verus!
