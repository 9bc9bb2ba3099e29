//! One play-through: the answer word, the remaining tries, the history of
//! scored guesses, and the turn/termination state machine over them.
use vstd::prelude::*;

use crate::score::GuessState;
use crate::score::ResultScore;
use crate::score::is_winning;
use crate::score::score_of;
use crate::score::score_results;
use crate::score::test_guess;

verus! {

/// Where the session stands: still taking guesses, won, or exhausted.
#[derive(Clone, Copy, Debug, PartialEq, Eq, Structural)]
pub enum SessionStatus {
    InProgress,
    Won,
    OutOfTries,
}

/// How many tries a session starts with.
pub const STARTING_TRIES: u8 = 6;

/// One session of the game.
pub struct Session {
    /// The answer word, chosen once, never changed.
    pub answer: String,
    /// Tries left; each accepted guess consumes one.
    pub remaining: u8,
    /// Every scored guess so far, oldest first, never mutated retroactively.
    pub history: Vec<Vec<GuessState>>,
    /// Whether the session is still running, won, or exhausted.
    pub status: SessionStatus,
}

impl Session {
    /// The history as a sequence of verdict sequences.
    pub open spec fn history_view(self) -> Seq<Seq<GuessState>> {
        self.history@.map_values(|entry: Vec<GuessState>| entry@)
    }

    /// Well-formedness: the answer has five letters, each accepted guess
    /// consumed one of the six tries and left one scored guess of five
    /// verdicts — the score of some five-letter guess against the answer —
    /// a running session has a try left, an exhausted one has none, and a
    /// won one ends in an all-`Correct` scored guess.
    pub open spec fn wf(self) -> bool {
        &&& self.answer@.len() == 5
        &&& self.remaining <= STARTING_TRIES
        &&& self.history@.len() + self.remaining == STARTING_TRIES
        &&& (forall|k: int| 0 <= k < self.history@.len() ==> self.history@[k]@.len() == 5)
        &&& (forall|k: int|
            0 <= k < self.history@.len() ==> exists|g: Seq<char>|
                g.len() == 5 && (#[trigger] self.history@[k])@ == score_of(g, self.answer@))
        &&& (self.status == SessionStatus::InProgress ==> self.remaining > 0)
        &&& (self.status == SessionStatus::OutOfTries ==> self.remaining == 0)
        &&& (self.status == SessionStatus::Won ==> self.history@.len() > 0 && is_winning(
            self.history@.last()@,
        ))
    }

    /// Start a session on the given answer word, with six tries, no history
    /// and the game still to play.
    pub fn new(answer: String) -> (s: Session)
        requires
            answer@.len() == 5,
        ensures
            s.wf(),
            s.answer@ == answer@,
            s.remaining == STARTING_TRIES,
            s.history@.len() == 0,
            s.status == SessionStatus::InProgress,
    {
        Session { answer, remaining: STARTING_TRIES, history: Vec::new(), status: SessionStatus::InProgress }
    }

    /// Submit one guess to a running session. A guess of any length other
    /// than five is rejected: nothing changes and no try is consumed.
    /// An accepted guess consumes one try and appends its scored guess to
    /// the history; the session then stands at `Won` when the scored guess
    /// is all-`Correct`, at `OutOfTries` when the last try was consumed
    /// without a win, and at `InProgress` otherwise.
    pub fn submit_guess(&mut self, guess: &String) -> (accepted: bool)
        requires
            old(self).wf(),
            old(self).status == SessionStatus::InProgress,
        ensures
            final(self).wf(),
            final(self).answer@ == old(self).answer@,
            accepted == (guess@.len() == 5),
            !accepted ==> *final(self) == *old(self),
            accepted ==> final(self).remaining == old(self).remaining - 1,
            accepted ==> final(self).history_view() == old(self).history_view().push(
                score_of(guess@, old(self).answer@),
            ),
            accepted ==> final(self).status == (if is_winning(
                score_of(guess@, old(self).answer@),
            ) {
                SessionStatus::Won
            } else if old(self).remaining == 1 {
                SessionStatus::OutOfTries
            } else {
                SessionStatus::InProgress
            }),
    {
        if guess.as_str().unicode_len() != 5 {
            return false;
        }
        let scored = test_guess(guess, &self.answer);
        self.remaining = self.remaining - 1;
        self.history.push(scored);
        proof {
            assert(self.history_view() =~= old(self).history_view().push(
                score_of(guess@, old(self).answer@),
            ));
            assert forall|k: int| 0 <= k < self.history@.len() implies exists|g: Seq<char>|
                g.len() == 5 && (#[trigger] self.history@[k])@ == score_of(
                    g,
                    self.answer@,
                ) by {
                if k < old(self).history@.len() {
                    assert(self.history@[k] == old(self).history@[k]);
                } else {
                    assert(guess@.len() == 5 && self.history@[k]@ == score_of(
                        guess@,
                        self.answer@,
                    ));
                }
            }
        }
        let last = self.history.len() - 1;
        if score_results(&self.history[last]) == ResultScore::Done {
            self.status = SessionStatus::Won;
        } else if self.remaining == 0 {
            self.status = SessionStatus::OutOfTries;
        }
        true
    }
}

/// An exhausted session always carries a full history: whenever a
/// well-formed session stands at `OutOfTries`, all six tries were consumed
/// and six scored guesses were recorded.
pub proof fn lemma_out_of_tries_full_history(s: Session)
    requires
        s.wf(),
        s.status == SessionStatus::OutOfTries,
    ensures
        s.history@.len() == STARTING_TRIES,
        s.remaining == 0,
{
}

} // verus!
