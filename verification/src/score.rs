//! Letter-by-letter scoring of a guess against the answer word, and the
//! classification of a scored guess as a win or not.
use vstd::prelude::*;

verus! {

/// Verdict for a single guessed letter.
#[derive(Clone, Copy, Debug, PartialEq, Eq, Structural)]
pub enum GuessState {
    /// The letter stands at the same position in the answer.
    Correct,
    /// The letter occurs in the answer, but not at this position.
    WrongPosCorrectLetter,
    /// The letter does not occur in the answer at all.
    WrongPosWrongLetter,
}

/// Outcome of one scored guess: a win, or not.
#[derive(PartialEq, Eq, Debug, Clone, Copy, Structural)]
pub enum ResultScore {
    Done,
    Incorrect,
}

/// The verdict owed to position `i`: `Correct` on a positional match, else
/// `WrongPosCorrectLetter` when the letter occurs anywhere in the answer,
/// else `WrongPosWrongLetter`.
///
/// A letter of the answer is never consumed by a match, so a letter guessed
/// twice is marked present twice even when the answer holds it only once.
pub open spec fn verdict_at(guess: Seq<char>, answer: Seq<char>, i: int) -> GuessState {
    if guess[i] == answer[i] {
        GuessState::Correct
    } else if answer.contains(guess[i]) {
        GuessState::WrongPosCorrectLetter
    } else {
        GuessState::WrongPosWrongLetter
    }
}

/// The full scored guess: one verdict per position, in guess order.
pub open spec fn score_of(guess: Seq<char>, answer: Seq<char>) -> Seq<GuessState> {
    Seq::new(5, |i: int| verdict_at(guess, answer, i))
}

/// A scored guess wins exactly when every verdict in it is `Correct`.
pub open spec fn is_winning(result: Seq<GuessState>) -> bool {
    forall|i: int| 0 <= i < result.len() ==> result[i] == GuessState::Correct
}

/// Whether `c` occurs anywhere in `answer`.
fn answer_contains(answer: &String, c: char) -> (r: bool)
    ensures
        r == answer@.contains(c),
{
    let n = answer.as_str().unicode_len();
    let mut i: usize = 0;
    while i < n
        invariant
            n == answer@.len(),
            i <= n,
            forall|j: int| 0 <= j < i ==> answer@[j] != c,
        decreases n - i,
    {
        if answer.as_str().get_char(i) == c {
            proof {
                assert(answer@[i as int] == c);
            }
            return true;
        }
        i += 1;
    }
    false
}

/// Score a five-letter guess against a five-letter answer, giving one
/// verdict per position.
pub fn test_guess(input: &String, answer: &String) -> (result: Vec<GuessState>)
    requires
        input@.len() == 5,
        answer@.len() == 5,
    ensures
        result@.len() == 5,
        result@ == score_of(input@, answer@),
{
    let mut result: Vec<GuessState> = Vec::new();
    let mut i: usize = 0;
    while i < 5
        invariant
            input@.len() == 5,
            answer@.len() == 5,
            i <= 5,
            result@.len() == i,
            forall|j: int| 0 <= j < i ==> result@[j] == verdict_at(input@, answer@, j),
        decreases 5 - i,
    {
        let g = input.as_str().get_char(i);
        let v = if g == answer.as_str().get_char(i) {
            GuessState::Correct
        } else if answer_contains(answer, g) {
            GuessState::WrongPosCorrectLetter
        } else {
            GuessState::WrongPosWrongLetter
        };
        result.push(v);
        i += 1;
    }
    proof {
        assert(result@ =~= score_of(input@, answer@));
    }
    result
}

/// Classify a scored guess: `Done` exactly when all five verdicts are
/// `Correct`, `Incorrect` otherwise.
pub fn score_results(result: &Vec<GuessState>) -> (r: ResultScore)
    requires
        result@.len() == 5,
    ensures
        r == ResultScore::Done <==> is_winning(result@),
{
    let mut i: usize = 0;
    while i < result.len()
        invariant
            result@.len() == 5,
            i <= 5,
            forall|j: int| 0 <= j < i ==> result@[j] == GuessState::Correct,
        decreases 5 - i,
    {
        if !(result[i] == GuessState::Correct) {
            return ResultScore::Incorrect;
        }
        i += 1;
    }
    ResultScore::Done
}

/// The display glyph for one verdict.
pub open spec fn emoji_of(v: GuessState) -> char {
    match v {
        GuessState::Correct => '🟩',
        GuessState::WrongPosCorrectLetter => '🟨',
        GuessState::WrongPosWrongLetter => '⬛',
    }
}

/// Render a scored guess as its compact per-letter summary: one glyph per
/// verdict, in guess order.
pub fn result_to_emoji(result: &Vec<GuessState>) -> (s: String)
    ensures
        s@ == result@.map_values(|v: GuessState| emoji_of(v)),
{
    let mut s = String::new();
    let mut i: usize = 0;
    while i < result.len()
        invariant
            i <= result@.len(),
            s@ == result@.take(i as int).map_values(|v: GuessState| emoji_of(v)),
        decreases result@.len() - i,
    {
        let glyph: &str = match result[i] {
            GuessState::Correct => "🟩",
            GuessState::WrongPosCorrectLetter => "🟨",
            GuessState::WrongPosWrongLetter => "⬛",
        };
        s.append(glyph);
        proof {
            reveal_strlit("🟩");
            reveal_strlit("🟨");
            reveal_strlit("⬛");
            assert(glyph@ =~= seq![emoji_of(result@[i as int])]);
            assert(s@ =~= result@.take(i + 1).map_values(|v: GuessState| emoji_of(v)));
        }
        i += 1;
    }
    proof {
        assert(result@.take(result@.len() as int) =~= result@);
    }
    s
}

/// Scoring any five-letter word against itself yields five `Correct`
/// verdicts, and such a scored guess is a win.
pub proof fn lemma_score_self_all_correct(a: Seq<char>)
    requires
        a.len() == 5,
    ensures
        score_of(a, a) =~= Seq::new(5, |i: int| GuessState::Correct),
        is_winning(score_of(a, a)),
{
}

/// A positional match is always scored `Correct`, never
/// `WrongPosCorrectLetter` or `WrongPosWrongLetter`.
pub proof fn lemma_positional_match_is_correct(guess: Seq<char>, answer: Seq<char>, i: int)
    requires
        guess.len() == 5,
        answer.len() == 5,
        0 <= i < 5,
        guess[i] == answer[i],
    ensures
        score_of(guess, answer)[i] == GuessState::Correct,
{
}

} // verus!
