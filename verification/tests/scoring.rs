use wordle::score::result_to_emoji;
use wordle::score::score_results;
use wordle::score::test_guess;
use wordle::score::GuessState;
use wordle::score::ResultScore;

#[test]
fn test_guess_correct() {
    let all_correct = vec![
        GuessState::Correct,
        GuessState::Correct,
        GuessState::Correct,
        GuessState::Correct,
        GuessState::Correct,
    ];
    assert_eq!(
        all_correct,
        test_guess(&"rogue".to_string(), &"rogue".to_string(),)
    );
}

#[test]
fn test_guess_all_wrong() {
    let correct_some = vec![
        GuessState::WrongPosCorrectLetter,
        GuessState::WrongPosCorrectLetter,
        GuessState::WrongPosCorrectLetter,
        GuessState::WrongPosCorrectLetter,
        GuessState::WrongPosCorrectLetter,
    ];
    assert_eq!(
        correct_some,
        test_guess(&"rogue".to_string(), &"eurog".to_string())
    );
}

#[test]
fn guessing_the_answer_wins() {
    let verdicts = test_guess(&"rogue".to_string(), &"rogue".to_string());
    assert_eq!(verdicts, vec![GuessState::Correct; 5]);
    assert_eq!(score_results(&verdicts), ResultScore::Done);
}

#[test]
fn all_present_wrong_position_is_incorrect() {
    let verdicts = test_guess(&"rogue".to_string(), &"eurog".to_string());
    assert_eq!(verdicts, vec![GuessState::WrongPosCorrectLetter; 5]);
    assert_eq!(score_results(&verdicts), ResultScore::Incorrect);
}

#[test]
fn absent_letters_all_absent() {
    let verdicts = test_guess(&"zzzzz".to_string(), &"apple".to_string());
    assert_eq!(verdicts, vec![GuessState::WrongPosWrongLetter; 5]);
    assert_eq!(score_results(&verdicts), ResultScore::Incorrect);
}

#[test]
fn mixed_verdicts() {
    let verdicts = test_guess(&"alpha".to_string(), &"apple".to_string());
    assert_eq!(
        verdicts,
        vec![
            GuessState::Correct,
            GuessState::WrongPosCorrectLetter,
            GuessState::Correct,
            GuessState::WrongPosWrongLetter,
            GuessState::WrongPosCorrectLetter,
        ]
    );
}

#[test]
fn duplicate_guessed_letters_each_marked_present() {
    // The answer holds a single 'o', yet both misplaced 'o's of the guess
    // are marked present: matched letters are not consumed.
    let verdicts = test_guess(&"oooff".to_string(), &"rogue".to_string());
    assert_eq!(
        verdicts,
        vec![
            GuessState::WrongPosCorrectLetter,
            GuessState::Correct,
            GuessState::WrongPosCorrectLetter,
            GuessState::WrongPosWrongLetter,
            GuessState::WrongPosWrongLetter,
        ]
    );
}

#[test]
fn one_wrong_verdict_is_not_a_win() {
    let scored = vec![
        GuessState::Correct,
        GuessState::Correct,
        GuessState::WrongPosCorrectLetter,
        GuessState::Correct,
        GuessState::Correct,
    ];
    assert_eq!(score_results(&scored), ResultScore::Incorrect);
    let scored = vec![
        GuessState::Correct,
        GuessState::Correct,
        GuessState::Correct,
        GuessState::Correct,
        GuessState::WrongPosWrongLetter,
    ];
    assert_eq!(score_results(&scored), ResultScore::Incorrect);
}

#[test]
fn all_correct_verdicts_are_a_win() {
    let scored = vec![GuessState::Correct; 5];
    assert_eq!(score_results(&scored), ResultScore::Done);
}

#[test]
fn emoji_summary_one_glyph_per_verdict() {
    let scored = vec![
        GuessState::Correct,
        GuessState::WrongPosCorrectLetter,
        GuessState::WrongPosWrongLetter,
    ];
    assert_eq!(result_to_emoji(&scored), "🟩🟨⬛".to_string());
    assert_eq!(result_to_emoji(&vec![]), String::new());
    assert_eq!(
        result_to_emoji(&vec![GuessState::Correct; 5]),
        "🟩🟩🟩🟩🟩".to_string()
    );
}
