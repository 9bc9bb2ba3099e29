//! A minimal word-guessing game: a five-letter answer is drawn from a word
//! list, each guess is scored letter by letter against the answer, and a
//! session ends the moment a guess is all-`Correct` or after the sixth
//! non-winning guess.
pub mod score;
pub mod session;
pub mod words;
