//! The data the quiz core works on: the immutable [`Question`] record and the
//! small error taxonomy of session construction.

use vstd::prelude::*;

verus! {

/// A single quiz question: an informational id, the prompt, an ordered list
/// of graduated hints (possibly empty), the canonical answer (possibly
/// multi-line), and the per-question time limit in seconds.
///
/// Questions are immutable values: the session holds them read-only and never
/// mutates one.
#[derive(Debug)]
pub struct Question {
    pub id: usize,
    pub question: String,
    pub hints: Vec<String>,
    pub answer: String,
    pub time_limit_secs: u64,
}

/// Everything that can go wrong in the core. The core is pure in-memory
/// logic, so the taxonomy is small and both variants are construction-time
/// errors; every other operation is total and no-ops on out-of-range
/// requests.
#[derive(Debug, Clone, Copy, PartialEq, Eq)]
pub enum QuizError {
    /// The question source supplied zero questions: fatal to session
    /// construction, since a quiz cannot exist with no questions.
    EmptyQuestionBank,
    /// A question carries a non-positive time limit: a data error, rejected
    /// at construction time.
    InvalidDuration,
}

impl QuizError {
    /// A human-readable description of the error.
    pub fn describe(&self) -> (r: &'static str)
        ensures
            *self == QuizError::EmptyQuestionBank ==> r@ == "the question bank is empty"@,
            *self == QuizError::InvalidDuration ==> r@ == "a question has a non-positive time limit"@,
    {
        match self {
            QuizError::EmptyQuestionBank => "the question bank is empty",
            QuizError::InvalidDuration => "a question has a non-positive time limit",
        }
    }
}

} // verus!
