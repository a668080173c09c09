//! A self-paced quiz trainer: a fixed sequence of questions, each under a
//! per-question time limit, with graduated hints while time remains and the
//! answer revealed once time is up.
//!
//! The library is the quiz core: the per-question [`timer::Timer`], the
//! [`quiz_state::QuizState`] state machine that owns question order and
//! position, the [`quiz_state::HintState`] that tracks hint progression, and
//! the [`app::App`] coordinator that ties them together. Time is handled as a
//! plain number of seconds read once per event from a monotonic clock and
//! passed in by the caller, so every operation is deterministic and every
//! query is replayable. Rendering and input polling live outside the core.

pub mod app;
pub mod models;
pub mod question_repository;
pub mod quiz_state;
pub mod timer;
