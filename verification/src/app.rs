//! The coordinator: one [`App`] owns the quiz session and the hint tracker
//! as siblings and sequences them.
//!
//! It enforces the two cross-component rules: hints may be requested or
//! advanced only while time remains, and whenever the session actually moves
//! to a new question the hint tracker is reset in the same logical step. Like
//! the rest of the core it takes the clock reading as a plain value; the
//! event loop around it reads input, reads the clock once per event, calls
//! in, and renders the resulting snapshot read-only.

use crate::models::QuizError;
use crate::question_repository::QuestionRepository;
use crate::quiz_state::{HintState, QuizState};
use vstd::prelude::*;

verus! {

/// The quiz session and the hint tracker, coordinated.
#[derive(Debug)]
pub struct App {
    pub quiz_state: QuizState,
    pub hint_state: HintState,
}

impl App {
    /// The coordinator is well-formed exactly when its session is.
    pub open spec fn wf(self) -> bool {
        self.quiz_state.wf()
    }

    /// The state after one hint request at instant `now`: ignored once time
    /// has expired; otherwise the first request reveals the first hint and
    /// each further request steps to the next one, stopping at the last. One
    /// user-facing gesture covers both revealing and advancing. The session
    /// itself is never touched.
    pub open spec fn spec_handle_hint(self, now: u64) -> App {
        if self.quiz_state.timer.spec_is_expired(now) {
            self
        } else if !self.hint_state.visible {
            App {
                quiz_state: self.quiz_state,
                hint_state: HintState { visible: true, index: self.hint_state.index },
            }
        } else {
            App {
                quiz_state: self.quiz_state,
                hint_state: self.hint_state.spec_next_hint(
                    self.quiz_state.questions@[self.quiz_state.current_index as int].hints@.len()
                        as usize,
                ),
            }
        }
    }

    /// The state after one next-question request at instant `now`: the
    /// session advances (a no-op unless expired, and on the last question),
    /// and exactly when the position actually changed the hint tracker is
    /// reset in the same step.
    pub open spec fn spec_handle_next(self, now: u64) -> App {
        let advanced = self.quiz_state.spec_advance(now);
        if advanced.current_index != self.quiz_state.current_index {
            App { quiz_state: advanced, hint_state: HintState { visible: false, index: 0 } }
        } else {
            App { quiz_state: advanced, hint_state: self.hint_state }
        }
    }

    /// Builds a coordinator over the questions the given source supplies,
    /// starting at the first question at instant `now` with hints hidden.
    /// Fails exactly as [`QuizState::new`] does on the supplied sequence.
    pub fn new<R: QuestionRepository>(repository: &R, now: u64) -> (r: Result<App, QuizError>)
        ensures
            r matches Ok(app) ==> {
                &&& app.wf()
                &&& app.quiz_state.current_index == 0
                &&& app.quiz_state.timer.started_at == now
                &&& app.hint_state == (HintState { visible: false, index: 0 })
            },
            r matches Err(e) ==> (e == QuizError::EmptyQuestionBank || e
                == QuizError::InvalidDuration),
    {
        let questions = repository.get_questions();
        let quiz_state = match QuizState::new(questions, now) {
            Ok(s) => s,
            Err(e) => {
                return Err(e);
            },
        };
        Ok(App { quiz_state, hint_state: HintState::new() })
    }

    /// Handles the "request/advance hint" action at instant `now`, gated on
    /// the core rule that hints flow only while time remains.
    pub fn handle_hint_request(&mut self, now: u64)
        requires
            old(self).wf(),
        ensures
            *final(self) == old(self).spec_handle_hint(now),
            final(self).wf(),
            final(self).quiz_state == old(self).quiz_state,
            old(self).quiz_state.timer.spec_is_expired(now) ==> *final(self) == *old(self),
            !old(self).quiz_state.timer.spec_is_expired(now) ==> final(self).hint_state.visible,
    {
        if !self.quiz_state.timer().is_expired(now) {
            if !self.hint_state.show_hints() {
                self.hint_state.enable_hints();
            } else {
                let max_hints = self.quiz_state.current_question().hints.len();
                self.hint_state.next_hint(max_hints);
            }
        }
    }

    /// Handles the "next question" action at instant `now`: the session
    /// advances only if expired and not on the last question, and the hint
    /// tracker is reset exactly when the position changed.
    pub fn handle_next_question(&mut self, now: u64)
        requires
            old(self).wf(),
        ensures
            *final(self) == old(self).spec_handle_next(now),
            final(self).wf(),
            !old(self).quiz_state.timer.spec_is_expired(now) ==> *final(self) == *old(self),
            old(self).quiz_state.spec_is_last() ==> *final(self) == *old(self),
            (old(self).quiz_state.timer.spec_is_expired(now) && !old(self).quiz_state.spec_is_last())
                ==> {
                &&& final(self).quiz_state.current_index == old(self).quiz_state.current_index + 1
                &&& final(self).hint_state == (HintState { visible: false, index: 0 })
            },
    {
        let before = self.quiz_state.current_index();
        self.quiz_state.next_question(now);
        if self.quiz_state.current_index() != before {
            self.hint_state.reset();
        }
    }
}

} // verus!
