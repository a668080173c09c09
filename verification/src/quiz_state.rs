//! The quiz session state machine and the hint tracker.
//!
//! [`QuizState`] owns the question sequence, the current position and the
//! per-question [`Timer`]; its one mutating operation, [`QuizState::next_question`],
//! is gated on timer expiry: a learner cannot skip ahead while time remains.
//! [`HintState`] tracks hint visibility and progression independently, so it
//! can be reset without touching timing or position; the coordinator resets
//! it in lockstep with session advancement.

use crate::models::{Question, QuizError};
use crate::timer::Timer;
use vstd::prelude::*;

verus! {

/// The quiz session: a non-empty question sequence fixed for the session
/// lifetime, a 0-based current position, and a timer bound one-to-one to the
/// current question.
#[derive(Debug)]
pub struct QuizState {
    pub questions: Vec<Question>,
    pub current_index: usize,
    pub timer: Timer,
}

impl QuizState {
    /// The session invariant: the sequence is non-empty, every question's
    /// time limit is positive, the position is in range, and the timer's
    /// limit is the current question's.
    pub open spec fn wf(self) -> bool {
        &&& self.questions@.len() > 0
        &&& self.current_index < self.questions@.len()
        &&& (forall|i: int|
            0 <= i < self.questions@.len() ==> (#[trigger] self.questions@[i]).time_limit_secs
                > 0)
        &&& self.timer.limit == self.questions@[self.current_index as int].time_limit_secs
    }

    /// Whether the current question is the last one.
    pub open spec fn spec_is_last(self) -> bool {
        self.current_index as int == self.questions@.len() - 1
    }

    /// The state after one advance request at instant `now`: a no-op unless
    /// the timer has expired and a question remains; otherwise the position
    /// moves forward by one and a fresh timer is bound to the new question.
    pub open spec fn spec_advance(self, now: u64) -> QuizState {
        if self.timer.spec_is_expired(now) && !self.spec_is_last() {
            QuizState {
                questions: self.questions,
                current_index: (self.current_index + 1) as usize,
                timer: Timer {
                    started_at: now,
                    limit: self.questions@[self.current_index + 1].time_limit_secs,
                },
            }
        } else {
            self
        }
    }

    /// Builds a session over `questions`, starting at the first question with
    /// a fresh timer bound to its limit at instant `now`.
    ///
    /// Fails with [`QuizError::EmptyQuestionBank`] on an empty sequence and
    /// with [`QuizError::InvalidDuration`] when any question carries a zero
    /// time limit; succeeds exactly otherwise.
    pub fn new(questions: Vec<Question>, now: u64) -> (r: Result<QuizState, QuizError>)
        ensures
            (questions@.len() > 0 && (forall|i: int|
                0 <= i < questions@.len() ==> (#[trigger] questions@[i]).time_limit_secs > 0))
                <==> r is Ok,
            questions@.len() == 0 <==> r == Err::<QuizState, QuizError>(
                QuizError::EmptyQuestionBank,
            ),
            (questions@.len() > 0 && (exists|i: int|
                0 <= i < questions@.len() && (#[trigger] questions@[i]).time_limit_secs == 0))
                <==> r == Err::<QuizState, QuizError>(QuizError::InvalidDuration),
            r matches Ok(s) ==> {
                &&& s.wf()
                &&& s.questions == questions
                &&& s.current_index == 0
                &&& s.timer == (Timer { started_at: now, limit: questions@[0].time_limit_secs })
            },
    {
        if questions.len() == 0 {
            return Err(QuizError::EmptyQuestionBank);
        }
        let mut i: usize = 0;
        while i < questions.len()
            invariant
                0 <= i <= questions@.len(),
                forall|j: int| 0 <= j < i ==> (#[trigger] questions@[j]).time_limit_secs > 0,
            decreases questions@.len() - i,
        {
            if questions[i].time_limit_secs == 0 {
                return Err(QuizError::InvalidDuration);
            }
            i = i + 1;
        }
        let timer = Timer::new(questions[0].time_limit_secs, now);
        Ok(QuizState { questions, current_index: 0, timer })
    }

    /// The question at the current position; always valid given the
    /// invariant.
    pub fn current_question(&self) -> (q: &Question)
        requires
            self.wf(),
        ensures
            *q == self.questions@[self.current_index as int],
    {
        &self.questions[self.current_index]
    }

    /// The 0-based current position.
    pub fn current_index(&self) -> (r: usize)
        ensures
            r == self.current_index,
    {
        self.current_index
    }

    /// How many questions the session holds.
    pub fn total_questions(&self) -> (r: usize)
        ensures
            r == self.questions@.len(),
    {
        self.questions.len()
    }

    /// Read-only access to the timer bound to the current question.
    pub fn timer(&self) -> (t: &Timer)
        ensures
            *t == self.timer,
    {
        &self.timer
    }

    /// Whether the current question is the last one. True immediately for a
    /// single-question session.
    pub fn is_last_question(&self) -> (r: bool)
        requires
            self.wf(),
        ensures
            r == self.spec_is_last(),
    {
        self.current_index >= self.questions.len() - 1
    }

    /// Advances to the next question, gated on expiry: a no-op while time
    /// remains on the current question, and a no-op on the last question
    /// however often it is called. When it does advance, the timer is
    /// replaced by a fresh one bound to the new question's limit at `now`.
    pub fn next_question(&mut self, now: u64)
        requires
            old(self).wf(),
        ensures
            *final(self) == old(self).spec_advance(now),
            final(self).wf(),
            !old(self).timer.spec_is_expired(now) ==> *final(self) == *old(self),
            old(self).spec_is_last() ==> *final(self) == *old(self),
            (old(self).timer.spec_is_expired(now) && !old(self).spec_is_last()) ==> {
                &&& final(self).current_index == old(self).current_index + 1
                &&& final(self).questions == old(self).questions
                &&& final(self).timer == (Timer {
                    started_at: now,
                    limit: old(self).questions@[old(self).current_index + 1].time_limit_secs,
                })
            },
    {
        if self.timer.is_expired(now) && !self.is_last_question() {
            proof {
                assert(self.questions@.len() == self.questions.len());
            }
            self.current_index = self.current_index + 1;
            let new_limit = self.questions[self.current_index].time_limit_secs;
            self.timer.reset(new_limit, now);
        }
    }
}

impl QuizState {
    /// The state after a sequence of advance requests, one per clock reading
    /// in `nows`, applied left to right.
    pub open spec fn spec_advance_seq(self, nows: Seq<u64>) -> QuizState
        decreases nows.len(),
    {
        if nows.len() == 0 {
            self
        } else {
            self.spec_advance(nows[0]).spec_advance_seq(nows.drop_first())
        }
    }

    /// Whether each advance request in `nows` arrives while the timer current
    /// at that point has expired — that is, each request is made "exactly
    /// while expired".
    pub open spec fn all_expired_along(self, nows: Seq<u64>) -> bool
        decreases nows.len(),
    {
        nows.len() == 0 || (self.timer.spec_is_expired(nows[0]) && self.spec_advance(
            nows[0],
        ).all_expired_along(nows.drop_first()))
    }
}

/// One advance request preserves the session invariant, never touches the
/// question sequence, and moves the position forward by at most one.
pub proof fn lemma_advance_preserves_wf(s: QuizState, now: u64)
    requires
        s.wf(),
    ensures
        s.spec_advance(now).wf(),
        s.spec_advance(now).questions == s.questions,
        s.spec_advance(now).current_index == s.current_index || s.spec_advance(now).current_index
            == s.current_index + 1,
{
    assert(s.questions@.len() == s.questions.len());
}

/// Law: on the last question the session is finished — any number of advance
/// requests, expired or not, leaves the whole session unchanged.
pub proof fn lemma_finished_session_fixed(s: QuizState, nows: Seq<u64>)
    requires
        s.wf(),
        s.spec_is_last(),
    ensures
        s.spec_advance_seq(nows) == s,
    decreases nows.len(),
{
    if nows.len() > 0 {
        lemma_finished_session_fixed(s, nows.drop_first());
    }
}

/// Law: from position `i`, a sequence of advance requests each made exactly
/// while expired, with enough questions ahead, visits the positions
/// `i, i + 1, ...` in order — no skips, no repeats: after the first `j`
/// requests the position is exactly `i + j`.
pub proof fn lemma_advance_visits_in_order(s: QuizState, nows: Seq<u64>)
    requires
        s.wf(),
        s.all_expired_along(nows),
        s.current_index + nows.len() < s.questions@.len(),
    ensures
        forall|j: int|
            0 <= j <= nows.len() ==> (#[trigger] s.spec_advance_seq(
                nows.take(j),
            )).current_index == s.current_index + j,
        s.spec_advance_seq(nows).wf(),
        s.spec_advance_seq(nows).questions == s.questions,
    decreases nows.len(),
{
    assert(s.questions@.len() == s.questions.len());
    assert(s.spec_advance_seq(nows.take(0)) == s);
    if nows.len() > 0 {
        let s1 = s.spec_advance(nows[0]);
        lemma_advance_preserves_wf(s, nows[0]);
        assert(s1.current_index == s.current_index + 1);
        lemma_advance_visits_in_order(s1, nows.drop_first());
        assert forall|j: int| 1 <= j <= nows.len() implies (#[trigger] s.spec_advance_seq(
            nows.take(j),
        )).current_index == s.current_index + j by {
            assert(nows.take(j)[0] == nows[0]);
            assert(nows.take(j).drop_first() =~= nows.drop_first().take(j - 1));
            assert(s.spec_advance_seq(nows.take(j)) == s1.spec_advance_seq(
                nows.drop_first().take(j - 1),
            ));
        }
        assert(s.spec_advance_seq(nows) == s1.spec_advance_seq(nows.drop_first()));
    }
}

/// Tracker for hint visibility and progression on the current question.
///
/// `index` is a 0-based pointer into the current question's hint list,
/// meaningful only while `visible` holds. The tracker has no notion of a
/// timer: the coordinator gates hint requests on "not expired".
#[derive(Debug, Clone, Copy)]
pub struct HintState {
    pub visible: bool,
    pub index: usize,
}

impl HintState {
    /// The state after one advance request given `max_hints` available
    /// hints: a no-op when there are no hints, and otherwise one step
    /// forward, stopping at the last hint — never past it, never wrapping.
    pub open spec fn spec_next_hint(self, max_hints: usize) -> HintState {
        if max_hints > 0 && self.index < max_hints - 1 {
            HintState { visible: self.visible, index: (self.index + 1) as usize }
        } else {
            self
        }
    }

    /// Starts hidden, pointing at the first hint.
    pub fn new() -> (r: HintState)
        ensures
            r == (HintState { visible: false, index: 0 }),
    {
        HintState { visible: false, index: 0 }
    }

    /// Whether hints are currently revealed.
    pub fn show_hints(&self) -> (r: bool)
        ensures
            r == self.visible,
    {
        self.visible
    }

    /// The 0-based index of the hint currently shown.
    pub fn hint_index(&self) -> (r: usize)
        ensures
            r == self.index,
    {
        self.index
    }

    /// Reveals hints. Idempotent; does not change the index.
    pub fn enable_hints(&mut self)
        ensures
            *final(self) == (HintState { visible: true, index: old(self).index }),
    {
        self.visible = true;
    }

    /// Steps to the next hint, saturating at the last of the `max_hints`
    /// available ones; a no-op when the question has no hints.
    pub fn next_hint(&mut self, max_hints: usize)
        ensures
            *final(self) == old(self).spec_next_hint(max_hints),
            max_hints == 0 ==> *final(self) == *old(self),
            (max_hints > 0 && old(self).index < max_hints) ==> final(self).index < max_hints,
            final(self).visible == old(self).visible,
    {
        if max_hints > 0 && self.index < max_hints - 1 {
            self.index = self.index + 1;
        }
    }

    /// Restores the initial state — hidden, index zero — regardless of prior
    /// state.
    pub fn reset(&mut self)
        ensures
            *final(self) == (HintState { visible: false, index: 0 }),
    {
        self.visible = false;
        self.index = 0;
    }

    /// The state after `k` advance requests, each given `max_hints` available
    /// hints.
    pub open spec fn spec_next_hint_n(self, max_hints: usize, k: nat) -> HintState
        decreases k,
    {
        if k == 0 {
            self
        } else {
            self.spec_next_hint(max_hints).spec_next_hint_n(max_hints, (k - 1) as nat)
        }
    }
}

/// Law: when the tracker points inside the hint list, one advance keeps it
/// inside — the index never reaches `max_hints` — and with no hints at all
/// the advance is a no-op.
pub proof fn lemma_next_hint_in_bounds(h: HintState, max_hints: usize)
    requires
        max_hints == 0 || h.index < max_hints,
    ensures
        max_hints == 0 ==> h.spec_next_hint(max_hints) == h,
        max_hints > 0 ==> h.spec_next_hint(max_hints).index < max_hints,
{
}

/// Law: repeated advances saturate at the last hint. From a position inside
/// the hint list, `k` advances land on the smaller of `index + k` and
/// `max_hints - 1` — in particular, from the start, any `k >= max_hints`
/// advances end exactly on the last hint. Visibility is never touched.
pub proof fn lemma_next_hint_saturates(h: HintState, max_hints: usize, k: nat)
    requires
        max_hints > 0,
        h.index < max_hints,
    ensures
        h.spec_next_hint_n(max_hints, k).index as int == if h.index + k <= max_hints - 1 {
            h.index + k
        } else {
            max_hints - 1
        },
        h.spec_next_hint_n(max_hints, k).visible == h.visible,
    decreases k,
{
    if k > 0 {
        lemma_next_hint_saturates(h.spec_next_hint(max_hints), max_hints, (k - 1) as nat);
    }
}

} // verus!
