//! The per-question countdown.
//!
//! A [`Timer`] records the instant it was started and its limit, both as a
//! plain number of seconds from a monotonic clock. The caller reads the clock
//! once per event and passes the reading in, so elapsed time, remaining time
//! and expiry are pure functions of the timer's fields and that reading:
//! repeated queries at the same instant are idempotent and side-effect-free.

use vstd::prelude::*;

verus! {

/// A countdown against a per-question limit.
///
/// `started_at` is the clock reading (in seconds) at which counting began;
/// `limit` is the allotted number of seconds. The invariant [`Timer::wf`]
/// requires a positive limit.
#[derive(Debug, Clone, Copy)]
pub struct Timer {
    pub started_at: u64,
    pub limit: u64,
}

impl Timer {
    /// Invariant: the limit is positive. A zero limit is a construction-time
    /// data error ([`crate::models::QuizError::InvalidDuration`]), never a
    /// state a timer can be in.
    pub open spec fn wf(self) -> bool {
        self.limit > 0
    }

    /// Seconds elapsed since the start, never negative: a clock reading older
    /// than the start counts as no time passed.
    pub open spec fn spec_elapsed(self, now: u64) -> u64 {
        if now >= self.started_at {
            (now - self.started_at) as u64
        } else {
            0
        }
    }

    /// Seconds left before expiry, clamped at zero: never negative, never an
    /// underflow.
    pub open spec fn spec_remaining(self, now: u64) -> u64 {
        if self.spec_elapsed(now) <= self.limit {
            (self.limit - self.spec_elapsed(now)) as u64
        } else {
            0
        }
    }

    /// Expired once the elapsed time has reached the limit.
    pub open spec fn spec_is_expired(self, now: u64) -> bool {
        self.spec_elapsed(now) >= self.limit
    }

    /// The timer that a reset at instant `now` with limit `limit_secs`
    /// produces: all prior state is discarded.
    pub open spec fn spec_reset(self, limit_secs: u64, now: u64) -> Timer {
        Timer { started_at: now, limit: limit_secs }
    }

    /// Starts a fresh countdown of `limit_secs` seconds at instant `now`.
    pub fn new(limit_secs: u64, now: u64) -> (t: Timer)
        requires
            limit_secs > 0,
        ensures
            t == (Timer { started_at: now, limit: limit_secs }),
            t.wf(),
    {
        Timer { started_at: now, limit: limit_secs }
    }

    /// Seconds elapsed since the start, as of the clock reading `now`.
    pub fn elapsed(&self, now: u64) -> (r: u64)
        ensures
            r == self.spec_elapsed(now),
    {
        if now >= self.started_at {
            now - self.started_at
        } else {
            0
        }
    }

    /// Seconds remaining before expiry, as of `now`, clamped at zero.
    pub fn remaining(&self, now: u64) -> (r: u64)
        ensures
            r == self.spec_remaining(now),
    {
        let e = self.elapsed(now);
        if e <= self.limit {
            self.limit - e
        } else {
            0
        }
    }

    /// Whether the countdown has run out as of `now`.
    pub fn is_expired(&self, now: u64) -> (r: bool)
        ensures
            r == self.spec_is_expired(now),
    {
        self.elapsed(now) >= self.limit
    }

    /// Restarts the countdown at instant `now` with a new limit, discarding
    /// all prior state.
    pub fn reset(&mut self, limit_secs: u64, now: u64)
        requires
            limit_secs > 0,
        ensures
            *final(self) == old(self).spec_reset(limit_secs, now),
            final(self).wf(),
    {
        self.started_at = now;
        self.limit = limit_secs;
    }
}

/// Law: immediately after construction — that is, queried at the very instant
/// the countdown started — a timer is not expired and its remaining time does
/// not exceed its limit.
pub proof fn lemma_fresh_timer_not_expired(t: Timer, now: u64)
    requires
        t.wf(),
        t.started_at == now,
    ensures
        !t.spec_is_expired(now),
        t.spec_remaining(now) <= t.limit,
{
}

/// Law: once at least `limit` seconds have elapsed since the start, the timer
/// reports expiry and its remaining time is exactly zero — never negative.
pub proof fn lemma_elapsed_limit_expires(t: Timer, now: u64)
    requires
        t.wf(),
        t.spec_elapsed(now) >= t.limit,
    ensures
        t.spec_is_expired(now),
        t.spec_remaining(now) == 0,
{
}

/// Law: expiry is stable under the passage of time — once a timer reports
/// expiry, every later clock reading reports it too, until a reset.
pub proof fn lemma_expiry_monotonic(t: Timer, now1: u64, now2: u64)
    requires
        now1 <= now2,
        t.spec_is_expired(now1),
    ensures
        t.spec_is_expired(now2),
{
}

/// Law: resetting twice with the same limit yields, as measured from the
/// second reset, a timer indistinguishable from resetting once.
pub proof fn lemma_reset_idempotent(t: Timer, limit_secs: u64, now1: u64, now2: u64)
    ensures
        t.spec_reset(limit_secs, now1).spec_reset(limit_secs, now2) == t.spec_reset(
            limit_secs,
            now2,
        ),
{
}

} // verus!
