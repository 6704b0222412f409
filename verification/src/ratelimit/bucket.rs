//! A rate-limit bucket for one route. The bucket stores the capacity and
//! remaining tokens that the server last reported, the window length, and the
//! monotonic time (in milliseconds) at which the current window started.
//!
//! Time is handed in by the caller as a monotonic millisecond reading, so the
//! whole state machine is deterministic and verified; only the clock read and
//! the sleeping live outside the library.

use vstd::prelude::*;

verus! {

/// The sentinel capacity a bucket starts with before the server has reported
/// a real limit.
pub const LIMIT_UNSET: u64 = u64::MAX;

/// How much of the current window is left for a bucket.
#[derive(Clone, Copy, Debug, Eq, PartialEq, Structural)]
pub enum TimeRemaining {
    /// The window has fully elapsed.
    Finished,
    /// No response has been observed in this window, so no window has started.
    NotStarted,
    /// This many milliseconds of the window are left.
    Millis(u64),
}

/// Rate-limit state for one route.
#[derive(Clone, Debug)]
pub struct Bucket {
    /// Capacity of the window, or [`LIMIT_UNSET`] before the first report.
    pub limit: u64,
    /// Tokens left in the window.
    pub remaining: u64,
    /// Window length in milliseconds.
    pub reset_after: u64,
    /// Monotonic millisecond time of the first response in the window, if one
    /// has been observed.
    pub started_at: Option<u64>,
}

impl Bucket {
    /// Well-formedness: the remaining tokens never exceed the capacity, and a
    /// bucket whose window has not started is full.
    pub open spec fn wf(self) -> bool {
        self.remaining <= self.limit && (self.started_at is None ==> self.remaining == self.limit)
    }

    /// A fresh bucket: full at the sentinel capacity, with no window started.
    pub fn new() -> (r: Self)
        ensures
            r.wf(),
            r.limit == LIMIT_UNSET,
            r.remaining == LIMIT_UNSET,
            r.reset_after == LIMIT_UNSET,
            r.started_at is None,
    {
        Bucket { limit: LIMIT_UNSET, remaining: LIMIT_UNSET, reset_after: LIMIT_UNSET, started_at: None }
    }

    /// What `time_remaining` reports for a bucket at a given time.
    pub open spec fn spec_time_remaining(self, now: u64) -> TimeRemaining {
        match self.started_at {
            Option::None => TimeRemaining::NotStarted,
            Option::Some(started) => if now - started > self.reset_after {
                TimeRemaining::Finished
            } else {
                TimeRemaining::Millis((self.reset_after - (now - started)) as u64)
            },
        }
    }

    /// How much of the current window is left at monotonic time `now`.
    pub fn time_remaining(&self, now: u64) -> (r: TimeRemaining)
        requires
            self.started_at matches Some(t) ==> t <= now,
        ensures
            r == self.spec_time_remaining(now),
    {
        match self.started_at {
            Option::None => TimeRemaining::NotStarted,
            Option::Some(started) => {
                let elapsed = now - started;
                if elapsed > self.reset_after {
                    TimeRemaining::Finished
                } else {
                    TimeRemaining::Millis(self.reset_after - elapsed)
                }
            },
        }
    }

    /// If the window has started and has fully elapsed, refill the bucket and
    /// clear the window start. Reports whether a reset happened.
    pub fn try_reset(&mut self, now: u64) -> (r: bool)
        requires
            old(self).wf(),
            old(self).started_at matches Some(t) ==> t <= now,
        ensures
            final(self).wf(),
            r == (old(self).started_at is Some && old(self).spec_time_remaining(now)
                == TimeRemaining::Finished),
            r ==> *final(self) == (Bucket {
                remaining: old(self).limit,
                started_at: None,
                ..*old(self)
            }),
            !r ==> *final(self) == *old(self),
    {
        if self.started_at.is_none() {
            return false;
        }
        match self.time_remaining(now) {
            TimeRemaining::Finished => {
                self.remaining = self.limit;
                self.started_at = None;
                true
            },
            _ => false,
        }
    }

    /// The bucket after a response's rate-limit report is applied at time
    /// `now`: the window starts with the first response observed in it, the
    /// capacity is recorded once (on the first report that differs from the
    /// sentinel), the reported remaining count is stored clamped to the
    /// capacity, and a report without headers costs one token.
    pub open spec fn spec_after_update(self, ratelimits: Option<(u64, u64, u64)>, now: u64) -> Bucket {
        let started = if self.started_at is Some {
            self.started_at
        } else {
            Option::Some(now)
        };
        match ratelimits {
            Option::Some((limit, remaining, reset_after)) => {
                let recorded = self.limit != limit && self.limit == LIMIT_UNSET;
                let new_limit = if recorded {
                    limit
                } else {
                    self.limit
                };
                Bucket {
                    limit: new_limit,
                    reset_after: if recorded {
                        reset_after
                    } else {
                        self.reset_after
                    },
                    remaining: if remaining <= new_limit {
                        remaining
                    } else {
                        new_limit
                    },
                    started_at: started,
                }
            },
            Option::None => Bucket {
                remaining: if self.remaining > 0 {
                    (self.remaining - 1) as u64
                } else {
                    0u64
                },
                started_at: started,
                ..self
            },
        }
    }

    /// Apply a response's rate-limit report to the bucket at monotonic time
    /// `now`. See [`Bucket::spec_after_update`] for the exact effect.
    pub fn update(&mut self, ratelimits: Option<(u64, u64, u64)>, now: u64) -> (r: ())
        requires
            old(self).wf(),
        ensures
            final(self).wf(),
            *final(self) == old(self).spec_after_update(ratelimits, now),
    {
        let bucket_limit = self.limit;
        if self.started_at.is_none() {
            self.started_at = Some(now);
        }
        match ratelimits {
            Some((limit, remaining, reset_after)) => {
                if bucket_limit != limit && bucket_limit == LIMIT_UNSET {
                    self.reset_after = reset_after;
                    self.limit = limit;
                }
                if remaining <= self.limit {
                    self.remaining = remaining;
                } else {
                    self.remaining = self.limit;
                }
            },
            None => {
                if self.remaining > 0 {
                    self.remaining = self.remaining - 1;
                }
            },
        }
    }
}

/// At any observation of a well-formed bucket, the remaining tokens lie
/// between zero and the bucket's capacity.
pub proof fn lemma_bucket_remaining_bounded(b: Bucket)
    requires
        b.wf(),
    ensures
        0 <= b.remaining <= b.limit,
{
}

} // verus!
