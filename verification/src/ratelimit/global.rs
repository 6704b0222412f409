//! The cluster-wide global lock. A 429 response with the global flag trips
//! the lock for the server-reported cooldown; every bucket worker consults it
//! before admitting, so one global cooldown pauses all routes at once.

use vstd::prelude::*;

verus! {

/// The global cooldown gate, as a deadline on the monotonic millisecond
/// clock.
#[derive(Clone, Copy, Debug)]
pub struct GlobalLock {
    /// The monotonic time until which all admissions are blocked, if the lock
    /// has been tripped and not yet cleared.
    pub locked_until: Option<u64>,
}

impl GlobalLock {
    /// Milliseconds of cooldown left at time `now`.
    pub open spec fn spec_window(self, now: u64) -> int {
        match self.locked_until {
            Option::None => 0,
            Option::Some(until) => if until > now {
                until - now
            } else {
                0
            },
        }
    }

    /// A lock that nothing has tripped.
    pub fn new() -> (r: Self)
        ensures
            r.locked_until is None,
            forall|now: u64| r.spec_window(now) == 0,
    {
        GlobalLock { locked_until: None }
    }

    /// Whether admissions are blocked at time `now`.
    pub fn is_locked(&self, now: u64) -> (r: bool)
        ensures
            r == (self.spec_window(now) > 0),
    {
        match self.locked_until {
            Option::None => false,
            Option::Some(until) => until > now,
        }
    }

    /// The lock after being tripped for `reset_after` milliseconds at `now`:
    /// a later existing deadline is kept, a nearer or absent one is replaced.
    pub open spec fn spec_after_lock(self, now: u64, reset_after: u64) -> GlobalLock {
        let deadline = (now + reset_after) as u64;
        match self.locked_until {
            Option::Some(until) => if until >= deadline {
                self
            } else {
                GlobalLock { locked_until: Option::Some(deadline) }
            },
            Option::None => GlobalLock { locked_until: Option::Some(deadline) },
        }
    }

    /// Trip the lock for `reset_after` milliseconds from `now`.
    ///
    /// Re-entering while already locked coalesces: the remaining window never
    /// shrinks, and grows at most to `reset_after`.
    pub fn lock_global(&mut self, now: u64, reset_after: u64)
        requires
            now + reset_after <= u64::MAX,
        ensures
            *final(self) == old(self).spec_after_lock(now, reset_after),
            final(self).spec_window(now) == (if old(self).spec_window(now) >= reset_after {
                old(self).spec_window(now)
            } else {
                reset_after as int
            }),
            final(self).locked_until is Some,
    {
        let deadline = now + reset_after;
        match self.locked_until {
            Option::Some(until) => {
                if until < deadline {
                    self.locked_until = Some(deadline);
                }
            },
            Option::None => {
                self.locked_until = Some(deadline);
            },
        }
    }

    /// Clear the lock once the tripper's cooldown has elapsed.
    pub fn unlock(&mut self)
        ensures
            final(self).locked_until is None,
            forall|now: u64| final(self).spec_window(now) == 0,
    {
        self.locked_until = None;
    }
}

/// Re-entering the global lock while it is already held never shortens the
/// remaining window, and extends it at most to the larger of the old window
/// and the new cooldown.
pub proof fn lemma_relock_coalesces(l: GlobalLock, l2: GlobalLock, now: u64, reset_after: u64)
    requires
        now + reset_after <= u64::MAX,
        l2.spec_window(now) == (if l.spec_window(now) >= reset_after {
            l.spec_window(now)
        } else {
            reset_after as int
        }),
    ensures
        l2.spec_window(now) >= l.spec_window(now),
        l2.spec_window(now) == vstd::math::max(l.spec_window(now), reset_after as int),
{
}

} // verus!
