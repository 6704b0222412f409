//! The identify queue: shards wanting a fresh session line up here, and one
//! is let through at most once per five-second period, in arrival order. The
//! timer loop that sleeps between grants lives outside the library; every
//! decision — whether a grant is due, and to whom — is verified here.

use vstd::prelude::*;

verus! {

/// Milliseconds between identify grants: the platform allows one identify
/// per five seconds.
pub const IDENTIFY_PERIOD: u64 = 5000;

/// The identify queue's state: who is waiting, in arrival order, and when
/// the last grant left.
#[derive(Clone, Debug)]
pub struct IdentifyQueue {
    /// Shard ids waiting for an identify slot, first arrival first.
    pub waiting: Vec<u64>,
    /// Monotonic millisecond time of the last grant, if any.
    pub last_granted: Option<u64>,
}

impl IdentifyQueue {
    /// Whether a grant may leave at time `now`: none has left yet, or the
    /// last left a full period ago.
    pub open spec fn can_grant(self, now: u64) -> bool {
        match self.last_granted {
            Option::None => true,
            Option::Some(t) => now >= t + IDENTIFY_PERIOD,
        }
    }

    /// An empty queue that has granted nothing.
    pub fn new() -> (r: Self)
        ensures
            r.waiting@ =~= Seq::<u64>::empty(),
            r.last_granted is None,
    {
        IdentifyQueue { waiting: Vec::new(), last_granted: None }
    }

    /// Line a shard up for an identify slot.
    pub fn enqueue(&mut self, shard_id: u64)
        ensures
            final(self).waiting@ == old(self).waiting@.push(shard_id),
            final(self).last_granted == old(self).last_granted,
    {
        self.waiting.push(shard_id);
    }

    /// Grant the next waiter its identify slot, if one is waiting and a full
    /// period has passed since the last grant. Returns the shard granted.
    pub fn grant_next(&mut self, now: u64) -> (r: Option<u64>)
        ensures
            match r {
                Some(id) => {
                    &&& old(self).can_grant(now)
                    &&& old(self).waiting@.len() > 0
                    &&& id == old(self).waiting@[0]
                    &&& final(self).waiting@ == old(self).waiting@.subrange(
                        1,
                        old(self).waiting@.len() as int,
                    )
                    &&& final(self).last_granted == Some(now)
                },
                None => {
                    &&& !old(self).can_grant(now) || old(self).waiting@.len() == 0
                    &&& *final(self) == *old(self)
                },
            },
    {
        match self.last_granted {
            Option::Some(t) => {
                if !(t <= u64::MAX - IDENTIFY_PERIOD && now >= t + IDENTIFY_PERIOD) {
                    if t > u64::MAX - IDENTIFY_PERIOD {
                        // a grant this close to the end of the clock's range
                        // can never be followed: the next period does not fit
                        assert(!self.can_grant(now));
                    }
                    return None;
                }
            },
            Option::None => {},
        }
        if self.waiting.len() == 0 {
            return None;
        }
        let id = self.waiting.remove(0);
        self.last_granted = Some(now);
        proof {
            assert(self.waiting@ =~= old(self).waiting@.subrange(
                1,
                old(self).waiting@.len() as int,
            ));
        }
        Some(id)
    }

    /// How long until a grant is due at time `now`, in milliseconds; zero
    /// when one may leave at once.
    pub fn time_until_grant(&self, now: u64) -> (r: u64)
        ensures
            r == 0 <==> self.can_grant(now),
            match self.last_granted {
                Option::Some(t) => (t + IDENTIFY_PERIOD <= u64::MAX && now < t + IDENTIFY_PERIOD)
                    ==> r == t + IDENTIFY_PERIOD - now,
                Option::None => r == 0,
            },
    {
        match self.last_granted {
            Option::Some(t) => {
                if t > u64::MAX - IDENTIFY_PERIOD {
                    // the next period does not fit on the clock; report a
                    // full period, the longest meaningful wait
                    assert(now < t + IDENTIFY_PERIOD);
                    IDENTIFY_PERIOD
                } else if now >= t + IDENTIFY_PERIOD {
                    0
                } else {
                    t + IDENTIFY_PERIOD - now
                }
            },
            Option::None => 0,
        }
    }
}

/// From the state right after a grant at time `t1`, a second grant can only
/// happen a full identify period later: in any window shorter than the
/// period, at most one identify leaves the queue.
pub proof fn lemma_grants_spaced(q: IdentifyQueue, t1: u64, t2: u64)
    requires
        q.last_granted == Some(t1),
        q.can_grant(t2),
    ensures
        t2 >= t1 + IDENTIFY_PERIOD,
{
}

} // verus!
