//! Admission decisions of a bucket's scheduler worker. The worker loop
//! itself sleeps and exchanges tickets outside the library; every decision it
//! takes — whether to wait before admitting, for how long, and what a
//! response's headers do to the bucket and the global lock — is a verified
//! function here.

use vstd::prelude::*;
use crate::ratelimit::bucket::{Bucket, TimeRemaining};
use crate::ratelimit::global::GlobalLock;
use crate::ratelimit::headers::RatelimitHeaders;

verus! {

/// Whether a bucket may admit a ticket at time `now` without waiting: it has
/// tokens left, or no window has started, or the window has elapsed.
pub open spec fn admissible(b: Bucket, now: u64) -> bool {
    b.remaining > 0 || b.started_at is None || now - b.started_at->0 >= b.reset_after
}

/// How long the worker must wait before admitting, if at all.
pub open spec fn spec_wait_advice(b: Bucket, now: u64) -> Option<u64> {
    if b.remaining > 0 {
        Option::None
    } else {
        match b.spec_time_remaining(now) {
            TimeRemaining::Finished => Option::None,
            TimeRemaining::NotStarted => Option::None,
            TimeRemaining::Millis(d) => Option::Some(d),
        }
    }
}

/// Decide, before admitting the next ticket, whether the worker must sleep.
///
/// Returns how many milliseconds to sleep, or nothing if the ticket can be
/// admitted at once. When the window has fully elapsed the bucket is refilled
/// here, as the worker would on its way to admitting.
pub fn pre_admission(bucket: &mut Bucket, now: u64) -> (r: Option<u64>)
    requires
        old(bucket).wf(),
        old(bucket).started_at matches Some(t) ==> t <= now,
    ensures
        final(bucket).wf(),
        final(bucket).started_at matches Some(t) ==> t <= now,
        r == spec_wait_advice(*old(bucket), now),
        r is None ==> admissible(*old(bucket), now),
        r matches Some(d) ==> *final(bucket) == *old(bucket)
            && old(bucket).spec_time_remaining(now) == TimeRemaining::Millis(d),
        r is None ==> final(bucket).remaining == (if old(bucket).remaining > 0 {
            old(bucket).remaining
        } else if old(bucket).started_at is Some && now - old(bucket).started_at->0
            > old(bucket).reset_after {
            old(bucket).limit
        } else {
            old(bucket).remaining
        }),
{
    if bucket.remaining > 0 {
        return None;
    }
    match bucket.time_remaining(now) {
        TimeRemaining::Finished => {
            bucket.try_reset(now);
            None
        },
        TimeRemaining::NotStarted => None,
        TimeRemaining::Millis(d) => Some(d),
    }
}

/// Refill the bucket after the advised sleep has elapsed, as the worker does
/// before admitting.
pub fn finish_wait(bucket: &mut Bucket, now: u64) -> (r: bool)
    requires
        old(bucket).wf(),
        old(bucket).started_at matches Some(t) ==> t <= now,
    ensures
        final(bucket).wf(),
        final(bucket).started_at matches Some(t) ==> t <= now,
        r == (old(bucket).started_at is Some && old(bucket).spec_time_remaining(now)
            == TimeRemaining::Finished),
        r ==> *final(bucket) == (Bucket {
            remaining: old(bucket).limit,
            started_at: None,
            ..*old(bucket)
        }),
        !r ==> *final(bucket) == *old(bucket),
{
    bucket.try_reset(now)
}

/// Apply the headers a ticket holder reported back, at time `now`.
///
/// A global-limit notice trips the global lock and costs a pessimistic
/// token; the per-route set updates the bucket, tripping the global lock as
/// well when flagged global; a response without rate-limit headers costs a
/// pessimistic token.
pub fn apply_headers(
    bucket: &mut Bucket,
    global: &mut GlobalLock,
    headers: &RatelimitHeaders,
    now: u64,
) -> (r: ())
    requires
        old(bucket).wf(),
        match *headers {
            RatelimitHeaders::GlobalLimited { reset_after } => now + reset_after <= u64::MAX,
            RatelimitHeaders::Present { global: g, reset_after, .. } => g ==> now + reset_after
                <= u64::MAX,
            RatelimitHeaders::NotPresent => true,
        },
    ensures
        final(bucket).wf(),
        match *headers {
            RatelimitHeaders::NotPresent => {
                &&& *final(bucket) == old(bucket).spec_after_update(Option::None, now)
                &&& *final(global) == *old(global)
            },
            RatelimitHeaders::GlobalLimited { reset_after } => {
                &&& *final(bucket) == old(bucket).spec_after_update(Option::None, now)
                &&& *final(global) == old(global).spec_after_lock(now, reset_after)
            },
            RatelimitHeaders::Present { global: g, limit, remaining, reset_after } => {
                &&& *final(bucket) == old(bucket).spec_after_update(
                    Option::Some((limit, remaining, reset_after)),
                    now,
                )
                &&& *final(global) == (if g {
                    old(global).spec_after_lock(now, reset_after)
                } else {
                    *old(global)
                })
            },
        },
{
    match headers {
        RatelimitHeaders::NotPresent => {
            bucket.update(None, now);
        },
        RatelimitHeaders::GlobalLimited { reset_after } => {
            global.lock_global(now, *reset_after);
            bucket.update(None, now);
        },
        RatelimitHeaders::Present { global: g, limit, remaining, reset_after } => {
            if *g {
                global.lock_global(now, *reset_after);
            }
            bucket.update(Some((*limit, *remaining, *reset_after)), now);
        },
    }
}

/// A ticket that was dropped without reporting headers costs a pessimistic
/// token, exactly as a response without rate-limit headers does.
pub fn ticket_abandoned(bucket: &mut Bucket, now: u64)
    requires
        old(bucket).wf(),
    ensures
        final(bucket).wf(),
        *final(bucket) == old(bucket).spec_after_update(Option::None, now),
{
    bucket.update(None, now);
}

/// When the worker admits without waiting, the bucket justified it: tokens
/// were left, or no window had started, or the window had fully elapsed.
pub proof fn lemma_admission_justified(b: Bucket, now: u64)
    requires
        b.wf(),
        b.started_at matches Some(t) ==> t <= now,
        spec_wait_advice(b, now) is None,
    ensures
        b.remaining > 0 || b.started_at is None || now - b.started_at->0 >= b.reset_after,
{
}

/// When the worker was told to wait, admitting right after the advised sleep
/// is justified: by then the whole window has elapsed.
pub proof fn lemma_wait_then_admissible(b: Bucket, now: u64, d: u64)
    requires
        b.wf(),
        b.started_at matches Some(t) ==> t <= now,
        spec_wait_advice(b, now) == Option::Some(d),
        now + d <= u64::MAX,
    ensures
        (now + d) as u64 - b.started_at->0 >= b.reset_after,
        admissible(b, (now + d) as u64),
{
}

} // verus!
