//! Tests for the rate limiter: bucket updates, header parsing and
//! classification, the scheduler's admission decisions, and the global lock.

use discord_core::ratelimit::bucket::{Bucket, TimeRemaining, LIMIT_UNSET};
use discord_core::ratelimit::global::GlobalLock;
use discord_core::ratelimit::headers::{
    classify_headers, parse_reset_after_ms, HeaderParseError, RatelimitHeaders,
};
use discord_core::ratelimit::scheduler::{
    apply_headers, finish_wait, pre_admission, ticket_abandoned,
};

fn pairs(entries: &[(&str, &str)]) -> Vec<(String, String)> {
    entries
        .iter()
        .map(|(k, v)| (String::from(*k), String::from(*v)))
        .collect()
}

#[test]
fn fresh_bucket_is_full() {
    let bucket = Bucket::new();
    assert_eq!(LIMIT_UNSET, bucket.limit);
    assert_eq!(LIMIT_UNSET, bucket.remaining);
    assert_eq!(None, bucket.started_at);
}

#[test]
fn bucket_update_records_limit_once() {
    let mut bucket = Bucket::new();
    bucket.update(Some((2, 1, 1000)), 50);
    assert_eq!(2, bucket.limit);
    assert_eq!(1, bucket.remaining);
    assert_eq!(1000, bucket.reset_after);
    assert_eq!(Some(50), bucket.started_at);

    // a second report does not re-record the capacity or the window start
    bucket.update(Some((5, 0, 9000)), 60);
    assert_eq!(2, bucket.limit);
    assert_eq!(0, bucket.remaining);
    assert_eq!(1000, bucket.reset_after);
    assert_eq!(Some(50), bucket.started_at);
}

#[test]
fn bucket_remaining_never_exceeds_limit() {
    let mut bucket = Bucket::new();
    bucket.update(Some((2, 1, 1000)), 0);
    // a report claiming more tokens than the capacity is clamped
    bucket.update(Some((2, 99, 1000)), 10);
    assert!(bucket.remaining <= bucket.limit);
    assert_eq!(2, bucket.remaining);
}

#[test]
fn bucket_pessimistic_decrement() {
    let mut bucket = Bucket::new();
    bucket.update(Some((2, 2, 1000)), 0);
    ticket_abandoned(&mut bucket, 5);
    assert_eq!(1, bucket.remaining);
    ticket_abandoned(&mut bucket, 6);
    ticket_abandoned(&mut bucket, 7);
    // the count saturates at zero instead of wrapping
    assert_eq!(0, bucket.remaining);
}

#[test]
fn bucket_time_remaining_and_reset() {
    let mut bucket = Bucket::new();
    bucket.update(Some((2, 0, 1000)), 100);
    assert_eq!(TimeRemaining::Millis(1000), bucket.time_remaining(100));
    assert_eq!(TimeRemaining::Millis(400), bucket.time_remaining(700));
    assert_eq!(TimeRemaining::Finished, bucket.time_remaining(1101));
    assert!(!bucket.try_reset(700));
    assert!(bucket.try_reset(1101));
    assert_eq!(2, bucket.remaining);
    assert_eq!(None, bucket.started_at);
    assert_eq!(TimeRemaining::NotStarted, bucket.time_remaining(1200));
}

#[test]
fn scheduler_admits_with_tokens_left() {
    let mut bucket = Bucket::new();
    bucket.update(Some((2, 1, 1000)), 0);
    assert_eq!(None, pre_admission(&mut bucket, 10));
}

#[test]
fn scheduler_waits_out_the_window() {
    // the back-off scenario: the window holds two requests; after both are
    // spent the next admission may come no sooner than the window's end
    let mut bucket = Bucket::new();
    bucket.update(Some((2, 0, 1000)), 100);
    let wait = pre_admission(&mut bucket, 300);
    assert_eq!(Some(800), wait);
    // after sleeping the advised time the bucket refills
    assert!(finish_wait(&mut bucket, 1101));
    assert_eq!(2, bucket.remaining);
    assert_eq!(None, pre_admission(&mut bucket, 1101));
}

#[test]
fn scheduler_admits_once_window_elapsed() {
    let mut bucket = Bucket::new();
    bucket.update(Some((2, 0, 1000)), 100);
    // the window has fully elapsed: admission proceeds and the bucket refills
    assert_eq!(None, pre_admission(&mut bucket, 1500));
    assert_eq!(2, bucket.remaining);
}

#[test]
fn parse_reset_after_values() {
    assert_eq!(Some(1500), parse_reset_after_ms("1.5"));
    assert_eq!(Some(64570), parse_reset_after_ms("64.57"));
    assert_eq!(Some(250), parse_reset_after_ms("0.25"));
    assert_eq!(Some(3000), parse_reset_after_ms("3"));
    assert_eq!(Some(123), parse_reset_after_ms("0.1239"));
    assert_eq!(None, parse_reset_after_ms(""));
    assert_eq!(None, parse_reset_after_ms("1."));
    assert_eq!(None, parse_reset_after_ms(".5"));
    assert_eq!(None, parse_reset_after_ms("1.2.3"));
    assert_eq!(None, parse_reset_after_ms("abc"));
}

#[test]
fn classify_full_set() {
    let headers = pairs(&[
        ("X-RateLimit-Limit", "10"),
        ("X-RateLimit-Remaining", "9"),
        ("X-RateLimit-Reset-After", "6.457"),
    ]);
    assert_eq!(
        Ok(RatelimitHeaders::Present {
            global: false,
            limit: 10,
            remaining: 9,
            reset_after: 6457,
        }),
        classify_headers(200, &headers)
    );
}

#[test]
fn classify_no_headers() {
    let headers = pairs(&[("content-type", "application/json")]);
    assert_eq!(Ok(RatelimitHeaders::NotPresent), classify_headers(200, &headers));
}

#[test]
fn classify_global_limited() {
    let headers = pairs(&[
        ("x-ratelimit-global", "true"),
        ("x-ratelimit-reset-after", "0.5"),
    ]);
    assert_eq!(
        Ok(RatelimitHeaders::GlobalLimited { reset_after: 500 }),
        classify_headers(429, &headers)
    );
}

#[test]
fn classify_incomplete_set() {
    let headers = pairs(&[("x-ratelimit-limit", "10")]);
    assert_eq!(Err(HeaderParseError::Incomplete), classify_headers(200, &headers));
}

#[test]
fn classify_bad_number() {
    let headers = pairs(&[
        ("x-ratelimit-limit", "ten"),
        ("x-ratelimit-remaining", "9"),
        ("x-ratelimit-reset-after", "1"),
    ]);
    assert_eq!(Err(HeaderParseError::LimitInvalid), classify_headers(200, &headers));
}

#[test]
fn global_lock_blocks_all_admissions() {
    // the global scenario: a 429 with the global flag pauses every route for
    // the reported cooldown
    let mut bucket = Bucket::new();
    let mut lock = GlobalLock::new();
    apply_headers(
        &mut bucket,
        &mut lock,
        &RatelimitHeaders::GlobalLimited { reset_after: 500 },
        1000,
    );
    assert!(lock.is_locked(1000));
    assert!(lock.is_locked(1499));
    assert!(!lock.is_locked(1500));
}

#[test]
fn global_relock_never_shortens() {
    let mut lock = GlobalLock::new();
    lock.lock_global(1000, 500);
    // a nearer deadline does not shorten the window
    lock.lock_global(1100, 100);
    assert!(lock.is_locked(1499));
    assert!(!lock.is_locked(1500));
    // a later deadline extends it
    lock.lock_global(1200, 600);
    assert!(lock.is_locked(1799));
    assert!(!lock.is_locked(1800));
    lock.unlock();
    assert!(!lock.is_locked(0));
}

#[test]
fn present_with_global_flag_trips_lock() {
    let mut bucket = Bucket::new();
    let mut lock = GlobalLock::new();
    apply_headers(
        &mut bucket,
        &mut lock,
        &RatelimitHeaders::Present { global: true, limit: 5, remaining: 4, reset_after: 700 },
        0,
    );
    assert!(lock.is_locked(699));
    assert!(!lock.is_locked(700));
    assert_eq!(5, bucket.limit);
    assert_eq!(4, bucket.remaining);
}
