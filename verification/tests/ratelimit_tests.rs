//! The per-bucket admission policy and the single-retry protocol.

use panda::ratelimit::{
    on_rate_limit_rejection, Admission, RateLimiter, RequestPhase, RequestStep,
};

fn key(s: &str) -> String {
    s.to_string()
}

#[test]
fn unknown_key_proceeds_at_once() {
    let rl = RateLimiter::new();
    assert_eq!(rl.admission_for(&key("channels:42"), 0), Admission::Proceed);
}

#[test]
fn exhausted_bucket_waits_until_its_deadline() {
    let mut rl = RateLimiter::new();
    rl.record_response(&key("channels:42"), 0, 2000);
    // A request issued before the deadline is held until exactly then.
    assert_eq!(rl.admission_for(&key("channels:42"), 0), Admission::Wait(2000));
    assert_eq!(rl.admission_for(&key("channels:42"), 1999), Admission::Wait(2000));
    // At or after the deadline it proceeds promptly.
    assert_eq!(rl.admission_for(&key("channels:42"), 2000), Admission::Proceed);
    assert_eq!(rl.admission_for(&key("channels:42"), 5000), Admission::Proceed);
}

#[test]
fn remaining_budget_proceeds_before_the_deadline() {
    let mut rl = RateLimiter::new();
    rl.record_response(&key("channels:42"), 3, 2000);
    assert_eq!(rl.admission_for(&key("channels:42"), 0), Admission::Proceed);
}

#[test]
fn different_buckets_never_wait_on_each_other() {
    let mut rl = RateLimiter::new();
    rl.record_response(&key("channels:42"), 0, 2000);
    rl.record_response(&key("guilds:7"), 5, 1000);
    // The exhausted bucket holds only its own callers.
    assert_eq!(rl.admission_for(&key("channels:42"), 0), Admission::Wait(2000));
    assert_eq!(rl.admission_for(&key("guilds:7"), 0), Admission::Proceed);
    assert_eq!(rl.admission_for(&key("users:1"), 0), Admission::Proceed);
}

#[test]
fn a_response_updates_only_its_own_bucket() {
    let mut rl = RateLimiter::new();
    rl.record_response(&key("a"), 0, 500);
    rl.record_response(&key("b"), 0, 900);
    rl.record_response(&key("a"), 4, 700);
    assert_eq!(rl.admission_for(&key("a"), 0), Admission::Proceed);
    assert_eq!(rl.admission_for(&key("b"), 0), Admission::Wait(900));
}

#[test]
fn local_consumption_debits_one_call() {
    let mut rl = RateLimiter::new();
    rl.record_response(&key("a"), 2, 9000);
    rl.consume_local(&key("a"));
    assert_eq!(rl.admission_for(&key("a"), 0), Admission::Proceed);
    rl.consume_local(&key("a"));
    assert_eq!(rl.admission_for(&key("a"), 0), Admission::Wait(9000));
    // An empty budget and an unknown key are left as they are.
    rl.consume_local(&key("a"));
    assert_eq!(rl.admission_for(&key("a"), 0), Admission::Wait(9000));
    rl.consume_local(&key("missing"));
    assert_eq!(rl.admission_for(&key("missing"), 0), Admission::Proceed);
}

#[test]
fn first_rejection_backs_off_and_retries_once() {
    assert_eq!(
        on_rate_limit_rejection(RequestPhase::FirstAttempt, 1500),
        RequestStep::BackoffThenRetry(1500)
    );
}

#[test]
fn second_rejection_surfaces_rate_limited() {
    assert_eq!(
        on_rate_limit_rejection(RequestPhase::Retrying, 1500),
        RequestStep::FailRateLimited
    );
}
