use hive_console_sdk::retry::{RetryPolicy, RetryVerdict};
use std::time::SystemTime;

#[test]
fn default_policy_has_three_retries() {
    assert_eq!(RetryPolicy::new(), RetryPolicy { max_retries: 3 });
    assert_eq!(RetryPolicy::with_max_retries(9).max_retries, 9);
}

#[test]
fn policy_gives_up_exactly_at_the_cap() {
    let policy = RetryPolicy::with_max_retries(3);
    let now = SystemTime::now();
    assert!(matches!(policy.should_retry(now, 0), RetryVerdict::Retry { .. }));
    assert!(matches!(policy.should_retry(now, 2), RetryVerdict::Retry { .. }));
    assert!(matches!(policy.should_retry(now, 3), RetryVerdict::DoNotRetry));
    assert!(matches!(policy.should_retry(now, 4), RetryVerdict::DoNotRetry));
    assert!(matches!(policy.should_retry(now, u32::MAX), RetryVerdict::DoNotRetry));
}

#[test]
fn policy_without_retries_never_retries() {
    let policy = RetryPolicy::with_max_retries(0);
    assert!(matches!(policy.should_retry(SystemTime::now(), 0), RetryVerdict::DoNotRetry));
}

#[test]
fn large_retry_counts_do_not_fail() {
    let policy = RetryPolicy::with_max_retries(u32::MAX);
    assert!(matches!(policy.should_retry(SystemTime::now(), 40), RetryVerdict::Retry { .. }));
    assert!(matches!(
        policy.should_retry(SystemTime::now(), u32::MAX - 1),
        RetryVerdict::Retry { .. }
    ));
}

#[test]
fn retry_time_is_within_the_backoff_bounds() {
    let policy = RetryPolicy::new();
    let before = SystemTime::now();
    match policy.should_retry(before, 1) {
        RetryVerdict::Retry { execute_after } => {
            assert!(execute_after >= before);
            let wait = execute_after.duration_since(before).unwrap();
            assert!(wait <= std::time::Duration::from_secs(30 * 60 + 5));
        }
        RetryVerdict::DoNotRetry => panic!("a retry was owed"),
    }
}
