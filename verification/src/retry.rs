//! The retry policy: exponential backoff with a cap on the number of retries.
//!
//! When to retry is decided by the `retry-policies` crate; the library holds
//! the cap as a plain number and asks the crate's policy through
//! [`RetryPolicy::should_retry`].

use retry_policies::policies::ExponentialBackoff;
use retry_policies::RetryDecision;
use std::time::SystemTime;
use vstd::prelude::*;

verus! {

/// A point in time of the system clock. The library carries such values from
/// its caller to the retry policy and back; it never looks inside.
#[verifier::external_type_specification]
#[verifier::external_body]
pub struct ExSystemTime(SystemTime);

/// What the policy decides after a failed attempt.
#[derive(Debug, Clone, Copy)]
pub enum RetryVerdict {
    /// Try again, not before `execute_after`.
    Retry { execute_after: SystemTime },
    /// Give up.
    DoNotRetry,
}

/// Exponential backoff with at most `max_retries` retries after the first
/// attempt.
#[derive(Debug, Clone, Copy, PartialEq, Eq)]
pub struct RetryPolicy {
    pub max_retries: u32,
}

/// Asks an `ExponentialBackoff` of the `retry-policies` crate, built with its
/// default bounds and `max_retries` as the cap, whether a task that has been
/// retried `n_past_retries` times is retried once more
/// (`RetryPolicy::should_retry` of that crate). The policy gives up exactly
/// when the cap is reached; when to retry depends on the clock and on a
/// random jitter, and nothing is claimed of it.
#[verifier::external_body]
fn exponential_backoff_should_retry(
    max_retries: u32,
    request_start_time: SystemTime,
    n_past_retries: u32,
) -> (verdict: RetryVerdict)
    ensures
        verdict is DoNotRetry <==> max_retries <= n_past_retries,
{
    let policy = ExponentialBackoff::builder().build_with_max_retries(max_retries);
    match retry_policies::RetryPolicy::should_retry(&policy, request_start_time, n_past_retries) {
        RetryDecision::Retry { execute_after } => RetryVerdict::Retry { execute_after },
        RetryDecision::DoNotRetry => RetryVerdict::DoNotRetry,
    }
}

impl RetryPolicy {
    /// The default policy: three retries.
    pub fn new() -> (policy: RetryPolicy)
        ensures
            policy.max_retries == 3,
    {
        RetryPolicy { max_retries: 3 }
    }

    /// The policy with the given cap on retries.
    pub fn with_max_retries(max_retries: u32) -> (policy: RetryPolicy)
        ensures
            policy.max_retries == max_retries,
    {
        RetryPolicy { max_retries }
    }

    /// Whether retries are left after `n_past_retries` of them.
    pub open spec fn allows(self, n_past_retries: u32) -> bool {
        n_past_retries < self.max_retries
    }

    /// Whether a task that started at `request_start_time` and has been
    /// retried `n_past_retries` times is retried once more, and if so, when.
    pub fn should_retry(&self, request_start_time: SystemTime, n_past_retries: u32) -> (verdict:
        RetryVerdict)
        ensures
            verdict is Retry <==> self.allows(n_past_retries),
    {
        exponential_backoff_should_retry(self.max_retries, request_start_time, n_past_retries)
    }
}

} // verus!
