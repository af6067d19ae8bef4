//! Shipping a report: the request's headers, how an answer is classified,
//! and when a failed attempt is retried.
//!
//! The library does not send anything. Its caller posts the report, tells
//! the [`Shipment`] what came of the attempt, and does what it answers:
//! finish with a result, or try again later.

use crate::agent::error::{AgentError, AgentErrorView};
use crate::headers::{header_views, plain_header, sensitive_header, Header, HeaderView};
use crate::retry::{RetryPolicy, RetryVerdict};
use crate::text::{decimal, decimal_string, join2, join3};
use std::time::SystemTime;
use vstd::prelude::*;

verus! {

/// The headers of the request that ships a report with a body of `body_len`
/// bytes.
pub open spec fn request_headers_of(
    token: Seq<char>,
    user_agent: Seq<char>,
    body_len: nat,
) -> Seq<HeaderView> {
    seq![
        HeaderView { name: "X-Usage-API-Version"@, value: "2"@, sensitive: false },
        HeaderView { name: "Authorization"@, value: "Bearer "@ + token, sensitive: true },
        HeaderView { name: "User-Agent"@, value: user_agent, sensitive: false },
        HeaderView { name: "Content-Type"@, value: "application/json"@, sensitive: false },
        HeaderView { name: "Content-Length"@, value: decimal(body_len), sensitive: false },
    ]
}

/// Builds the headers of the request that ships a report.
pub fn request_headers(token: &str, user_agent: &str, body_len: usize) -> (headers: Vec<Header>)
    ensures
        header_views(headers@) == request_headers_of(token@, user_agent@, body_len as nat),
{
    let mut headers: Vec<Header> = Vec::new();
    headers.push(plain_header("X-Usage-API-Version", String::from_str("2")));
    headers.push(sensitive_header("Authorization", join2("Bearer ", token)));
    headers.push(plain_header("User-Agent", String::from_str(user_agent)));
    headers.push(plain_header("Content-Type", String::from_str("application/json")));
    headers.push(plain_header("Content-Length", decimal_string(body_len as u64)));
    assert(header_views(headers@) =~= request_headers_of(token@, user_agent@, body_len as nat));
    headers
}

/// A status that is worth another attempt: `429`, or any `5xx`.
pub open spec fn is_transient_status(status: u16) -> bool {
    status == 429 || (500 <= status && status <= 599)
}

/// The error that a status other than `200` stands for.
pub open spec fn status_error(status: u16, body: Seq<char>) -> AgentErrorView {
    if status == 401 {
        AgentErrorView::Unauthorized
    } else if status == 403 {
        AgentErrorView::Forbidden
    } else if status == 429 {
        AgentErrorView::RateLimited
    } else {
        AgentErrorView::Unknown("("@ + decimal(status as nat) + ") "@ + body)
    }
}

/// What an answer with this status and body means for the shipment.
pub open spec fn response_result(status: u16, body: Seq<char>) -> Result<(), AgentErrorView> {
    if status == 200 {
        Ok(())
    } else {
        Err(status_error(status, body))
    }
}

/// The view of a shipment's result.
pub open spec fn result_view(result: Result<(), AgentError>) -> Result<(), AgentErrorView> {
    match result {
        Ok(()) => Ok(()),
        Err(err) => Err(err@),
    }
}

/// Classifies an answer by its status: `200` is success, `401`, `403` and
/// `429` have errors of their own, and every other status is an unknown
/// error that quotes the status and the body.
pub fn classify_response(status: u16, body: &str) -> (result: Result<(), AgentError>)
    ensures
        result_view(result) == response_result(status, body@),
{
    if status == 200 {
        Ok(())
    } else if status == 401 {
        Err(AgentError::Unauthorized)
    } else if status == 403 {
        Err(AgentError::Forbidden)
    } else if status == 429 {
        Err(AgentError::RateLimited)
    } else {
        let code = decimal_string(status as u64);
        let head = join3("(", code.as_str(), ") ");
        Err(AgentError::Unknown(join2(head.as_str(), body)))
    }
}

/// Whether an answer with this status is retried while the policy allows.
pub fn is_transient(status: u16) -> (transient: bool)
    ensures
        transient == is_transient_status(status),
{
    status == 429 || (500 <= status && status <= 599)
}

/// What came of one attempt to post the report.
#[derive(Debug, Clone, PartialEq, Eq)]
pub enum Attempt {
    /// The endpoint answered.
    Response { status: u16, body: String },
    /// No answer came: the connection failed or timed out.
    TransportFailure { message: String },
}

/// The mathematical content of an [`Attempt`].
pub enum AttemptView {
    Response { status: u16, body: Seq<char> },
    TransportFailure { message: Seq<char> },
}

impl View for Attempt {
    type V = AttemptView;

    open spec fn view(&self) -> AttemptView {
        match self {
            Attempt::Response { status, body } => AttemptView::Response {
                status: *status,
                body: body@,
            },
            Attempt::TransportFailure { message } => AttemptView::TransportFailure {
                message: message@,
            },
        }
    }
}

impl AttemptView {
    /// The result that the shipment has if it ends with this attempt.
    pub open spec fn result(self) -> Result<(), AgentErrorView> {
        match self {
            AttemptView::Response { status, body } => response_result(status, body),
            AttemptView::TransportFailure { message } => Err(AgentErrorView::Unknown(message)),
        }
    }

    /// Whether the attempt failed in a way that may pass: a transport
    /// failure, or a transient status.
    pub open spec fn is_transient(self) -> bool {
        match self {
            AttemptView::Response { status, body } => is_transient_status(status),
            AttemptView::TransportFailure { message } => true,
        }
    }
}

/// What the caller does after an attempt.
#[derive(Debug)]
pub enum Next {
    /// The shipment is over, with this result.
    Done(Result<(), AgentError>),
    /// Post the report again, not before `execute_after`.
    Retry { execute_after: SystemTime },
}

impl Attempt {
    /// Whether the attempt failed in a way that may pass.
    pub fn is_transient(&self) -> (transient: bool)
        ensures
            transient == self@.is_transient(),
    {
        match self {
            Attempt::Response { status, body } => is_transient(*status),
            Attempt::TransportFailure { message } => true,
        }
    }

    /// The result that the shipment has if it ends with this attempt.
    pub fn into_result(self) -> (result: Result<(), AgentError>)
        ensures
            result_view(result) == self@.result(),
    {
        match self {
            Attempt::Response { status, body } => classify_response(status, body.as_str()),
            Attempt::TransportFailure { message } => Err(AgentError::Unknown(message)),
        }
    }

    /// What follows from an attempt, given the retry policy's verdict on it:
    /// a transient failure is retried when the policy says so, and anything
    /// else ends the shipment with the attempt's result.
    pub fn settle(self, verdict: RetryVerdict) -> (next: Next)
        ensures
            self@.is_transient() && verdict is Retry ==> next == (Next::Retry {
                execute_after: verdict->execute_after,
            }),
            !(self@.is_transient() && verdict is Retry) ==> next is Done && result_view(
                next->Done_0,
            ) == self@.result(),
    {
        let transient = self.is_transient();
        match verdict {
            RetryVerdict::Retry { execute_after } => {
                if transient {
                    Next::Retry { execute_after }
                } else {
                    Next::Done(self.into_result())
                }
            },
            RetryVerdict::DoNotRetry => Next::Done(self.into_result()),
        }
    }
}

/// Whether the shipment ends with this attempt, after `retries` retries.
pub open spec fn finishes(policy: RetryPolicy, retries: u32, attempt: AttemptView) -> bool {
    !(attempt.is_transient() && policy.allows(retries))
}

/// One shipment in progress: the policy, and how often it has been retried.
#[derive(Debug, Clone, Copy)]
pub struct Shipment {
    policy: RetryPolicy,
    retries: u32,
}

impl Shipment {
    /// The retry policy of the shipment.
    pub closed spec fn policy(&self) -> RetryPolicy {
        self.policy
    }

    /// The number of retries that the shipment has been granted.
    pub closed spec fn retries(&self) -> u32 {
        self.retries
    }

    /// A shipment before its first attempt.
    pub fn new(policy: RetryPolicy) -> (shipment: Shipment)
        ensures
            shipment.policy() == policy,
            shipment.retries() == 0,
    {
        Shipment { policy, retries: 0 }
    }

    /// The number of retries granted so far.
    pub fn retries_so_far(&self) -> (n: u32)
        ensures
            n == self.retries(),
    {
        self.retries
    }

    /// Takes in what came of an attempt that started at `request_start_time`
    /// and says what to do next. Success and permanent failures end the
    /// shipment at once. A transient failure is retried while the policy
    /// allows one more retry, and ends the shipment with its error once the
    /// retries are used up.
    pub fn on_attempt(&mut self, attempt: Attempt, request_start_time: SystemTime) -> (next: Next)
        ensures
            final(self).policy() == old(self).policy(),
            finishes(old(self).policy(), old(self).retries(), attempt@) ==> {
                &&& next is Done
                &&& result_view(next->Done_0) == attempt@.result()
                &&& final(self).retries() == old(self).retries()
            },
            !finishes(old(self).policy(), old(self).retries(), attempt@) ==> {
                &&& next is Retry
                &&& final(self).retries() == old(self).retries() + 1
            },
    {
        if attempt.is_transient() {
            let verdict = self.policy.should_retry(request_start_time, self.retries);
            match verdict {
                RetryVerdict::Retry { execute_after } => {
                    self.retries = self.retries + 1;
                },
                RetryVerdict::DoNotRetry => {},
            }
            attempt.settle(verdict)
        } else {
            attempt.settle(RetryVerdict::DoNotRetry)
        }
    }
}

/// What a shipment comes to when its attempts turn out as listed: the result
/// and the number of requests made, or nothing if the list ends while a
/// retry is still owed.
pub open spec fn shipment_outcome(
    policy: RetryPolicy,
    retries: u32,
    attempts: Seq<AttemptView>,
) -> Option<(Result<(), AgentErrorView>, nat)>
    decreases attempts.len(),
{
    if attempts.len() == 0 {
        None
    } else if finishes(policy, retries, attempts[0]) {
        Some((attempts[0].result(), 1nat))
    } else {
        match shipment_outcome(policy, (retries + 1) as u32, attempts.drop_first()) {
            Some((result, requests)) => Some((result, requests + 1)),
            None => None,
        }
    }
}

/// A shipment fails with `Unauthorized`, `Forbidden`, `RateLimited` or an
/// unknown error, and never with an error of the configuration.
pub proof fn lemma_shipment_errors_are_not_configuration(attempt: AttemptView)
    ensures
        attempt.result() matches Err(err) ==> !err.is_configuration() && !(err is Lock),
        attempt.result() matches Err(err) ==> (err is Unauthorized || err is Forbidden)
            ==> !attempt.is_transient(),
{
}

/// A `401` ends the shipment with `Unauthorized` after the one request that
/// it answered, whatever the policy and whatever would have followed.
pub proof fn lemma_unauthorized_is_not_retried(
    policy: RetryPolicy,
    retries: u32,
    body: Seq<char>,
    later: Seq<AttemptView>,
)
    ensures
        finishes(policy, retries, AttemptView::Response { status: 401, body }),
        shipment_outcome(
            policy,
            retries,
            seq![AttemptView::Response { status: 401, body }] + later,
        ) == Some((Err::<(), AgentErrorView>(AgentErrorView::Unauthorized), 1nat)),
{
}

/// A permanent failure is never retried: the shipment ends with the first
/// attempt that is not transient.
pub proof fn lemma_permanent_failure_is_final(
    policy: RetryPolicy,
    retries: u32,
    attempt: AttemptView,
    later: Seq<AttemptView>,
)
    requires
        !attempt.is_transient(),
    ensures
        shipment_outcome(policy, retries, seq![attempt] + later) == Some(
            (attempt.result(), 1nat),
        ),
{
}

/// A `429` followed by a `200` is a success after two requests, as long as
/// one retry is left.
pub proof fn lemma_rate_limited_then_ok(
    policy: RetryPolicy,
    retries: u32,
    first_body: Seq<char>,
    second_body: Seq<char>,
)
    requires
        policy.allows(retries),
    ensures
        shipment_outcome(
            policy,
            retries,
            seq![
                AttemptView::Response { status: 429, body: first_body },
                AttemptView::Response { status: 200, body: second_body },
            ],
        ) == Some((Ok::<(), AgentErrorView>(()), 2nat)),
{
    let attempts = seq![
        AttemptView::Response { status: 429, body: first_body },
        AttemptView::Response { status: 200, body: second_body },
    ];
    assert(attempts.drop_first() =~= seq![AttemptView::Response { status: 200, body: second_body }]);
    assert(attempts.drop_first()[0] == AttemptView::Response { status: 200, body: second_body });
    reveal_with_fuel(shipment_outcome, 3);
}

/// A shipment never makes more requests than one and the retries that the
/// policy has left.
pub proof fn lemma_requests_stay_in_budget(
    policy: RetryPolicy,
    retries: u32,
    attempts: Seq<AttemptView>,
)
    requires
        retries <= policy.max_retries,
    ensures
        shipment_outcome(policy, retries, attempts) matches Some((_, requests)) ==> 1 <= requests
            <= policy.max_retries - retries + 1,
    decreases attempts.len(),
{
    if attempts.len() > 0 && !finishes(policy, retries, attempts[0]) {
        lemma_requests_stay_in_budget(policy, (retries + 1) as u32, attempts.drop_first());
    }
}

} // verus!
