//! The usage agent: its configuration, its buffer, and what it decides.
//!
//! The agent neither sends nor waits. Its host hands it reports, asks it to
//! flush, and carries out what the answers say: a flush that is due, a
//! report to ship, notices to log.

use crate::agent::batch::{
    answers, fold_notices, fold_report, notice_views, outcome_views, produce_report, produced,
    report_views,
};
use crate::agent::buffer::Buffer;
use crate::agent::endpoint::{resolve_endpoint, resolved_endpoint};
use crate::agent::error::{AgentError, AgentErrorView};
use crate::agent::report::{DropNotice, ExecutionReport, Processed, Report};
use crate::agent::shipper::{request_headers, request_headers_of, Shipment};
use crate::headers::{header_views, Header};
use crate::retry::RetryPolicy;
use crate::text::option_text;
use std::time::Duration;
use vstd::prelude::*;

verus! {

/// What an agent is configured with.
pub struct AgentSettings {
    pub token: Seq<char>,
    pub endpoint: Seq<char>,
    pub buffer_size: usize,
    pub connect_timeout: Duration,
    pub request_timeout: Duration,
    pub accept_invalid_certs: bool,
    pub flush_interval: Duration,
    pub user_agent: Seq<char>,
    pub retry_policy: RetryPolicy,
}

/// An agent that collects execution reports and turns them into usage
/// reports.
#[derive(Debug)]
pub struct UsageAgent {
    token: String,
    buffer_size: usize,
    endpoint: String,
    buffer: Buffer<ExecutionReport>,
    connect_timeout: Duration,
    request_timeout: Duration,
    accept_invalid_certs: bool,
    flush_interval: Duration,
    user_agent: String,
    retry_policy: RetryPolicy,
}

/// What a flush yields.
#[derive(Debug)]
pub struct Flush {
    /// The number of reports taken from the buffer.
    pub drained: usize,
    /// The report to ship, if the batch left any operation in it.
    pub report: Option<Report>,
    /// The notices to log, one for each report that was left out.
    pub notices: Vec<DropNotice>,
}

impl Flush {
    /// Folds a drained batch into what a flush yields, asking `process` for
    /// each report's normalized operation. Whoever shares the agent between
    /// tasks drains it under the lock and calls this after releasing it.
    pub fn from_batch<F>(batch: Vec<ExecutionReport>, process: F) -> (flush: Flush) where
        F: Fn(&ExecutionReport) -> Processed,
        requires
            forall|r: &ExecutionReport| call_requires(process, (r,)),
        ensures
            flush.drained == batch@.len(),
            exists|outcomes: Seq<Processed>| #[trigger] flushed(process, batch@, outcomes, flush),
    {
        let drained = batch.len();
        let ghost reports = batch@;
        let (report, notices) = produce_report(batch, process);
        let ghost folded = report@;
        let ghost told = notice_views(notices@);
        let shipped = if report.size() > 0 {
            Some(report)
        } else {
            None
        };
        let flush = Flush { drained, report: shipped, notices };
        proof {
            let outcomes = choose|outcomes: Seq<Processed>| #[trigger]
                produced(process, reports, outcomes, folded, told);
            assert(flushed(process, reports, outcomes, flush));
        }
        flush
    }
}

/// What happens to the ticker of the periodic flush.
#[derive(Debug, Clone, Copy, PartialEq, Eq)]
pub enum IntervalEvent {
    /// The flush interval has passed.
    Tick,
    /// The host has asked the ticker to stop.
    Cancelled,
}

/// What the ticker does about it.
#[derive(Debug, Clone, Copy, PartialEq, Eq)]
pub enum IntervalAction {
    /// Flush, then wait for the next event.
    Flush,
    /// Leave the loop, without a last flush.
    Stop,
}

/// What the ticker does on an event: it flushes on every tick and stops when
/// it is cancelled.
pub fn on_interval_event(event: IntervalEvent) -> (action: IntervalAction)
    ensures
        action == match event {
            IntervalEvent::Tick => IntervalAction::Flush,
            IntervalEvent::Cancelled => IntervalAction::Stop,
        },
{
    match event {
        IntervalEvent::Tick => IntervalAction::Flush,
        IntervalEvent::Cancelled => IntervalAction::Stop,
    }
}

impl UsageAgent {
    /// The agent's configuration.
    pub closed spec fn settings(&self) -> AgentSettings {
        AgentSettings {
            token: self.token@,
            endpoint: self.endpoint@,
            buffer_size: self.buffer_size,
            connect_timeout: self.connect_timeout,
            request_timeout: self.request_timeout,
            accept_invalid_certs: self.accept_invalid_certs,
            flush_interval: self.flush_interval,
            user_agent: self.user_agent@,
            retry_policy: self.retry_policy,
        }
    }

    /// The reports that wait to be flushed, oldest first.
    pub closed spec fn pending(&self) -> Seq<ExecutionReport> {
        self.buffer@
    }

    /// An agent with an empty buffer and the default retry policy. The
    /// endpoint is resolved from the configured one, the token and the
    /// target id; the agent is refused where that fails.
    pub fn new(
        token: String,
        endpoint: String,
        target_id: Option<String>,
        buffer_size: usize,
        connect_timeout: Duration,
        request_timeout: Duration,
        accept_invalid_certs: bool,
        flush_interval: Duration,
        user_agent: String,
    ) -> (made: Result<UsageAgent, AgentError>)
        ensures
            match made {
                Ok(agent) => {
                    &&& resolved_endpoint(endpoint@, token@, option_text(target_id)) == Ok::<
                        Seq<char>,
                        AgentErrorView,
                    >(agent.settings().endpoint)
                    &&& agent.settings() == (AgentSettings {
                        token: token@,
                        endpoint: agent.settings().endpoint,
                        buffer_size,
                        connect_timeout,
                        request_timeout,
                        accept_invalid_certs,
                        flush_interval,
                        user_agent: user_agent@,
                        retry_policy: RetryPolicy { max_retries: 3 },
                    })
                    &&& agent.pending() == Seq::<ExecutionReport>::empty()
                },
                Err(err) => resolved_endpoint(endpoint@, token@, option_text(target_id)) == Err::<
                    Seq<char>,
                    AgentErrorView,
                >(err@),
            },
    {
        UsageAgent::with_retry_policy(
            token,
            endpoint,
            target_id,
            buffer_size,
            connect_timeout,
            request_timeout,
            accept_invalid_certs,
            flush_interval,
            user_agent,
            RetryPolicy::new(),
        )
    }

    /// As [`UsageAgent::new`], with a retry policy of the caller's choice.
    pub fn with_retry_policy(
        token: String,
        endpoint: String,
        target_id: Option<String>,
        buffer_size: usize,
        connect_timeout: Duration,
        request_timeout: Duration,
        accept_invalid_certs: bool,
        flush_interval: Duration,
        user_agent: String,
        retry_policy: RetryPolicy,
    ) -> (made: Result<UsageAgent, AgentError>)
        ensures
            match made {
                Ok(agent) => {
                    &&& resolved_endpoint(endpoint@, token@, option_text(target_id)) == Ok::<
                        Seq<char>,
                        AgentErrorView,
                    >(agent.settings().endpoint)
                    &&& agent.settings() == (AgentSettings {
                        token: token@,
                        endpoint: agent.settings().endpoint,
                        buffer_size,
                        connect_timeout,
                        request_timeout,
                        accept_invalid_certs,
                        flush_interval,
                        user_agent: user_agent@,
                        retry_policy,
                    })
                    &&& agent.pending() == Seq::<ExecutionReport>::empty()
                },
                Err(err) => resolved_endpoint(endpoint@, token@, option_text(target_id)) == Err::<
                    Seq<char>,
                    AgentErrorView,
                >(err@),
            },
    {
        match resolve_endpoint(endpoint, token.as_str(), target_id) {
            Ok(resolved) => Ok(
                UsageAgent {
                    token,
                    buffer_size,
                    endpoint: resolved,
                    buffer: Buffer::new(buffer_size),
                    connect_timeout,
                    request_timeout,
                    accept_invalid_certs,
                    flush_interval,
                    user_agent,
                    retry_policy,
                },
            ),
            Err(err) => Err(err),
        }
    }

    /// The bearer token.
    pub fn token(&self) -> (token: &String)
        ensures
            token@ == self.settings().token,
    {
        &self.token
    }

    /// The endpoint that reports are posted to.
    pub fn endpoint(&self) -> (endpoint: &String)
        ensures
            endpoint@ == self.settings().endpoint,
    {
        &self.endpoint
    }

    /// The number of pending reports from which a flush is due.
    pub fn buffer_size(&self) -> (size: usize)
        ensures
            size == self.settings().buffer_size,
    {
        self.buffer_size
    }

    /// The timeout for connecting to the endpoint.
    pub fn connect_timeout(&self) -> (timeout: Duration)
        ensures
            timeout == self.settings().connect_timeout,
    {
        self.connect_timeout
    }

    /// The timeout for a whole request.
    pub fn request_timeout(&self) -> (timeout: Duration)
        ensures
            timeout == self.settings().request_timeout,
    {
        self.request_timeout
    }

    /// Whether invalid certificates are accepted.
    pub fn accept_invalid_certs(&self) -> (accept: bool)
        ensures
            accept == self.settings().accept_invalid_certs,
    {
        self.accept_invalid_certs
    }

    /// The time between two periodic flushes.
    pub fn flush_interval(&self) -> (interval: Duration)
        ensures
            interval == self.settings().flush_interval,
    {
        self.flush_interval
    }

    /// The `User-Agent` of the agent's requests.
    pub fn user_agent(&self) -> (user_agent: &String)
        ensures
            user_agent@ == self.settings().user_agent,
    {
        &self.user_agent
    }

    /// The retry policy of the agent's shipments.
    pub fn retry_policy(&self) -> (policy: RetryPolicy)
        ensures
            policy == self.settings().retry_policy,
    {
        self.retry_policy
    }

    /// The number of reports that wait to be flushed.
    pub fn pending_len(&self) -> (n: usize)
        ensures
            n == self.pending().len(),
    {
        self.buffer.len()
    }

    /// Whether a buffer of `size` reports is due for a flush.
    pub fn flush_if_full(&self, size: usize) -> (due: bool)
        ensures
            due == (size >= self.settings().buffer_size),
    {
        size >= self.buffer_size
    }

    /// Appends a report to the buffer and says whether a flush is due: it is
    /// once the buffer has reached the configured size.
    pub fn add_report(&mut self, execution_report: ExecutionReport) -> (flush_due: bool)
        ensures
            final(self).pending() == old(self).pending().push(execution_report),
            final(self).settings() == old(self).settings(),
            flush_due == (old(self).pending().len() + 1 >= old(self).settings().buffer_size),
    {
        let size = self.buffer.push(execution_report);
        self.flush_if_full(size)
    }

    /// Takes all pending reports out of the buffer, oldest first.
    pub fn drain(&mut self) -> (drained: Vec<ExecutionReport>)
        ensures
            drained@ == old(self).pending(),
            final(self).pending() == Seq::<ExecutionReport>::empty(),
            final(self).settings() == old(self).settings(),
    {
        self.buffer.drain()
    }

    /// Drains the buffer and folds the batch into a report, asking `process`
    /// for each report's normalized operation. The report is to be shipped
    /// only if it holds an operation: an empty buffer, or a batch of which
    /// nothing is left, ships nothing.
    pub fn flush<F>(&mut self, process: F) -> (flush: Flush) where
        F: Fn(&ExecutionReport) -> Processed,
        requires
            forall|r: &ExecutionReport| call_requires(process, (r,)),
        ensures
            final(self).pending() == Seq::<ExecutionReport>::empty(),
            final(self).settings() == old(self).settings(),
            flush.drained == old(self).pending().len(),
            exists|outcomes: Seq<Processed>| #[trigger]
                flushed(process, old(self).pending(), outcomes, flush),
    {
        let batch = self.buffer.drain();
        let flush = Flush::from_batch(batch, process);
        proof {
            let outcomes = choose|outcomes: Seq<Processed>| #[trigger]
                flushed(process, old(self).pending(), outcomes, flush);
            assert(flushed(process, old(self).pending(), outcomes, flush));
        }
        flush
    }

    /// The headers of the request that ships a body of `body_len` bytes.
    pub fn request_headers(&self, body_len: usize) -> (headers: Vec<Header>)
        ensures
            header_views(headers@) == request_headers_of(
                self.settings().token,
                self.settings().user_agent,
                body_len as nat,
            ),
    {
        request_headers(self.token.as_str(), self.user_agent.as_str(), body_len)
    }

    /// A shipment under the agent's retry policy, before its first attempt.
    pub fn shipment(&self) -> (shipment: Shipment)
        ensures
            shipment.policy() == self.settings().retry_policy,
            shipment.retries() == 0,
    {
        Shipment::new(self.retry_policy)
    }
}

/// `flush` is what a batch yields under the answers `outcomes` of `process`:
/// the notices are those of the batch, and the report is the batch's report,
/// withheld when it is empty.
pub open spec fn flushed<F: Fn(&ExecutionReport) -> Processed>(
    process: F,
    reports: Seq<ExecutionReport>,
    outcomes: Seq<Processed>,
    flush: Flush,
) -> bool {
    let folded = fold_report(report_views(reports), outcome_views(outcomes));
    &&& answers(process, reports, outcomes)
    &&& notice_views(flush.notices@) == fold_notices(
        report_views(reports),
        outcome_views(outcomes),
    )
    &&& match flush.report {
        Some(report) => report.wf() && report@ == folded && folded.size() > 0,
        None => folded.size() == 0,
    }
}

} // verus!
