//! What can go wrong when a supergraph is fetched.

use crate::text::join2;
use vstd::prelude::*;

verus! {

/// Which way of taking the lock of the etag record failed.
#[derive(Debug, Clone, Copy, PartialEq, Eq)]
pub enum LockErrorType {
    Read,
    Write,
}

/// The errors of the supergraph fetcher, each with the description that its
/// source gave.
#[derive(Debug, Clone, PartialEq, Eq)]
pub enum SupergraphFetcherError {
    /// The HTTP client could not be created.
    HTTPClientCreation(String),
    /// The request failed on the network, after the retries.
    Network(String),
    /// The body of the response could not be read.
    ResponseParse(String),
    /// The etag record could not be read.
    ETagRead(String),
    /// The etag record could not be updated.
    ETagWrite(String),
    /// The CDN key cannot stand in a header.
    InvalidKey(String),
    /// A required option was not configured.
    MissingConfigurationOption(String),
    /// The endpoint's circuit breaker rejected the call.
    RejectedByCircuitBreaker,
    /// The circuit breaker could not be created.
    CircuitBreakerCreation(String),
}

/// The mathematical content of a [`SupergraphFetcherError`].
pub enum SupergraphFetcherErrorView {
    HTTPClientCreation(Seq<char>),
    Network(Seq<char>),
    ResponseParse(Seq<char>),
    ETagRead(Seq<char>),
    ETagWrite(Seq<char>),
    InvalidKey(Seq<char>),
    MissingConfigurationOption(Seq<char>),
    RejectedByCircuitBreaker,
    CircuitBreakerCreation(Seq<char>),
}

impl View for SupergraphFetcherError {
    type V = SupergraphFetcherErrorView;

    open spec fn view(&self) -> SupergraphFetcherErrorView {
        match self {
            SupergraphFetcherError::HTTPClientCreation(s) =>
                SupergraphFetcherErrorView::HTTPClientCreation(s@),
            SupergraphFetcherError::Network(s) => SupergraphFetcherErrorView::Network(s@),
            SupergraphFetcherError::ResponseParse(s) => SupergraphFetcherErrorView::ResponseParse(
                s@,
            ),
            SupergraphFetcherError::ETagRead(s) => SupergraphFetcherErrorView::ETagRead(s@),
            SupergraphFetcherError::ETagWrite(s) => SupergraphFetcherErrorView::ETagWrite(s@),
            SupergraphFetcherError::InvalidKey(s) => SupergraphFetcherErrorView::InvalidKey(s@),
            SupergraphFetcherError::MissingConfigurationOption(s) =>
                SupergraphFetcherErrorView::MissingConfigurationOption(s@),
            SupergraphFetcherError::RejectedByCircuitBreaker =>
                SupergraphFetcherErrorView::RejectedByCircuitBreaker,
            SupergraphFetcherError::CircuitBreakerCreation(s) =>
                SupergraphFetcherErrorView::CircuitBreakerCreation(s@),
        }
    }
}

impl SupergraphFetcherErrorView {
    /// The text that describes the error.
    pub open spec fn message(self) -> Seq<char> {
        match self {
            SupergraphFetcherErrorView::HTTPClientCreation(s) => "Creating HTTP Client failed: "@
                + s,
            SupergraphFetcherErrorView::Network(s) => "Network error: "@ + s,
            SupergraphFetcherErrorView::ResponseParse(s) => "Parsing response failed: "@ + s,
            SupergraphFetcherErrorView::ETagRead(s) => "Reading the etag record failed: "@ + s,
            SupergraphFetcherErrorView::ETagWrite(s) => "Updating the etag record failed: "@ + s,
            SupergraphFetcherErrorView::InvalidKey(s) => "Invalid CDN key: "@ + s,
            SupergraphFetcherErrorView::MissingConfigurationOption(s) =>
                "Missing configuration option: "@ + s,
            SupergraphFetcherErrorView::RejectedByCircuitBreaker =>
                "Request rejected by circuit breaker"@,
            SupergraphFetcherErrorView::CircuitBreakerCreation(s) =>
                "Creating circuit breaker failed: "@ + s,
        }
    }
}

impl SupergraphFetcherError {
    /// The error of a lock on the etag record that could not be taken.
    pub fn lock(kind: LockErrorType, detail: String) -> (err: SupergraphFetcherError)
        ensures
            err@ == match kind {
                LockErrorType::Read => SupergraphFetcherErrorView::ETagRead(detail@),
                LockErrorType::Write => SupergraphFetcherErrorView::ETagWrite(detail@),
            },
    {
        match kind {
            LockErrorType::Read => SupergraphFetcherError::ETagRead(detail),
            LockErrorType::Write => SupergraphFetcherError::ETagWrite(detail),
        }
    }

    /// The text that describes the error.
    pub fn message(&self) -> (text: String)
        ensures
            text@ == self@.message(),
    {
        match self {
            SupergraphFetcherError::HTTPClientCreation(s) => join2(
                "Creating HTTP Client failed: ",
                s.as_str(),
            ),
            SupergraphFetcherError::Network(s) => join2("Network error: ", s.as_str()),
            SupergraphFetcherError::ResponseParse(s) => join2(
                "Parsing response failed: ",
                s.as_str(),
            ),
            SupergraphFetcherError::ETagRead(s) => join2(
                "Reading the etag record failed: ",
                s.as_str(),
            ),
            SupergraphFetcherError::ETagWrite(s) => join2(
                "Updating the etag record failed: ",
                s.as_str(),
            ),
            SupergraphFetcherError::InvalidKey(s) => join2("Invalid CDN key: ", s.as_str()),
            SupergraphFetcherError::MissingConfigurationOption(s) => join2(
                "Missing configuration option: ",
                s.as_str(),
            ),
            SupergraphFetcherError::RejectedByCircuitBreaker => String::from_str(
                "Request rejected by circuit breaker",
            ),
            SupergraphFetcherError::CircuitBreakerCreation(s) => join2(
                "Creating circuit breaker failed: ",
                s.as_str(),
            ),
        }
    }
}

} // verus!
