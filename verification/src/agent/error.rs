//! What can go wrong in the usage agent.

use crate::text::join2;
use vstd::prelude::*;

verus! {

/// The agent's errors: configuration errors, which are raised when an agent
/// is built, and the outcomes of a shipment that did not succeed.
#[derive(Debug, Clone, PartialEq, Eq)]
pub enum AgentError {
    /// The buffer's lock could not be taken.
    Lock(String),
    /// The endpoint answered `401`.
    Unauthorized,
    /// The endpoint answered `403`.
    Forbidden,
    /// The endpoint answered `429`.
    RateLimited,
    /// Any other failure of a shipment, with its description.
    Unknown(String),
    /// No token was configured.
    MissingToken,
    /// The token cannot stand in an `Authorization` header.
    InvalidToken,
    /// The HTTP client could not be created.
    HTTPClientCreationError(String),
    /// The token requires a target id and none was configured.
    MissingTargetId,
    /// The target id is neither a slug of three segments nor a UUID.
    InvalidTargetId(String),
    /// A pattern for target ids could not be compiled.
    TargetIdRegexError(String),
}

/// The mathematical content of an [`AgentError`].
pub enum AgentErrorView {
    Lock(Seq<char>),
    Unauthorized,
    Forbidden,
    RateLimited,
    Unknown(Seq<char>),
    MissingToken,
    InvalidToken,
    HTTPClientCreationError(Seq<char>),
    MissingTargetId,
    InvalidTargetId(Seq<char>),
    TargetIdRegexError(Seq<char>),
}

impl View for AgentError {
    type V = AgentErrorView;

    open spec fn view(&self) -> AgentErrorView {
        match self {
            AgentError::Lock(s) => AgentErrorView::Lock(s@),
            AgentError::Unauthorized => AgentErrorView::Unauthorized,
            AgentError::Forbidden => AgentErrorView::Forbidden,
            AgentError::RateLimited => AgentErrorView::RateLimited,
            AgentError::Unknown(s) => AgentErrorView::Unknown(s@),
            AgentError::MissingToken => AgentErrorView::MissingToken,
            AgentError::InvalidToken => AgentErrorView::InvalidToken,
            AgentError::HTTPClientCreationError(s) => AgentErrorView::HTTPClientCreationError(s@),
            AgentError::MissingTargetId => AgentErrorView::MissingTargetId,
            AgentError::InvalidTargetId(s) => AgentErrorView::InvalidTargetId(s@),
            AgentError::TargetIdRegexError(s) => AgentErrorView::TargetIdRegexError(s@),
        }
    }
}

impl AgentErrorView {
    /// The text that describes the error.
    pub open spec fn message(self) -> Seq<char> {
        match self {
            AgentErrorView::Lock(s) => "unable to acquire lock: "@ + s,
            AgentErrorView::Unauthorized => "unable to send report: token is missing"@,
            AgentErrorView::Forbidden => "unable to send report: no access"@,
            AgentErrorView::RateLimited => "unable to send report: rate limited"@,
            AgentErrorView::Unknown(s) => "unable to send report: "@ + s,
            AgentErrorView::MissingToken => "unable to create agent: token is missing"@,
            AgentErrorView::InvalidToken => "unable to create agent: token is invalid"@,
            AgentErrorView::HTTPClientCreationError(s) => "unable to create http client: "@ + s,
            AgentErrorView::MissingTargetId => "unable to create agent: target id is missing"@,
            AgentErrorView::InvalidTargetId(s) => "invalid target id: "@ + s,
            AgentErrorView::TargetIdRegexError(s) => "unable to validate target id: "@ + s,
        }
    }

    /// Whether the error arises when an agent is configured, before any
    /// report is sent.
    pub open spec fn is_configuration(self) -> bool {
        match self {
            AgentErrorView::MissingToken
            | AgentErrorView::InvalidToken
            | AgentErrorView::HTTPClientCreationError(_)
            | AgentErrorView::MissingTargetId
            | AgentErrorView::InvalidTargetId(_)
            | AgentErrorView::TargetIdRegexError(_) => true,
            _ => false,
        }
    }
}

impl AgentError {
    /// The text that describes the error.
    pub fn message(&self) -> (text: String)
        ensures
            text@ == self@.message(),
    {
        match self {
            AgentError::Lock(s) => join2("unable to acquire lock: ", s.as_str()),
            AgentError::Unauthorized => String::from_str("unable to send report: token is missing"),
            AgentError::Forbidden => String::from_str("unable to send report: no access"),
            AgentError::RateLimited => String::from_str("unable to send report: rate limited"),
            AgentError::Unknown(s) => join2("unable to send report: ", s.as_str()),
            AgentError::MissingToken => String::from_str(
                "unable to create agent: token is missing",
            ),
            AgentError::InvalidToken => String::from_str(
                "unable to create agent: token is invalid",
            ),
            AgentError::HTTPClientCreationError(s) => join2(
                "unable to create http client: ",
                s.as_str(),
            ),
            AgentError::MissingTargetId => String::from_str(
                "unable to create agent: target id is missing",
            ),
            AgentError::InvalidTargetId(s) => join2("invalid target id: ", s.as_str()),
            AgentError::TargetIdRegexError(s) => join2(
                "unable to validate target id: ",
                s.as_str(),
            ),
        }
    }
}

} // verus!
