use hive_console_sdk::agent::error::AgentError;
use hive_console_sdk::persisted_documents::PersistedDocumentsError;
use hive_console_sdk::supergraph_fetcher::error::{LockErrorType, SupergraphFetcherError};

#[test]
fn agent_error_messages() {
    assert_eq!(AgentError::Lock("poisoned".to_string()).message(), "unable to acquire lock: poisoned");
    assert_eq!(AgentError::Unauthorized.message(), "unable to send report: token is missing");
    assert_eq!(AgentError::Forbidden.message(), "unable to send report: no access");
    assert_eq!(AgentError::RateLimited.message(), "unable to send report: rate limited");
    assert_eq!(AgentError::Unknown("(500) x".to_string()).message(), "unable to send report: (500) x");
    assert_eq!(AgentError::MissingToken.message(), "unable to create agent: token is missing");
    assert_eq!(AgentError::InvalidToken.message(), "unable to create agent: token is invalid");
    assert_eq!(
        AgentError::HTTPClientCreationError("tls".to_string()).message(),
        "unable to create http client: tls"
    );
    assert_eq!(AgentError::MissingTargetId.message(), "unable to create agent: target id is missing");
    assert_eq!(AgentError::InvalidTargetId("<empty>".to_string()).message(), "invalid target id: <empty>");
    assert_eq!(
        AgentError::TargetIdRegexError("x".to_string()).message(),
        "unable to validate target id: x"
    );
}

#[test]
fn fetcher_error_messages() {
    assert_eq!(
        SupergraphFetcherError::HTTPClientCreation("tls".to_string()).message(),
        "Creating HTTP Client failed: tls"
    );
    assert_eq!(SupergraphFetcherError::Network("reset".to_string()).message(), "Network error: reset");
    assert_eq!(
        SupergraphFetcherError::ResponseParse("utf8".to_string()).message(),
        "Parsing response failed: utf8"
    );
    assert_eq!(
        SupergraphFetcherError::ETagRead("WouldBlock".to_string()).message(),
        "Reading the etag record failed: WouldBlock"
    );
    assert_eq!(
        SupergraphFetcherError::ETagWrite("WouldBlock".to_string()).message(),
        "Updating the etag record failed: WouldBlock"
    );
    assert_eq!(
        SupergraphFetcherError::InvalidKey("failed to parse header value".to_string()).message(),
        "Invalid CDN key: failed to parse header value"
    );
    assert_eq!(
        SupergraphFetcherError::MissingConfigurationOption("key".to_string()).message(),
        "Missing configuration option: key"
    );
    assert_eq!(
        SupergraphFetcherError::RejectedByCircuitBreaker.message(),
        "Request rejected by circuit breaker"
    );
    assert_eq!(
        SupergraphFetcherError::CircuitBreakerCreation("rate".to_string()).message(),
        "Creating circuit breaker failed: rate"
    );
}

#[test]
fn lock_errors_follow_the_kind() {
    assert_eq!(
        SupergraphFetcherError::lock(LockErrorType::Read, "busy".to_string()),
        SupergraphFetcherError::ETagRead("busy".to_string())
    );
    assert_eq!(
        SupergraphFetcherError::lock(LockErrorType::Write, "busy".to_string()),
        SupergraphFetcherError::ETagWrite("busy".to_string())
    );
}

#[test]
fn persisted_documents_error_codes() {
    let cases = [
        (PersistedDocumentsError::FailedToReadBody("x".to_string()), "FAILED_TO_READ_BODY"),
        (PersistedDocumentsError::FailedToParseBody("x".to_string()), "FAILED_TO_PARSE_BODY"),
        (PersistedDocumentsError::DocumentNotFound, "PERSISTED_DOCUMENT_NOT_FOUND"),
        (PersistedDocumentsError::KeyNotFound, "PERSISTED_DOCUMENT_KEY_NOT_FOUND"),
        (PersistedDocumentsError::FailedToFetchFromCDN("x".to_string()), "FAILED_TO_FETCH_FROM_CDN"),
        (
            PersistedDocumentsError::FailedToReadCDNResponse("x".to_string()),
            "FAILED_TO_READ_CDN_RESPONSE",
        ),
        (PersistedDocumentsError::PersistedDocumentRequired, "PERSISTED_DOCUMENT_REQUIRED"),
        (
            PersistedDocumentsError::MissingConfigurationOption("key".to_string()),
            "MISSING_CONFIGURATION_OPTION",
        ),
    ];
    for (error, code) in cases {
        assert_eq!(error.code(), code);
    }
}

#[test]
fn persisted_documents_error_messages() {
    assert_eq!(
        PersistedDocumentsError::FailedToReadBody("eof".to_string()).message(),
        "Failed to read body: eof"
    );
    assert_eq!(
        PersistedDocumentsError::FailedToParseBody("line 1".to_string()).message(),
        "Failed to parse body: line 1"
    );
    assert_eq!(PersistedDocumentsError::DocumentNotFound.message(), "Persisted document not found.");
    assert_eq!(
        PersistedDocumentsError::KeyNotFound.message(),
        "Failed to locate the persisted document key in request."
    );
    assert_eq!(
        PersistedDocumentsError::FailedToFetchFromCDN("reset".to_string()).message(),
        "Failed to validate persisted document"
    );
    assert_eq!(
        PersistedDocumentsError::FailedToReadCDNResponse("utf8".to_string()).message(),
        "Failed to read CDN response body"
    );
    assert_eq!(
        PersistedDocumentsError::PersistedDocumentRequired.message(),
        "No persisted document provided, or document id cannot be resolved."
    );
    assert_eq!(
        PersistedDocumentsError::MissingConfigurationOption("endpoint".to_string()).message(),
        "Missing required configuration option: endpoint"
    );
}
