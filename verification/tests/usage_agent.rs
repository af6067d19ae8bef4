use hive_console_sdk::agent::builder::{default_headers, UsageAgentBuilder, DEFAULT_HIVE_USAGE_ENDPOINT};
use hive_console_sdk::agent::error::AgentError;
use hive_console_sdk::agent::report::{
    DropNotice, ExecutionReport, NormalizedOperation, Processed,
};
use hive_console_sdk::agent::shipper::{Attempt, Next};
use hive_console_sdk::agent::usage_agent::{
    on_interval_event, IntervalAction, IntervalEvent, UsageAgent,
};
use hive_console_sdk::headers::Header;
use hive_console_sdk::retry::RetryPolicy;
use std::time::{Duration, SystemTime};

fn report_for(body: &str) -> ExecutionReport {
    ExecutionReport {
        client_name: None,
        client_version: None,
        timestamp: 1,
        duration: Duration::from_nanos(5),
        ok: true,
        errors: 0,
        operation_body: body.to_string(),
        operation_name: None,
        persisted_document_hash: None,
    }
}

fn process(report: &ExecutionReport) -> Processed {
    if report.operation_body.contains("__schema") {
        Ok(None)
    } else {
        Ok(Some(NormalizedOperation {
            operation: report.operation_body.clone(),
            hash: format!("hash-of-{}", report.operation_body),
            coordinates: Vec::new(),
        }))
    }
}

fn agent_with_buffer(buffer_size: usize) -> UsageAgent {
    UsageAgent::new(
        "hvo1/token".to_string(),
        "https://app.example/usage".to_string(),
        None,
        buffer_size,
        Duration::from_secs(5),
        Duration::from_secs(15),
        false,
        Duration::from_millis(100),
        "test-agent".to_string(),
    )
    .unwrap()
}

#[test]
fn new_agent_keeps_its_settings() {
    let agent = UsageAgent::new(
        "hvo1/token".to_string(),
        "https://app.example/usage".to_string(),
        Some("org/project/target".to_string()),
        7,
        Duration::from_secs(1),
        Duration::from_secs(2),
        true,
        Duration::from_secs(3),
        "ua".to_string(),
    )
    .unwrap();
    assert_eq!(agent.token(), "hvo1/token");
    assert_eq!(agent.endpoint(), "https://app.example/usage/org/project/target");
    assert_eq!(agent.buffer_size(), 7);
    assert_eq!(agent.connect_timeout(), Duration::from_secs(1));
    assert_eq!(agent.request_timeout(), Duration::from_secs(2));
    assert!(agent.accept_invalid_certs());
    assert_eq!(agent.flush_interval(), Duration::from_secs(3));
    assert_eq!(agent.user_agent(), "ua");
    assert_eq!(agent.retry_policy(), RetryPolicy { max_retries: 3 });
    assert_eq!(agent.pending_len(), 0);
}

#[test]
fn new_agent_is_refused_for_bad_target_ids() {
    let made = UsageAgent::new(
        "hvu1/token".to_string(),
        "https://app.example/usage".to_string(),
        None,
        7,
        Duration::from_secs(1),
        Duration::from_secs(2),
        false,
        Duration::from_secs(3),
        "ua".to_string(),
    );
    assert!(matches!(made, Err(AgentError::MissingTargetId)));
    let made = UsageAgent::new(
        "hvu1/token".to_string(),
        "https://app.example/usage".to_string(),
        Some("not a target".to_string()),
        7,
        Duration::from_secs(1),
        Duration::from_secs(2),
        false,
        Duration::from_secs(3),
        "ua".to_string(),
    );
    assert!(matches!(made, Err(AgentError::InvalidTargetId(_))));
}

#[test]
fn size_trigger_fires_when_the_buffer_is_full() {
    let mut agent = agent_with_buffer(2);
    assert!(!agent.add_report(report_for("{ me { id } }")));
    assert!(agent.add_report(report_for("{ me { name } }")));
    assert_eq!(agent.pending_len(), 2);
    let flush = agent.flush(process);
    assert_eq!(flush.drained, 2);
    assert_eq!(flush.report.unwrap().size(), 2);
    assert_eq!(agent.pending_len(), 0);
    let again = agent.flush(process);
    assert_eq!(again.drained, 0);
    assert!(again.report.is_none());
}

#[test]
fn flush_if_full_compares_with_the_buffer_size() {
    let agent = agent_with_buffer(1000);
    assert!(!agent.flush_if_full(0));
    assert!(!agent.flush_if_full(999));
    assert!(agent.flush_if_full(1000));
    assert!(agent.flush_if_full(1001));
    assert!(agent_with_buffer(0).flush_if_full(0));
}

#[test]
fn single_flush_builds_one_report_in_drain_order() {
    let mut agent = agent_with_buffer(1000);
    for body in ["{ me { id } }", "{ me { name } }", "{ me { id } }"] {
        assert!(!agent.add_report(report_for(body)));
    }
    let flush = agent.flush(process);
    assert_eq!(flush.drained, 3);
    assert!(flush.notices.is_empty());
    let report = flush.report.unwrap();
    assert_eq!(report.size(), 3);
    assert_eq!(report.map_entries().len(), 2);
    assert_eq!(report.operations()[0].operation_map_key, report.operations()[2].operation_map_key);
    assert_ne!(report.operations()[0].operation_map_key, report.operations()[1].operation_map_key);
}

#[test]
fn introspection_only_flush_ships_nothing() {
    let mut agent = agent_with_buffer(1000);
    agent.add_report(report_for("{ __schema { types { name } } }"));
    let flush = agent.flush(process);
    assert_eq!(flush.drained, 1);
    assert!(flush.report.is_none());
    assert_eq!(flush.notices, vec![DropNotice::Skipped]);
    assert_eq!(agent.pending_len(), 0);
}

#[test]
fn drain_hands_out_pending_reports_once() {
    let mut agent = agent_with_buffer(10);
    agent.add_report(report_for("a"));
    agent.add_report(report_for("b"));
    let drained = agent.drain();
    assert_eq!(drained, vec![report_for("a"), report_for("b")]);
    assert!(agent.drain().is_empty());
}

#[test]
fn interval_flushes_on_tick_and_stops_on_cancel() {
    assert_eq!(on_interval_event(IntervalEvent::Tick), IntervalAction::Flush);
    assert_eq!(on_interval_event(IntervalEvent::Cancelled), IntervalAction::Stop);
}

#[test]
fn agent_request_headers_carry_token_and_user_agent() {
    let agent = agent_with_buffer(1);
    let headers = agent.request_headers(42);
    assert_eq!(headers.len(), 5);
    assert_eq!(headers[1].value, "Bearer hvo1/token");
    assert!(headers[1].sensitive);
    assert_eq!(headers[2].value, "test-agent");
    assert_eq!(headers[4].name, "Content-Length");
    assert_eq!(headers[4].value, "42");
}

#[test]
fn agent_shipment_uses_its_policy() {
    let agent = UsageAgentBuilder::new()
        .token("hvo1/t".to_string())
        .max_retries(1)
        .build()
        .unwrap();
    let mut shipment = agent.shipment();
    let failing = || Attempt::Response { status: 500, body: String::new() };
    assert!(matches!(shipment.on_attempt(failing(), SystemTime::now()), Next::Retry { .. }));
    assert!(matches!(shipment.on_attempt(failing(), SystemTime::now()), Next::Done(Err(_))));
}

#[test]
fn builder_defaults() {
    let agent = UsageAgentBuilder::new().token("hvo1/token".to_string()).build().unwrap();
    assert_eq!(DEFAULT_HIVE_USAGE_ENDPOINT, "https://app.graphql-hive.com/usage");
    assert_eq!(agent.endpoint(), "https://app.graphql-hive.com/usage");
    assert_eq!(agent.buffer_size(), 1000);
    assert_eq!(agent.connect_timeout(), Duration::from_secs(5));
    assert_eq!(agent.request_timeout(), Duration::from_secs(15));
    assert!(!agent.accept_invalid_certs());
    assert_eq!(agent.flush_interval(), Duration::from_secs(5));
    assert_eq!(agent.retry_policy().max_retries, 3);
    assert_eq!(agent.user_agent(), "");
    let same = UsageAgentBuilder::default().token("hvo1/token".to_string()).build().unwrap();
    assert_eq!(same.endpoint(), agent.endpoint());
}

#[test]
fn builder_takes_every_option() {
    let agent = UsageAgentBuilder::new()
        .token("hvp1/token".to_string())
        .endpoint("https://self.hosted/usage".to_string())
        .target_id("org/project/target".to_string())
        .buffer_size(2)
        .connect_timeout(Duration::from_secs(9))
        .request_timeout(Duration::from_secs(8))
        .accept_invalid_certs(true)
        .flush_interval(Duration::from_millis(100))
        .user_agent("hive-router/0.1".to_string())
        .retry_policy(RetryPolicy::with_max_retries(5))
        .build()
        .unwrap();
    assert_eq!(agent.token(), "hvp1/token");
    assert_eq!(agent.endpoint(), "https://self.hosted/usage/org/project/target");
    assert_eq!(agent.buffer_size(), 2);
    assert_eq!(agent.connect_timeout(), Duration::from_secs(9));
    assert_eq!(agent.request_timeout(), Duration::from_secs(8));
    assert!(agent.accept_invalid_certs());
    assert_eq!(agent.flush_interval(), Duration::from_millis(100));
    assert_eq!(agent.user_agent(), "hive-router/0.1");
    assert_eq!(agent.retry_policy().max_retries, 5);
}

#[test]
fn builder_ignores_empty_strings() {
    let agent = UsageAgentBuilder::new()
        .token("hvo1/token".to_string())
        .endpoint(String::new())
        .target_id(String::new())
        .user_agent(String::new())
        .build()
        .unwrap();
    assert_eq!(agent.endpoint(), DEFAULT_HIVE_USAGE_ENDPOINT);
    assert_eq!(agent.user_agent(), "");
}

#[test]
fn builder_requires_a_token() {
    assert!(matches!(UsageAgentBuilder::new().build(), Err(AgentError::MissingToken)));
    assert!(matches!(
        UsageAgentBuilder::new().token(String::new()).build(),
        Err(AgentError::MissingToken)
    ));
    assert!(matches!(
        UsageAgentBuilder::new().target_id("bad".to_string()).build(),
        Err(AgentError::MissingToken)
    ));
}

#[test]
fn builder_refuses_a_token_unfit_for_a_header() {
    assert!(matches!(
        UsageAgentBuilder::new().token("hvo1/to\nken".to_string()).build(),
        Err(AgentError::InvalidToken)
    ));
}

#[test]
fn builder_requires_a_target_id_unless_the_token_is_legacy() {
    assert!(matches!(
        UsageAgentBuilder::new().token("hvu1/token".to_string()).build(),
        Err(AgentError::MissingTargetId)
    ));
    assert!(matches!(
        UsageAgentBuilder::new()
            .token("hvu1/token".to_string())
            .target_id("a/b".to_string())
            .build(),
        Err(AgentError::InvalidTargetId(_))
    ));
    assert!(UsageAgentBuilder::new()
        .token("hvu1/token".to_string())
        .target_id("a/b/c".to_string())
        .build()
        .is_ok());
}

#[test]
fn default_headers_hold_version_authorization_and_content_type() {
    assert_eq!(
        default_headers("hvo1/token"),
        vec![
            Header { name: "X-Usage-API-Version".to_string(), value: "2".to_string(), sensitive: false },
            Header {
                name: "Authorization".to_string(),
                value: "Bearer hvo1/token".to_string(),
                sensitive: true,
            },
            Header {
                name: "Content-Type".to_string(),
                value: "application/json".to_string(),
                sensitive: false,
            },
        ]
    );
}
