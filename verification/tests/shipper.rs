use hive_console_sdk::agent::error::AgentError;
use hive_console_sdk::agent::shipper::{
    classify_response, is_transient, request_headers, Attempt, Next, Shipment,
};
use hive_console_sdk::headers::Header;
use hive_console_sdk::retry::{RetryPolicy, RetryVerdict};
use std::time::SystemTime;

fn response(status: u16, body: &str) -> Attempt {
    Attempt::Response { status, body: body.to_string() }
}

fn header(name: &str, value: &str, sensitive: bool) -> Header {
    Header { name: name.to_string(), value: value.to_string(), sensitive }
}

#[test]
fn request_headers_follow_the_wire_contract() {
    let headers = request_headers("hvo1/secret", "hive-router/1.0", 1234);
    assert_eq!(
        headers,
        vec![
            header("X-Usage-API-Version", "2", false),
            header("Authorization", "Bearer hvo1/secret", true),
            header("User-Agent", "hive-router/1.0", false),
            header("Content-Type", "application/json", false),
            header("Content-Length", "1234", false),
        ]
    );
    assert_eq!(request_headers("t", "ua", 0)[4].value, "0");
}

#[test]
fn classify_response_maps_statuses() {
    assert_eq!(classify_response(200, "ignored"), Ok(()));
    assert_eq!(classify_response(401, "x"), Err(AgentError::Unauthorized));
    assert_eq!(classify_response(403, "x"), Err(AgentError::Forbidden));
    assert_eq!(classify_response(429, "x"), Err(AgentError::RateLimited));
    assert_eq!(
        classify_response(500, "boom"),
        Err(AgentError::Unknown("(500) boom".to_string()))
    );
    assert_eq!(
        classify_response(404, ""),
        Err(AgentError::Unknown("(404) ".to_string()))
    );
    assert_eq!(
        classify_response(201, "created"),
        Err(AgentError::Unknown("(201) created".to_string()))
    );
}

#[test]
fn transient_statuses_are_429_and_5xx() {
    assert!(is_transient(429));
    assert!(is_transient(500));
    assert!(is_transient(503));
    assert!(is_transient(599));
    assert!(!is_transient(600));
    assert!(!is_transient(499));
    assert!(!is_transient(200));
    assert!(!is_transient(401));
    assert!(!is_transient(403));
    assert!(!is_transient(404));
    assert!(!is_transient(408));
    assert!(response(502, "").is_transient());
    assert!(!response(400, "").is_transient());
    assert!(Attempt::TransportFailure { message: "reset".to_string() }.is_transient());
}

#[test]
fn into_result_classifies_attempts() {
    assert_eq!(response(200, "").into_result(), Ok(()));
    assert_eq!(response(403, "").into_result(), Err(AgentError::Forbidden));
    assert_eq!(
        Attempt::TransportFailure { message: "connection reset".to_string() }.into_result(),
        Err(AgentError::Unknown("connection reset".to_string()))
    );
}

#[test]
fn settle_follows_the_verdict_only_for_transient_failures() {
    let at = SystemTime::UNIX_EPOCH;
    let retry = RetryVerdict::Retry { execute_after: at };
    match response(429, "").settle(retry) {
        Next::Retry { execute_after } => assert_eq!(execute_after, at),
        other => panic!("unexpected {:?}", other),
    }
    assert!(matches!(response(429, "").settle(RetryVerdict::DoNotRetry), Next::Done(Err(AgentError::RateLimited))));
    assert!(matches!(response(401, "").settle(retry), Next::Done(Err(AgentError::Unauthorized))));
    assert!(matches!(response(200, "").settle(retry), Next::Done(Ok(()))));
    assert!(matches!(response(404, "").settle(retry), Next::Done(Err(AgentError::Unknown(_)))));
}

#[test]
fn unauthorized_is_not_retried() {
    let mut shipment = Shipment::new(RetryPolicy::new());
    let next = shipment.on_attempt(response(401, "no"), SystemTime::now());
    assert!(matches!(next, Next::Done(Err(AgentError::Unauthorized))));
    assert_eq!(shipment.retries_so_far(), 0);
}

#[test]
fn forbidden_and_other_client_errors_are_not_retried() {
    let mut shipment = Shipment::new(RetryPolicy::new());
    assert!(matches!(
        shipment.on_attempt(response(403, ""), SystemTime::now()),
        Next::Done(Err(AgentError::Forbidden))
    ));
    match shipment.on_attempt(response(400, "bad"), SystemTime::now()) {
        Next::Done(Err(AgentError::Unknown(message))) => assert_eq!(message, "(400) bad"),
        other => panic!("unexpected {:?}", other),
    }
    assert_eq!(shipment.retries_so_far(), 0);
}

#[test]
fn retryable_429_then_200_succeeds_with_two_posts() {
    let mut shipment = Shipment::new(RetryPolicy::new());
    let mut posts = 0;
    let answers = [429u16, 200u16];
    let result = loop {
        let status = answers[posts];
        posts += 1;
        match shipment.on_attempt(response(status, ""), SystemTime::now()) {
            Next::Done(result) => break result,
            Next::Retry { .. } => {}
        }
    };
    assert_eq!(result, Ok(()));
    assert_eq!(posts, 2);
    assert_eq!(shipment.retries_so_far(), 1);
}

#[test]
fn transient_failures_end_when_retries_are_used_up() {
    let mut shipment = Shipment::new(RetryPolicy::with_max_retries(2));
    let mut posts = 0;
    let result = loop {
        posts += 1;
        match shipment.on_attempt(response(503, "down"), SystemTime::now()) {
            Next::Done(result) => break result,
            Next::Retry { .. } => {}
        }
    };
    assert_eq!(posts, 3);
    assert_eq!(result, Err(AgentError::Unknown("(503) down".to_string())));
    assert_eq!(shipment.retries_so_far(), 2);
}

#[test]
fn transport_failure_is_retried_then_surfaced() {
    let mut shipment = Shipment::new(RetryPolicy::with_max_retries(1));
    let failure = || Attempt::TransportFailure { message: "timed out".to_string() };
    assert!(matches!(shipment.on_attempt(failure(), SystemTime::now()), Next::Retry { .. }));
    match shipment.on_attempt(failure(), SystemTime::now()) {
        Next::Done(Err(AgentError::Unknown(message))) => assert_eq!(message, "timed out"),
        other => panic!("unexpected {:?}", other),
    }
}

#[test]
fn no_retries_means_one_attempt() {
    let mut shipment = Shipment::new(RetryPolicy::with_max_retries(0));
    assert!(matches!(
        shipment.on_attempt(response(429, ""), SystemTime::now()),
        Next::Done(Err(AgentError::RateLimited))
    ));
}

#[test]
fn retry_is_scheduled_not_before_now_minus_a_moment() {
    let mut shipment = Shipment::new(RetryPolicy::new());
    let before = SystemTime::now();
    match shipment.on_attempt(response(500, ""), before) {
        Next::Retry { execute_after } => assert!(execute_after >= before),
        other => panic!("unexpected {:?}", other),
    }
}
