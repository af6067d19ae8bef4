use hive_console_sdk::headers::Header;
use hive_console_sdk::persisted_documents::{
    CdnOutcome, PersistedDocumentsError, PersistedDocumentsManager,
    PersistedDocumentsManagerBuilder,
};
use hive_console_sdk::retry::RetryPolicy;
use std::cell::RefCell;
use std::time::Duration;

fn manager() -> PersistedDocumentsManager {
    PersistedDocumentsManager::builder()
        .key("cdn-key".to_string())
        .endpoint("https://cdn.example/artifacts/v1/target".to_string())
        .build()
        .unwrap()
}

#[test]
fn manager_builder_defaults_and_options() {
    let manager = manager();
    assert_eq!(manager.endpoint(), "https://cdn.example/artifacts/v1/target");
    assert_eq!(manager.cache_size(), 10_000);
    assert_eq!(manager.connect_timeout(), Duration::from_secs(5));
    assert_eq!(manager.request_timeout(), Duration::from_secs(15));
    assert!(!manager.accept_invalid_certs());
    assert_eq!(manager.retry_policy(), RetryPolicy { max_retries: 3 });
    assert_eq!(manager.user_agent(), &None);
    assert_eq!(
        manager.headers(),
        &vec![Header {
            name: "X-Hive-CDN-Key".to_string(),
            value: "cdn-key".to_string(),
            sensitive: false,
        }]
    );

    let manager = PersistedDocumentsManagerBuilder::default()
        .key("k".to_string())
        .endpoint("https://e".to_string())
        .accept_invalid_certs(true)
        .connect_timeout(Duration::from_secs(1))
        .request_timeout(Duration::from_secs(2))
        .retry_policy(RetryPolicy::with_max_retries(7))
        .max_retries(1)
        .cache_size(5)
        .user_agent("ua".to_string())
        .build()
        .unwrap();
    assert!(manager.accept_invalid_certs());
    assert_eq!(manager.connect_timeout(), Duration::from_secs(1));
    assert_eq!(manager.request_timeout(), Duration::from_secs(2));
    assert_eq!(manager.retry_policy().max_retries, 1);
    assert_eq!(manager.cache_size(), 5);
    assert_eq!(manager.user_agent(), &Some("ua".to_string()));
}

#[test]
fn builder_requires_key_then_endpoint() {
    let built = PersistedDocumentsManagerBuilder::default().build();
    assert_eq!(
        built.err(),
        Some(PersistedDocumentsError::MissingConfigurationOption("key".to_string()))
    );
    let built = PersistedDocumentsManagerBuilder::default().key(String::new()).build();
    assert_eq!(
        built.err(),
        Some(PersistedDocumentsError::MissingConfigurationOption("key".to_string()))
    );
    let built = PersistedDocumentsManagerBuilder::default()
        .key("k".to_string())
        .endpoint(String::new())
        .build();
    assert_eq!(
        built.err(),
        Some(PersistedDocumentsError::MissingConfigurationOption("endpoint".to_string()))
    );
}

#[test]
fn builder_tells_whether_the_key_is_a_header_value() {
    assert!(PersistedDocumentsManagerBuilder::default().key_is_valid());
    assert!(PersistedDocumentsManagerBuilder::default().key("cdn-key".to_string()).key_is_valid());
    assert!(!PersistedDocumentsManagerBuilder::default().key("cdn\nkey".to_string()).key_is_valid());
}

#[test]
fn artifact_url_maps_tildes_to_slashes() {
    let manager = manager();
    assert_eq!(
        manager.artifact_url("my-app~1.0.0~abc123"),
        "https://cdn.example/artifacts/v1/target/apps/my-app/1.0.0/abc123"
    );
    assert_eq!(
        manager.artifact_url("plain"),
        "https://cdn.example/artifacts/v1/target/apps/plain"
    );
}

#[test]
fn cached_document_is_returned_without_fetching() {
    let manager = manager();
    let asked = RefCell::new(0usize);
    let resolution = manager.resolve_document("a~b", Some("query { me }".to_string()), |_url| {
        *asked.borrow_mut() += 1;
        CdnOutcome::TransportFailure("must not be asked".to_string())
    });
    assert_eq!(resolution.document, Ok("query { me }".to_string()));
    assert!(!resolution.store);
    assert_eq!(*asked.borrow(), 0);
}

#[test]
fn missing_document_is_fetched_and_stored() {
    let manager = manager();
    let asked: RefCell<Vec<String>> = RefCell::new(Vec::new());
    let resolution = manager.resolve_document("app~1~hash", None, |url| {
        asked.borrow_mut().push(url.clone());
        CdnOutcome::Response { status: 200, body: Ok("query { me }".to_string()) }
    });
    assert_eq!(resolution.document, Ok("query { me }".to_string()));
    assert!(resolution.store);
    assert_eq!(
        asked.into_inner(),
        vec!["https://cdn.example/artifacts/v1/target/apps/app/1/hash".to_string()]
    );
}

#[test]
fn cdn_answers_are_settled() {
    let found = CdnOutcome::Response { status: 204, body: Ok(String::new()) }.settle();
    assert_eq!(found.document, Ok(String::new()));
    assert!(found.store);

    for status in [199u16, 300, 304, 404, 500] {
        let missing = CdnOutcome::Response { status, body: Ok("ignored".to_string()) }.settle();
        assert_eq!(missing.document, Err(PersistedDocumentsError::DocumentNotFound));
        assert!(!missing.store);
    }

    let unreadable =
        CdnOutcome::Response { status: 200, body: Err("invalid utf-8".to_string()) }.settle();
    assert_eq!(
        unreadable.document,
        Err(PersistedDocumentsError::FailedToReadCDNResponse("invalid utf-8".to_string()))
    );
    assert!(!unreadable.store);

    let failed = CdnOutcome::TransportFailure("reset".to_string()).settle();
    assert_eq!(
        failed.document,
        Err(PersistedDocumentsError::FailedToFetchFromCDN("reset".to_string()))
    );
    assert!(!failed.store);
}
