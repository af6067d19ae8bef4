//! Resolving persisted documents: where a document is fetched from, and what
//! the CDN's answer means.
//!
//! The cache and the HTTP client belong to the host. It looks the document
//! up in its cache, hands what it found to [`PersistedDocumentsManager::resolve_document`]
//! together with the means to ask the CDN, and stores the document when the
//! answer says so.

use crate::duration::duration_nanos;
use crate::headers::{
    check_header_value, header_views, is_header_value, plain_header, Header, HeaderView,
};
use crate::retry::RetryPolicy;
use crate::text::{join2, join3, non_empty, non_empty_string, option_text, replace_char, replaced};
use std::time::Duration;
use vstd::prelude::*;
use vstd::utf8::encode_utf8;

verus! {

/// The errors of persisted documents.
#[derive(Debug, Clone, PartialEq, Eq)]
pub enum PersistedDocumentsError {
    FailedToReadBody(String),
    FailedToParseBody(String),
    DocumentNotFound,
    KeyNotFound,
    FailedToFetchFromCDN(String),
    FailedToReadCDNResponse(String),
    PersistedDocumentRequired,
    MissingConfigurationOption(String),
}

/// The mathematical content of a [`PersistedDocumentsError`].
pub enum PersistedDocumentsErrorView {
    FailedToReadBody(Seq<char>),
    FailedToParseBody(Seq<char>),
    DocumentNotFound,
    KeyNotFound,
    FailedToFetchFromCDN(Seq<char>),
    FailedToReadCDNResponse(Seq<char>),
    PersistedDocumentRequired,
    MissingConfigurationOption(Seq<char>),
}

impl View for PersistedDocumentsError {
    type V = PersistedDocumentsErrorView;

    open spec fn view(&self) -> PersistedDocumentsErrorView {
        match self {
            PersistedDocumentsError::FailedToReadBody(s) =>
                PersistedDocumentsErrorView::FailedToReadBody(s@),
            PersistedDocumentsError::FailedToParseBody(s) =>
                PersistedDocumentsErrorView::FailedToParseBody(s@),
            PersistedDocumentsError::DocumentNotFound =>
                PersistedDocumentsErrorView::DocumentNotFound,
            PersistedDocumentsError::KeyNotFound => PersistedDocumentsErrorView::KeyNotFound,
            PersistedDocumentsError::FailedToFetchFromCDN(s) =>
                PersistedDocumentsErrorView::FailedToFetchFromCDN(s@),
            PersistedDocumentsError::FailedToReadCDNResponse(s) =>
                PersistedDocumentsErrorView::FailedToReadCDNResponse(s@),
            PersistedDocumentsError::PersistedDocumentRequired =>
                PersistedDocumentsErrorView::PersistedDocumentRequired,
            PersistedDocumentsError::MissingConfigurationOption(s) =>
                PersistedDocumentsErrorView::MissingConfigurationOption(s@),
        }
    }
}

impl PersistedDocumentsErrorView {
    /// The text that describes the error.
    pub open spec fn message(self) -> Seq<char> {
        match self {
            PersistedDocumentsErrorView::FailedToReadBody(s) => "Failed to read body: "@ + s,
            PersistedDocumentsErrorView::FailedToParseBody(s) => "Failed to parse body: "@ + s,
            PersistedDocumentsErrorView::DocumentNotFound => "Persisted document not found."@,
            PersistedDocumentsErrorView::KeyNotFound =>
                "Failed to locate the persisted document key in request."@,
            PersistedDocumentsErrorView::FailedToFetchFromCDN(_) =>
                "Failed to validate persisted document"@,
            PersistedDocumentsErrorView::FailedToReadCDNResponse(_) =>
                "Failed to read CDN response body"@,
            PersistedDocumentsErrorView::PersistedDocumentRequired =>
                "No persisted document provided, or document id cannot be resolved."@,
            PersistedDocumentsErrorView::MissingConfigurationOption(s) =>
                "Missing required configuration option: "@ + s,
        }
    }

    /// The code by which a client tells the errors apart.
    pub open spec fn code(self) -> Seq<char> {
        match self {
            PersistedDocumentsErrorView::FailedToReadBody(_) => "FAILED_TO_READ_BODY"@,
            PersistedDocumentsErrorView::FailedToParseBody(_) => "FAILED_TO_PARSE_BODY"@,
            PersistedDocumentsErrorView::DocumentNotFound => "PERSISTED_DOCUMENT_NOT_FOUND"@,
            PersistedDocumentsErrorView::KeyNotFound => "PERSISTED_DOCUMENT_KEY_NOT_FOUND"@,
            PersistedDocumentsErrorView::FailedToFetchFromCDN(_) => "FAILED_TO_FETCH_FROM_CDN"@,
            PersistedDocumentsErrorView::FailedToReadCDNResponse(_) =>
                "FAILED_TO_READ_CDN_RESPONSE"@,
            PersistedDocumentsErrorView::PersistedDocumentRequired =>
                "PERSISTED_DOCUMENT_REQUIRED"@,
            PersistedDocumentsErrorView::MissingConfigurationOption(_) =>
                "MISSING_CONFIGURATION_OPTION"@,
        }
    }
}

impl PersistedDocumentsError {
    /// The text that describes the error.
    pub fn message(&self) -> (text: String)
        ensures
            text@ == self@.message(),
    {
        match self {
            PersistedDocumentsError::FailedToReadBody(s) => join2(
                "Failed to read body: ",
                s.as_str(),
            ),
            PersistedDocumentsError::FailedToParseBody(s) => join2(
                "Failed to parse body: ",
                s.as_str(),
            ),
            PersistedDocumentsError::DocumentNotFound => String::from_str(
                "Persisted document not found.",
            ),
            PersistedDocumentsError::KeyNotFound => String::from_str(
                "Failed to locate the persisted document key in request.",
            ),
            PersistedDocumentsError::FailedToFetchFromCDN(_) => String::from_str(
                "Failed to validate persisted document",
            ),
            PersistedDocumentsError::FailedToReadCDNResponse(_) => String::from_str(
                "Failed to read CDN response body",
            ),
            PersistedDocumentsError::PersistedDocumentRequired => String::from_str(
                "No persisted document provided, or document id cannot be resolved.",
            ),
            PersistedDocumentsError::MissingConfigurationOption(s) => join2(
                "Missing required configuration option: ",
                s.as_str(),
            ),
        }
    }

    /// The code by which a client tells the errors apart.
    pub fn code(&self) -> (code: String)
        ensures
            code@ == self@.code(),
    {
        match self {
            PersistedDocumentsError::FailedToReadBody(_) => String::from_str("FAILED_TO_READ_BODY"),
            PersistedDocumentsError::FailedToParseBody(_) => String::from_str(
                "FAILED_TO_PARSE_BODY",
            ),
            PersistedDocumentsError::DocumentNotFound => String::from_str(
                "PERSISTED_DOCUMENT_NOT_FOUND",
            ),
            PersistedDocumentsError::KeyNotFound => String::from_str(
                "PERSISTED_DOCUMENT_KEY_NOT_FOUND",
            ),
            PersistedDocumentsError::FailedToFetchFromCDN(_) => String::from_str(
                "FAILED_TO_FETCH_FROM_CDN",
            ),
            PersistedDocumentsError::FailedToReadCDNResponse(_) => String::from_str(
                "FAILED_TO_READ_CDN_RESPONSE",
            ),
            PersistedDocumentsError::PersistedDocumentRequired => String::from_str(
                "PERSISTED_DOCUMENT_REQUIRED",
            ),
            PersistedDocumentsError::MissingConfigurationOption(_) => String::from_str(
                "MISSING_CONFIGURATION_OPTION",
            ),
        }
    }
}

/// What a manager is configured with.
pub struct ManagerSettings {
    pub endpoint: Seq<char>,
    pub headers: Seq<HeaderView>,
    pub accept_invalid_certs: bool,
    pub connect_timeout: Duration,
    pub request_timeout: Duration,
    pub retry_policy: RetryPolicy,
    pub cache_size: u64,
    pub user_agent: Option<Seq<char>>,
}

/// Resolves persisted documents by their id.
#[derive(Debug)]
pub struct PersistedDocumentsManager {
    endpoint: String,
    headers: Vec<Header>,
    accept_invalid_certs: bool,
    connect_timeout: Duration,
    request_timeout: Duration,
    retry_policy: RetryPolicy,
    cache_size: u64,
    user_agent: Option<String>,
}

/// What came of asking the CDN for a document.
#[derive(Debug)]
pub enum CdnOutcome {
    /// The CDN answered. `body` is the answer's text, or the reason why it
    /// could not be read.
    Response { status: u16, body: Result<String, String> },
    /// The request failed.
    TransportFailure(String),
}

/// The mathematical content of a [`CdnOutcome`].
pub enum CdnOutcomeView {
    Response { status: u16, body: Result<Seq<char>, Seq<char>> },
    TransportFailure(Seq<char>),
}

impl View for CdnOutcome {
    type V = CdnOutcomeView;

    open spec fn view(&self) -> CdnOutcomeView {
        match self {
            CdnOutcome::Response { status, body } => CdnOutcomeView::Response {
                status: *status,
                body: match body {
                    Ok(text) => Ok(text@),
                    Err(reason) => Err(reason@),
                },
            },
            CdnOutcome::TransportFailure(message) => CdnOutcomeView::TransportFailure(message@),
        }
    }
}

/// A resolved document, or why there is none.
pub type Resolved = Result<String, PersistedDocumentsError>;

/// The mathematical content of a [`Resolved`].
pub type ResolvedView = Result<Seq<char>, PersistedDocumentsErrorView>;

/// The view of a resolution's result.
pub open spec fn resolved_view(resolved: Resolved) -> ResolvedView {
    match resolved {
        Ok(text) => Ok(text@),
        Err(err) => Err(err@),
    }
}

/// What resolving a document came to.
#[derive(Debug)]
pub struct Resolution {
    /// The document, or why there is none.
    pub document: Resolved,
    /// Whether the document came from the CDN and is to be put into the
    /// cache under its id.
    pub store: bool,
}

/// A status that stands for success: `200` to `299`.
pub open spec fn is_success_status(status: u16) -> bool {
    200 <= status && status <= 299
}

impl CdnOutcomeView {
    /// What the CDN's answer means: on success the document is the answer's
    /// body; any other status means that the document was not found.
    pub open spec fn resolved(self) -> ResolvedView {
        match self {
            CdnOutcomeView::Response { status, body } => if is_success_status(status) {
                match body {
                    Ok(text) => Ok(text),
                    Err(reason) => Err(
                        PersistedDocumentsErrorView::FailedToReadCDNResponse(reason),
                    ),
                }
            } else {
                Err(PersistedDocumentsErrorView::DocumentNotFound)
            },
            CdnOutcomeView::TransportFailure(message) => Err(
                PersistedDocumentsErrorView::FailedToFetchFromCDN(message),
            ),
        }
    }
}

impl CdnOutcome {
    /// Turns the CDN's answer into a resolution. A document that was fetched
    /// is to be stored in the cache.
    pub fn settle(self) -> (resolution: Resolution)
        ensures
            resolved_view(resolution.document) == self@.resolved(),
            resolution.store == (self@.resolved() is Ok),
    {
        match self {
            CdnOutcome::Response { status, body } => {
                if 200 <= status && status <= 299 {
                    match body {
                        Ok(text) => Resolution { document: Ok(text), store: true },
                        Err(reason) => Resolution {
                            document: Err(PersistedDocumentsError::FailedToReadCDNResponse(reason)),
                            store: false,
                        },
                    }
                } else {
                    Resolution {
                        document: Err(PersistedDocumentsError::DocumentNotFound),
                        store: false,
                    }
                }
            },
            CdnOutcome::TransportFailure(message) => Resolution {
                document: Err(PersistedDocumentsError::FailedToFetchFromCDN(message)),
                store: false,
            },
        }
    }
}

/// The address of a document on the CDN: the endpoint, `/apps/`, and the id
/// with each `~` turned into `/`.
pub open spec fn artifact_url_of(endpoint: Seq<char>, document_id: Seq<char>) -> Seq<char> {
    endpoint + "/apps/"@ + replaced(document_id, '~', '/')
}

impl PersistedDocumentsManager {
    /// The manager's configuration.
    pub closed spec fn settings(&self) -> ManagerSettings {
        ManagerSettings {
            endpoint: self.endpoint@,
            headers: header_views(self.headers@),
            accept_invalid_certs: self.accept_invalid_certs,
            connect_timeout: self.connect_timeout,
            request_timeout: self.request_timeout,
            retry_policy: self.retry_policy,
            cache_size: self.cache_size,
            user_agent: option_text(self.user_agent),
        }
    }

    /// A builder with the default options.
    pub fn builder() -> (builder: PersistedDocumentsManagerBuilder)
        ensures
            builder@.is_default(),
    {
        PersistedDocumentsManagerBuilder::default()
    }

    /// The CDN endpoint.
    pub fn endpoint(&self) -> (endpoint: &String)
        ensures
            endpoint@ == self.settings().endpoint,
    {
        &self.endpoint
    }

    /// The headers of every request: the CDN key.
    pub fn headers(&self) -> (headers: &Vec<Header>)
        ensures
            header_views(headers@) == self.settings().headers,
    {
        &self.headers
    }

    /// The number of documents that the cache holds at most.
    pub fn cache_size(&self) -> (size: u64)
        ensures
            size == self.settings().cache_size,
    {
        self.cache_size
    }

    /// The timeout for connecting to the CDN.
    pub fn connect_timeout(&self) -> (timeout: Duration)
        ensures
            timeout == self.settings().connect_timeout,
    {
        self.connect_timeout
    }

    /// The timeout for a whole request.
    pub fn request_timeout(&self) -> (timeout: Duration)
        ensures
            timeout == self.settings().request_timeout,
    {
        self.request_timeout
    }

    /// Whether invalid certificates are accepted.
    pub fn accept_invalid_certs(&self) -> (accept: bool)
        ensures
            accept == self.settings().accept_invalid_certs,
    {
        self.accept_invalid_certs
    }

    /// The retry policy of a request to the CDN.
    pub fn retry_policy(&self) -> (policy: RetryPolicy)
        ensures
            policy == self.settings().retry_policy,
    {
        self.retry_policy
    }

    /// The `User-Agent` of the requests, if one is configured.
    pub fn user_agent(&self) -> (user_agent: &Option<String>)
        ensures
            option_text(*user_agent) == self.settings().user_agent,
    {
        &self.user_agent
    }

    /// The address of a document on the CDN.
    pub fn artifact_url(&self, document_id: &str) -> (url: String)
        ensures
            url@ == artifact_url_of(self.settings().endpoint, document_id@),
    {
        let cdn_document_id = replace_char(document_id, '~', '/');
        join3(self.endpoint.as_str(), "/apps/", cdn_document_id.as_str())
    }

    /// Resolves a document. `cached` is what the host's cache holds under
    /// the id: a cached document is the answer, and nothing is fetched or
    /// stored. Otherwise `fetch` is asked once, with the document's address
    /// on the CDN, and its outcome decides.
    pub fn resolve_document<F>(&self, document_id: &str, cached: Option<String>, fetch: F) -> (resolution:
        Resolution) where F: Fn(&String) -> CdnOutcome
        requires
            forall|url: &String| call_requires(fetch, (url,)),
        ensures
            match cached {
                Some(document) => resolution.document == Ok::<String, PersistedDocumentsError>(
                    document,
                ) && !resolution.store,
                None => exists|url: String, outcome: CdnOutcome|
                    {
                        &&& url@ == artifact_url_of(self.settings().endpoint, document_id@)
                        &&& #[trigger] call_ensures(fetch, (&url,), outcome)
                        &&& resolved_view(resolution.document) == outcome@.resolved()
                        &&& resolution.store == (outcome@.resolved() is Ok)
                    },
            },
    {
        match cached {
            Some(document) => Resolution { document: Ok(document), store: false },
            None => {
                let url = self.artifact_url(document_id);
                let outcome = fetch(&url);
                let ghost answer = outcome;
                let resolution = outcome.settle();
                assert(call_ensures(fetch, (&url,), answer));
                resolution
            },
        }
    }
}

/// Collects the options of a persisted documents manager.
#[derive(Debug)]
pub struct PersistedDocumentsManagerBuilder {
    key: Option<String>,
    endpoint: Option<String>,
    accept_invalid_certs: bool,
    connect_timeout: Duration,
    request_timeout: Duration,
    retry_policy: RetryPolicy,
    cache_size: u64,
    user_agent: Option<String>,
}

/// The options collected so far.
pub struct ManagerOptions {
    pub key: Option<Seq<char>>,
    pub endpoint: Option<Seq<char>>,
    pub accept_invalid_certs: bool,
    pub connect_timeout: Duration,
    pub request_timeout: Duration,
    pub retry_policy: RetryPolicy,
    pub cache_size: u64,
    pub user_agent: Option<Seq<char>>,
}

impl View for PersistedDocumentsManagerBuilder {
    type V = ManagerOptions;

    closed spec fn view(&self) -> ManagerOptions {
        ManagerOptions {
            key: option_text(self.key),
            endpoint: option_text(self.endpoint),
            accept_invalid_certs: self.accept_invalid_certs,
            connect_timeout: self.connect_timeout,
            request_timeout: self.request_timeout,
            retry_policy: self.retry_policy,
            cache_size: self.cache_size,
            user_agent: option_text(self.user_agent),
        }
    }
}

impl ManagerOptions {
    /// The options of a builder that nothing was put into: neither key nor
    /// endpoint nor user agent, 5 seconds to connect, 15 seconds for a
    /// request, three retries, a cache of 10,000 documents, and valid
    /// certificates only.
    pub open spec fn is_default(self) -> bool {
        &&& self.key is None
        &&& self.endpoint is None
        &&& !self.accept_invalid_certs
        &&& duration_nanos(self.connect_timeout) == 5_000_000_000
        &&& duration_nanos(self.request_timeout) == 15_000_000_000
        &&& self.retry_policy == (RetryPolicy { max_retries: 3 })
        &&& self.cache_size == 10_000
        &&& self.user_agent is None
    }

    /// What `build` makes of the options: the settings of the manager, or
    /// the error for the first required option that is missing.
    pub open spec fn settings(self) -> Result<ManagerSettings, PersistedDocumentsErrorView> {
        match self.key {
            None => Err(PersistedDocumentsErrorView::MissingConfigurationOption("key"@)),
            Some(key) => match self.endpoint {
                None => Err(PersistedDocumentsErrorView::MissingConfigurationOption("endpoint"@)),
                Some(endpoint) => Ok(
                    ManagerSettings {
                        endpoint,
                        headers: seq![
                            HeaderView { name: "X-Hive-CDN-Key"@, value: key, sensitive: false },
                        ],
                        accept_invalid_certs: self.accept_invalid_certs,
                        connect_timeout: self.connect_timeout,
                        request_timeout: self.request_timeout,
                        retry_policy: self.retry_policy,
                        cache_size: self.cache_size,
                        user_agent: self.user_agent,
                    },
                ),
            },
        }
    }
}

impl Default for PersistedDocumentsManagerBuilder {
    fn default() -> (builder: PersistedDocumentsManagerBuilder)
        ensures
            builder@.is_default(),
    {
        PersistedDocumentsManagerBuilder {
            key: None,
            endpoint: None,
            accept_invalid_certs: false,
            connect_timeout: Duration::from_secs(5),
            request_timeout: Duration::from_secs(15),
            retry_policy: RetryPolicy::new(),
            cache_size: 10_000,
            user_agent: None,
        }
    }
}

impl PersistedDocumentsManagerBuilder {
    /// The CDN access key. An empty one counts as none.
    pub fn key(self, key: String) -> (builder: PersistedDocumentsManagerBuilder)
        ensures
            builder@ == (ManagerOptions { key: non_empty(Some(key@)), ..self@ }),
    {
        let mut this = self;
        this.key = non_empty_string(Some(key));
        this
    }

    /// The CDN endpoint. An empty one counts as none.
    pub fn endpoint(self, endpoint: String) -> (builder: PersistedDocumentsManagerBuilder)
        ensures
            builder@ == (ManagerOptions { endpoint: non_empty(Some(endpoint@)), ..self@ }),
    {
        let mut this = self;
        this.endpoint = non_empty_string(Some(endpoint));
        this
    }

    /// Whether invalid certificates are accepted.
    pub fn accept_invalid_certs(self, accept_invalid_certs: bool) -> (builder:
        PersistedDocumentsManagerBuilder)
        ensures
            builder@ == (ManagerOptions { accept_invalid_certs, ..self@ }),
    {
        let mut this = self;
        this.accept_invalid_certs = accept_invalid_certs;
        this
    }

    /// The timeout for connecting to the CDN.
    pub fn connect_timeout(self, connect_timeout: Duration) -> (builder:
        PersistedDocumentsManagerBuilder)
        ensures
            builder@ == (ManagerOptions { connect_timeout, ..self@ }),
    {
        let mut this = self;
        this.connect_timeout = connect_timeout;
        this
    }

    /// The timeout for a whole request.
    pub fn request_timeout(self, request_timeout: Duration) -> (builder:
        PersistedDocumentsManagerBuilder)
        ensures
            builder@ == (ManagerOptions { request_timeout, ..self@ }),
    {
        let mut this = self;
        this.request_timeout = request_timeout;
        this
    }

    /// The retry policy of a request to the CDN.
    pub fn retry_policy(self, retry_policy: RetryPolicy) -> (builder:
        PersistedDocumentsManagerBuilder)
        ensures
            builder@ == (ManagerOptions { retry_policy, ..self@ }),
    {
        let mut this = self;
        this.retry_policy = retry_policy;
        this
    }

    /// The cap on the retries of a request to the CDN.
    pub fn max_retries(self, max_retries: u32) -> (builder: PersistedDocumentsManagerBuilder)
        ensures
            builder@ == (ManagerOptions { retry_policy: RetryPolicy { max_retries }, ..self@ }),
    {
        let mut this = self;
        this.retry_policy = RetryPolicy::with_max_retries(max_retries);
        this
    }

    /// The number of documents that the cache holds at most.
    pub fn cache_size(self, cache_size: u64) -> (builder: PersistedDocumentsManagerBuilder)
        ensures
            builder@ == (ManagerOptions { cache_size, ..self@ }),
    {
        let mut this = self;
        this.cache_size = cache_size;
        this
    }

    /// The `User-Agent` of the requests. An empty one counts as none.
    pub fn user_agent(self, user_agent: String) -> (builder: PersistedDocumentsManagerBuilder)
        ensures
            builder@ == (ManagerOptions { user_agent: non_empty(Some(user_agent@)), ..self@ }),
    {
        let mut this = self;
        this.user_agent = non_empty_string(Some(user_agent));
        this
    }

    /// Whether the key, if there is one, is fit for a header value, as
    /// `build` requires.
    pub fn key_is_valid(&self) -> (valid: bool)
        ensures
            valid == (self@.key matches Some(key) ==> is_header_value(encode_utf8(key))),
    {
        match &self.key {
            Some(key) => check_header_value(key.as_str()).is_ok(),
            None => true,
        }
    }

    /// Builds the manager. A key and an endpoint are required. The key must
    /// be fit for a header value.
    pub fn build(self) -> (built: Result<PersistedDocumentsManager, PersistedDocumentsError>)
        requires
            self@.key matches Some(key) ==> is_header_value(encode_utf8(key)),
        ensures
            match built {
                Ok(manager) => self@.settings() == Ok::<
                    ManagerSettings,
                    PersistedDocumentsErrorView,
                >(manager.settings()),
                Err(err) => self@.settings() == Err::<
                    ManagerSettings,
                    PersistedDocumentsErrorView,
                >(err@),
            },
    {
        let key = match self.key {
            Some(key) => key,
            None => {
                return Err(
                    PersistedDocumentsError::MissingConfigurationOption(String::from_str("key")),
                );
            },
        };
        let endpoint = match self.endpoint {
            Some(endpoint) => endpoint,
            None => {
                return Err(
                    PersistedDocumentsError::MissingConfigurationOption(
                        String::from_str("endpoint"),
                    ),
                );
            },
        };
        let mut headers: Vec<Header> = Vec::new();
        let ghost key_text = key@;
        headers.push(plain_header("X-Hive-CDN-Key", key));
        assert(header_views(headers@) =~= seq![
            HeaderView { name: "X-Hive-CDN-Key"@, value: key_text, sensitive: false },
        ]);
        Ok(
            PersistedDocumentsManager {
                endpoint,
                headers,
                accept_invalid_certs: self.accept_invalid_certs,
                connect_timeout: self.connect_timeout,
                request_timeout: self.request_timeout,
                retry_policy: self.retry_policy,
                cache_size: self.cache_size,
                user_agent: self.user_agent,
            },
        )
    }
}

} // verus!
