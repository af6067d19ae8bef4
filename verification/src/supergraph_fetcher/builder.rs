//! Configuring a supergraph fetcher.

use crate::duration::duration_nanos;
use crate::headers::{
    check_header_value, header_views, is_header_value, sensitive_header, Header, HeaderView,
};
use crate::retry::RetryPolicy;
use crate::supergraph_fetcher::error::{SupergraphFetcherError, SupergraphFetcherErrorView};
use crate::supergraph_fetcher::fetch::{
    text_views, FetcherSettings, SupergraphFetcher, SupergraphFetcherAsyncState,
    SupergraphFetcherSyncState,
};
use crate::text::{ends_with, join2, option_text};
use std::time::Duration;
use vstd::prelude::*;
use vstd::utf8::encode_utf8;

verus! {

/// Collects the options of a supergraph fetcher. The blocking and the
/// cooperative fetcher are built from the same options.
#[derive(Debug)]
pub struct SupergraphFetcherBuilder {
    endpoints: Vec<String>,
    key: Option<String>,
    user_agent: Option<String>,
    connect_timeout: Duration,
    request_timeout: Duration,
    accept_invalid_certs: bool,
    retry_policy: RetryPolicy,
}

/// The options collected so far.
pub struct FetcherOptions {
    pub endpoints: Seq<Seq<char>>,
    pub key: Option<Seq<char>>,
    pub user_agent: Option<Seq<char>>,
    pub connect_timeout: Duration,
    pub request_timeout: Duration,
    pub accept_invalid_certs: bool,
    pub retry_policy: RetryPolicy,
}

impl View for SupergraphFetcherBuilder {
    type V = FetcherOptions;

    closed spec fn view(&self) -> FetcherOptions {
        FetcherOptions {
            endpoints: text_views(self.endpoints@),
            key: option_text(self.key),
            user_agent: option_text(self.user_agent),
            connect_timeout: self.connect_timeout,
            request_timeout: self.request_timeout,
            accept_invalid_certs: self.accept_invalid_certs,
            retry_policy: self.retry_policy,
        }
    }
}

/// An endpoint as the fetcher requests it: with `/supergraph` as its last
/// segment, appended where it is missing.
pub open spec fn normalized_endpoint(endpoint: Seq<char>) -> Seq<char> {
    if "/supergraph"@.is_suffix_of(endpoint) {
        endpoint
    } else if "/"@.is_suffix_of(endpoint) {
        endpoint + "supergraph"@
    } else {
        endpoint + "/supergraph"@
    }
}

/// Appends `/supergraph` to an endpoint that does not end with it.
pub fn normalize_endpoint(endpoint: String) -> (normalized: String)
    ensures
        normalized@ == normalized_endpoint(endpoint@),
{
    if ends_with(endpoint.as_str(), "/supergraph") {
        endpoint
    } else if ends_with(endpoint.as_str(), "/") {
        join2(endpoint.as_str(), "supergraph")
    } else {
        join2(endpoint.as_str(), "/supergraph")
    }
}

/// The header that carries the CDN key. Its value is kept out of logs.
pub open spec fn cdn_key_headers(key: Seq<char>) -> Seq<HeaderView> {
    seq![HeaderView { name: "X-Hive-CDN-Key"@, value: key, sensitive: true }]
}

impl FetcherOptions {
    /// The options of a builder that nothing was put into: no endpoint, no
    /// key, no user agent, 5 seconds to connect, 60 seconds for a request,
    /// valid certificates only, and three retries.
    pub open spec fn is_default(self) -> bool {
        &&& self.endpoints == Seq::<Seq<char>>::empty()
        &&& self.key is None
        &&& self.user_agent is None
        &&& duration_nanos(self.connect_timeout) == 5_000_000_000
        &&& duration_nanos(self.request_timeout) == 60_000_000_000
        &&& !self.accept_invalid_certs
        &&& self.retry_policy == (RetryPolicy { max_retries: 3 })
    }

    /// The key is there and can stand in a header.
    pub open spec fn has_valid_key(self) -> bool {
        self.key matches Some(key) && is_header_value(encode_utf8(key))
    }

    /// The options make a fetcher: there is an endpoint, and a valid key.
    pub open spec fn is_complete(self) -> bool {
        self.endpoints.len() > 0 && self.has_valid_key()
    }

    /// The settings of the fetcher that the options make.
    pub open spec fn settings(self) -> FetcherSettings {
        FetcherSettings {
            endpoints: self.endpoints,
            headers: cdn_key_headers(self.key->Some_0),
            user_agent: self.user_agent,
            connect_timeout: self.connect_timeout,
            request_timeout: self.request_timeout,
            accept_invalid_certs: self.accept_invalid_certs,
            retry_policy: self.retry_policy,
        }
    }

    /// Whether `err` is the error for which these options are refused: a
    /// missing endpoint first, then a missing key, then a key that cannot
    /// stand in a header.
    pub open spec fn refused_with(self, err: SupergraphFetcherErrorView) -> bool {
        if self.endpoints.len() == 0 {
            err == SupergraphFetcherErrorView::MissingConfigurationOption("endpoint"@)
        } else {
            self.key_refused_with(err)
        }
    }

    /// Whether `err` is the error for which the key is refused.
    pub open spec fn key_refused_with(self, err: SupergraphFetcherErrorView) -> bool {
        match self.key {
            None => err == SupergraphFetcherErrorView::MissingConfigurationOption("key"@),
            Some(key) => !is_header_value(encode_utf8(key)) && err is InvalidKey,
        }
    }
}

impl Default for SupergraphFetcherBuilder {
    fn default() -> (builder: SupergraphFetcherBuilder)
        ensures
            builder@.is_default(),
    {
        let builder = SupergraphFetcherBuilder {
            endpoints: Vec::new(),
            key: None,
            user_agent: None,
            connect_timeout: Duration::from_secs(5),
            request_timeout: Duration::from_secs(60),
            accept_invalid_certs: false,
            retry_policy: RetryPolicy::new(),
        };
        assert(builder@.endpoints =~= Seq::<Seq<char>>::empty());
        builder
    }
}

impl SupergraphFetcher<SupergraphFetcherAsyncState> {
    /// A builder with the default options. Both kinds of fetcher are built
    /// from it.
    pub fn builder() -> (builder: SupergraphFetcherBuilder)
        ensures
            builder@.is_default(),
    {
        SupergraphFetcherBuilder::default()
    }
}

impl SupergraphFetcherBuilder {
    /// A builder with the default options.
    pub fn new() -> (builder: SupergraphFetcherBuilder)
        ensures
            builder@.is_default(),
    {
        SupergraphFetcherBuilder::default()
    }

    /// Adds a mirror behind those already added. The endpoint is normalized
    /// to end with `/supergraph`; an empty one is ignored.
    pub fn add_endpoint(self, endpoint: String) -> (builder: SupergraphFetcherBuilder)
        ensures
            builder@ == (FetcherOptions {
                endpoints: if endpoint@.len() == 0 {
                    self@.endpoints
                } else {
                    self@.endpoints.push(normalized_endpoint(endpoint@))
                },
                ..self@
            }),
    {
        let mut this = self;
        if !endpoint.as_str().is_empty() {
            let normalized = normalize_endpoint(endpoint);
            let ghost before = this.endpoints@;
            this.endpoints.push(normalized);
            assert(text_views(this.endpoints@) =~= text_views(before).push(normalized@));
        }
        this
    }

    /// The CDN access key.
    pub fn key(self, key: String) -> (builder: SupergraphFetcherBuilder)
        ensures
            builder@ == (FetcherOptions { key: Some(key@), ..self@ }),
    {
        let mut this = self;
        this.key = Some(key);
        this
    }

    /// The `User-Agent` of the fetcher's requests.
    pub fn user_agent(self, user_agent: String) -> (builder: SupergraphFetcherBuilder)
        ensures
            builder@ == (FetcherOptions { user_agent: Some(user_agent@), ..self@ }),
    {
        let mut this = self;
        this.user_agent = Some(user_agent);
        this
    }

    /// The timeout for connecting to a mirror.
    pub fn connect_timeout(self, timeout: Duration) -> (builder: SupergraphFetcherBuilder)
        ensures
            builder@ == (FetcherOptions { connect_timeout: timeout, ..self@ }),
    {
        let mut this = self;
        this.connect_timeout = timeout;
        this
    }

    /// The timeout for a whole request.
    pub fn request_timeout(self, timeout: Duration) -> (builder: SupergraphFetcherBuilder)
        ensures
            builder@ == (FetcherOptions { request_timeout: timeout, ..self@ }),
    {
        let mut this = self;
        this.request_timeout = timeout;
        this
    }

    /// Whether invalid certificates are accepted.
    pub fn accept_invalid_certs(self, accept: bool) -> (builder: SupergraphFetcherBuilder)
        ensures
            builder@ == (FetcherOptions { accept_invalid_certs: accept, ..self@ }),
    {
        let mut this = self;
        this.accept_invalid_certs = accept;
        this
    }

    /// The retry policy of a call to one mirror.
    pub fn retry_policy(self, retry_policy: RetryPolicy) -> (builder: SupergraphFetcherBuilder)
        ensures
            builder@ == (FetcherOptions { retry_policy, ..self@ }),
    {
        let mut this = self;
        this.retry_policy = retry_policy;
        this
    }

    /// The cap on the retries of a call to one mirror.
    pub fn max_retries(self, max_retries: u32) -> (builder: SupergraphFetcherBuilder)
        ensures
            builder@ == (FetcherOptions { retry_policy: RetryPolicy { max_retries }, ..self@ }),
    {
        let mut this = self;
        this.retry_policy = RetryPolicy::with_max_retries(max_retries);
        this
    }

    /// Requires at least one endpoint.
    pub fn validate_endpoints(&self) -> (checked: Result<(), SupergraphFetcherError>)
        ensures
            match checked {
                Ok(()) => self@.endpoints.len() > 0,
                Err(err) => self@.endpoints.len() == 0 && err@
                    == SupergraphFetcherErrorView::MissingConfigurationOption("endpoint"@),
            },
    {
        if self.endpoints.len() == 0 {
            return Err(
                SupergraphFetcherError::MissingConfigurationOption(String::from_str("endpoint")),
            );
        }
        Ok(())
    }

    /// The headers of every request: the CDN key, marked as sensitive. The
    /// key is required and must be fit for a header.
    pub fn prepare_headers(&self) -> (prepared: Result<Vec<Header>, SupergraphFetcherError>)
        ensures
            match prepared {
                Ok(headers) => self@.has_valid_key() && header_views(headers@) == cdn_key_headers(
                    self@.key->Some_0,
                ),
                Err(err) => !self@.has_valid_key() && self@.key_refused_with(err@),
            },
    {
        let key = match &self.key {
            Some(key) => key,
            None => {
                return Err(
                    SupergraphFetcherError::MissingConfigurationOption(String::from_str("key")),
                );
            },
        };
        match check_header_value(key.as_str()) {
            Ok(()) => {},
            Err(reason) => {
                return Err(SupergraphFetcherError::InvalidKey(reason));
            },
        }
        let mut headers: Vec<Header> = Vec::new();
        headers.push(sensitive_header("X-Hive-CDN-Key", key.clone()));
        assert(header_views(headers@) =~= cdn_key_headers(key@));
        Ok(headers)
    }

    /// Builds a fetcher in the given state from the options.
    fn build_with<State>(self, state: State) -> (built: Result<
        SupergraphFetcher<State>,
        SupergraphFetcherError,
    >)
        ensures
            match built {
                Ok(fetcher) => {
                    &&& self@.is_complete()
                    &&& fetcher.settings() == self@.settings()
                    &&& fetcher.etag() is None
                },
                Err(err) => !self@.is_complete() && self@.refused_with(err@),
            },
    {
        match self.validate_endpoints() {
            Ok(()) => {},
            Err(err) => {
                return Err(err);
            },
        }
        let headers = match self.prepare_headers() {
            Ok(headers) => headers,
            Err(err) => {
                return Err(err);
            },
        };
        Ok(
            SupergraphFetcher::from_parts(
                state,
                self.endpoints,
                headers,
                self.user_agent,
                self.connect_timeout,
                self.request_timeout,
                self.accept_invalid_certs,
                self.retry_policy,
            ),
        )
    }

    /// Builds a fetcher for a host that calls the endpoints on a blocking
    /// thread. It is refused unless there is an endpoint and a valid key.
    pub fn build_sync(self) -> (built: Result<
        SupergraphFetcher<SupergraphFetcherSyncState>,
        SupergraphFetcherError,
    >)
        ensures
            match built {
                Ok(fetcher) => {
                    &&& self@.is_complete()
                    &&& fetcher.settings() == self@.settings()
                    &&& fetcher.etag() is None
                },
                Err(err) => !self@.is_complete() && self@.refused_with(err@),
            },
    {
        self.build_with(SupergraphFetcherSyncState)
    }

    /// Builds a fetcher for a host that calls the endpoints with cooperative
    /// awaits. It is refused unless there is an endpoint and a valid key.
    pub fn build_async(self) -> (built: Result<
        SupergraphFetcher<SupergraphFetcherAsyncState>,
        SupergraphFetcherError,
    >)
        ensures
            match built {
                Ok(fetcher) => {
                    &&& self@.is_complete()
                    &&& fetcher.settings() == self@.settings()
                    &&& fetcher.etag() is None
                },
                Err(err) => !self@.is_complete() && self@.refused_with(err@),
            },
    {
        self.build_with(SupergraphFetcherAsyncState)
    }
}

} // verus!
