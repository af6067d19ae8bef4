//! Configuring a usage agent.

use crate::agent::endpoint::resolved_endpoint;
use crate::agent::error::{AgentError, AgentErrorView};
use crate::agent::report::ExecutionReport;
use crate::agent::usage_agent::{AgentSettings, UsageAgent};
use crate::duration::duration_nanos;
use crate::headers::{
    check_header_value, header_views, is_header_value, plain_header, sensitive_header, Header,
    HeaderView,
};
use crate::retry::RetryPolicy;
use crate::text::{join2, non_empty, non_empty_string, option_text};
use std::time::Duration;
use vstd::prelude::*;
use vstd::utf8::encode_utf8;

verus! {

/// Where reports go unless another endpoint is configured.
pub const DEFAULT_HIVE_USAGE_ENDPOINT: &'static str = "https://app.graphql-hive.com/usage";

/// Collects the options of a usage agent.
#[derive(Debug)]
pub struct UsageAgentBuilder {
    token: Option<String>,
    endpoint: String,
    target_id: Option<String>,
    buffer_size: usize,
    connect_timeout: Duration,
    request_timeout: Duration,
    accept_invalid_certs: bool,
    flush_interval: Duration,
    retry_policy: RetryPolicy,
    user_agent: Option<String>,
}

/// The options collected so far.
pub struct UsageAgentOptions {
    pub token: Option<Seq<char>>,
    pub endpoint: Seq<char>,
    pub target_id: Option<Seq<char>>,
    pub buffer_size: usize,
    pub connect_timeout: Duration,
    pub request_timeout: Duration,
    pub accept_invalid_certs: bool,
    pub flush_interval: Duration,
    pub retry_policy: RetryPolicy,
    pub user_agent: Option<Seq<char>>,
}

impl View for UsageAgentBuilder {
    type V = UsageAgentOptions;

    closed spec fn view(&self) -> UsageAgentOptions {
        UsageAgentOptions {
            token: option_text(self.token),
            endpoint: self.endpoint@,
            target_id: option_text(self.target_id),
            buffer_size: self.buffer_size,
            connect_timeout: self.connect_timeout,
            request_timeout: self.request_timeout,
            accept_invalid_certs: self.accept_invalid_certs,
            flush_interval: self.flush_interval,
            retry_policy: self.retry_policy,
            user_agent: option_text(self.user_agent),
        }
    }
}

impl UsageAgentOptions {
    /// The options of a builder that nothing was put into: the default
    /// endpoint, a buffer of 1000 reports, 5 seconds to connect, 15 seconds
    /// for a request, a flush every 5 seconds, three retries, valid
    /// certificates only, and neither token, target id nor user agent.
    pub open spec fn is_default(self) -> bool {
        &&& self.token is None
        &&& self.endpoint == DEFAULT_HIVE_USAGE_ENDPOINT@
        &&& self.target_id is None
        &&& self.buffer_size == 1000
        &&& duration_nanos(self.connect_timeout) == 5_000_000_000
        &&& duration_nanos(self.request_timeout) == 15_000_000_000
        &&& !self.accept_invalid_certs
        &&& duration_nanos(self.flush_interval) == 5_000_000_000
        &&& self.retry_policy == (RetryPolicy { max_retries: 3 })
        &&& self.user_agent is None
    }

    /// The `Authorization` header's value for a token.
    pub open spec fn authorization(token: Seq<char>) -> Seq<char> {
        "Bearer "@ + token
    }

    /// What `build` makes of the options: the settings of the agent, or the
    /// error for which it is refused. A token is required and must be fit
    /// for the `Authorization` header; the endpoint is resolved with the
    /// token and the target id.
    pub open spec fn settings(self) -> Result<AgentSettings, AgentErrorView> {
        match self.token {
            None => Err(AgentErrorView::MissingToken),
            Some(token) => if !is_header_value(encode_utf8(Self::authorization(token))) {
                Err(AgentErrorView::InvalidToken)
            } else {
                match resolved_endpoint(self.endpoint, token, self.target_id) {
                    Err(err) => Err(err),
                    Ok(endpoint) => Ok(
                        AgentSettings {
                            token,
                            endpoint,
                            buffer_size: self.buffer_size,
                            connect_timeout: self.connect_timeout,
                            request_timeout: self.request_timeout,
                            accept_invalid_certs: self.accept_invalid_certs,
                            flush_interval: self.flush_interval,
                            user_agent: match self.user_agent {
                                Some(user_agent) => user_agent,
                                None => Seq::empty(),
                            },
                            retry_policy: self.retry_policy,
                        },
                    ),
                }
            },
        }
    }
}

impl Default for UsageAgentBuilder {
    fn default() -> (builder: UsageAgentBuilder)
        ensures
            builder@.is_default(),
    {
        UsageAgentBuilder {
            endpoint: String::from_str(DEFAULT_HIVE_USAGE_ENDPOINT),
            token: None,
            target_id: None,
            buffer_size: 1000,
            connect_timeout: Duration::from_secs(5),
            request_timeout: Duration::from_secs(15),
            accept_invalid_certs: false,
            flush_interval: Duration::from_secs(5),
            retry_policy: RetryPolicy::new(),
            user_agent: None,
        }
    }
}

impl UsageAgentBuilder {
    /// A builder with the default options.
    pub fn new() -> (builder: UsageAgentBuilder)
        ensures
            builder@.is_default(),
    {
        UsageAgentBuilder::default()
    }

    /// The access token. An empty one counts as none.
    pub fn token(self, token: String) -> (builder: UsageAgentBuilder)
        ensures
            builder@ == (UsageAgentOptions { token: non_empty(Some(token@)), ..self@ }),
    {
        let mut this = self;
        this.token = non_empty_string(Some(token));
        this
    }

    /// The endpoint to post reports to. An empty one leaves the endpoint
    /// as it is.
    pub fn endpoint(self, endpoint: String) -> (builder: UsageAgentBuilder)
        ensures
            builder@ == (UsageAgentOptions {
                endpoint: if endpoint@.len() == 0 {
                    self@.endpoint
                } else {
                    endpoint@
                },
                ..self@
            }),
    {
        let mut this = self;
        match non_empty_string(Some(endpoint)) {
            Some(endpoint) => {
                this.endpoint = endpoint;
            },
            None => {},
        }
        this
    }

    /// The target id: a slug of three segments or a UUID. An empty one
    /// counts as none.
    pub fn target_id(self, target_id: String) -> (builder: UsageAgentBuilder)
        ensures
            builder@ == (UsageAgentOptions { target_id: non_empty(Some(target_id@)), ..self@ }),
    {
        let mut this = self;
        this.target_id = non_empty_string(Some(target_id));
        this
    }

    /// The number of pending reports from which a flush is due.
    pub fn buffer_size(self, buffer_size: usize) -> (builder: UsageAgentBuilder)
        ensures
            builder@ == (UsageAgentOptions { buffer_size, ..self@ }),
    {
        let mut this = self;
        this.buffer_size = buffer_size;
        this
    }

    /// The timeout for connecting to the endpoint.
    pub fn connect_timeout(self, connect_timeout: Duration) -> (builder: UsageAgentBuilder)
        ensures
            builder@ == (UsageAgentOptions { connect_timeout, ..self@ }),
    {
        let mut this = self;
        this.connect_timeout = connect_timeout;
        this
    }

    /// The timeout for a whole request.
    pub fn request_timeout(self, request_timeout: Duration) -> (builder: UsageAgentBuilder)
        ensures
            builder@ == (UsageAgentOptions { request_timeout, ..self@ }),
    {
        let mut this = self;
        this.request_timeout = request_timeout;
        this
    }

    /// Whether invalid certificates are accepted.
    pub fn accept_invalid_certs(self, accept_invalid_certs: bool) -> (builder:
        UsageAgentBuilder)
        ensures
            builder@ == (UsageAgentOptions { accept_invalid_certs, ..self@ }),
    {
        let mut this = self;
        this.accept_invalid_certs = accept_invalid_certs;
        this
    }

    /// The time between two periodic flushes.
    pub fn flush_interval(self, flush_interval: Duration) -> (builder: UsageAgentBuilder)
        ensures
            builder@ == (UsageAgentOptions { flush_interval, ..self@ }),
    {
        let mut this = self;
        this.flush_interval = flush_interval;
        this
    }

    /// The `User-Agent` of the agent's requests. An empty one counts as none.
    pub fn user_agent(self, user_agent: String) -> (builder: UsageAgentBuilder)
        ensures
            builder@ == (UsageAgentOptions { user_agent: non_empty(Some(user_agent@)), ..self@ }),
    {
        let mut this = self;
        this.user_agent = non_empty_string(Some(user_agent));
        this
    }

    /// The retry policy of the agent's shipments.
    pub fn retry_policy(self, retry_policy: RetryPolicy) -> (builder: UsageAgentBuilder)
        ensures
            builder@ == (UsageAgentOptions { retry_policy, ..self@ }),
    {
        let mut this = self;
        this.retry_policy = retry_policy;
        this
    }

    /// The cap on the retries of a shipment.
    pub fn max_retries(self, max_retries: u32) -> (builder: UsageAgentBuilder)
        ensures
            builder@ == (UsageAgentOptions {
                retry_policy: RetryPolicy { max_retries },
                ..self@
            }),
    {
        let mut this = self;
        this.retry_policy = RetryPolicy::with_max_retries(max_retries);
        this
    }

    /// Builds the agent, or says why the options do not make one.
    pub fn build(self) -> (built: Result<UsageAgent, AgentError>)
        ensures
            match built {
                Ok(agent) => self@.settings() == Ok::<AgentSettings, AgentErrorView>(
                    agent.settings(),
                ) && agent.pending() == Seq::<ExecutionReport>::empty(),
                Err(err) => self@.settings() == Err::<AgentSettings, AgentErrorView>(err@),
            },
    {
        let token = match self.token {
            Some(token) => token,
            None => {
                return Err(AgentError::MissingToken);
            },
        };
        let authorization = join2("Bearer ", token.as_str());
        match check_header_value(authorization.as_str()) {
            Ok(()) => {},
            Err(_) => {
                return Err(AgentError::InvalidToken);
            },
        }
        let user_agent = match self.user_agent {
            Some(user_agent) => user_agent,
            None => String::new(),
        };
        UsageAgent::with_retry_policy(
            token,
            self.endpoint,
            self.target_id,
            self.buffer_size,
            self.connect_timeout,
            self.request_timeout,
            self.accept_invalid_certs,
            self.flush_interval,
            user_agent,
            self.retry_policy,
        )
    }
}

/// An agent is refused only for its configuration: a missing or invalid
/// token, a missing target id, or a target id that does not validate.
pub proof fn lemma_build_fails_only_on_configuration(options: UsageAgentOptions)
    ensures
        options.settings() matches Err(err) ==> err.is_configuration(),
        options.token is None ==> options.settings() == Err::<AgentSettings, AgentErrorView>(
            AgentErrorView::MissingToken,
        ),
{
}

/// The headers that every request of an agent with this token carries.
pub open spec fn default_headers_of(token: Seq<char>) -> Seq<HeaderView> {
    seq![
        HeaderView { name: "X-Usage-API-Version"@, value: "2"@, sensitive: false },
        HeaderView {
            name: "Authorization"@,
            value: UsageAgentOptions::authorization(token),
            sensitive: true,
        },
        HeaderView { name: "Content-Type"@, value: "application/json"@, sensitive: false },
    ]
}

/// Builds the headers that every request of an agent carries: the API
/// version, the bearer authorization, which is sensitive, and the content
/// type.
pub fn default_headers(token: &str) -> (headers: Vec<Header>)
    ensures
        header_views(headers@) == default_headers_of(token@),
{
    let mut headers: Vec<Header> = Vec::new();
    headers.push(plain_header("X-Usage-API-Version", String::from_str("2")));
    headers.push(sensitive_header("Authorization", join2("Bearer ", token)));
    headers.push(plain_header("Content-Type", String::from_str("application/json")));
    assert(header_views(headers@) =~= default_headers_of(token@));
    headers
}

} // verus!
