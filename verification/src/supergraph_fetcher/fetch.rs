//! The fetcher: its mirrors, the remembered etag, and what a fetch comes to.

use crate::headers::{header_views, plain_header, Header, HeaderView};
use crate::retry::{RetryPolicy, RetryVerdict};
use crate::supergraph_fetcher::error::{SupergraphFetcherError, SupergraphFetcherErrorView};
use crate::text::{clone_option, option_text};
use std::time::{Duration, SystemTime};
use vstd::prelude::*;

verus! {

/// Marks a fetcher whose host calls the endpoints with cooperative awaits.
#[derive(Debug, Clone, Copy, PartialEq, Eq)]
pub struct SupergraphFetcherAsyncState;

/// Marks a fetcher whose host calls the endpoints on a blocking thread.
#[derive(Debug, Clone, Copy, PartialEq, Eq)]
pub struct SupergraphFetcherSyncState;

/// What a fetcher is configured with.
pub struct FetcherSettings {
    /// The mirrors, in the order in which they are tried.
    pub endpoints: Seq<Seq<char>>,
    /// The headers of every request.
    pub headers: Seq<HeaderView>,
    pub user_agent: Option<Seq<char>>,
    pub connect_timeout: Duration,
    pub request_timeout: Duration,
    pub accept_invalid_certs: bool,
    pub retry_policy: RetryPolicy,
}

/// Fetches a supergraph from the first mirror that answers.
#[derive(Debug)]
pub struct SupergraphFetcher<State> {
    state: State,
    endpoints: Vec<String>,
    headers: Vec<Header>,
    user_agent: Option<String>,
    connect_timeout: Duration,
    request_timeout: Duration,
    accept_invalid_certs: bool,
    retry_policy: RetryPolicy,
    etag: Option<String>,
}

/// What came of calling one endpoint, through its circuit breaker and after
/// the retries.
#[derive(Debug)]
pub enum EndpointOutcome {
    /// The endpoint answered. `etag` is the response's `ETag` header, and
    /// `body` its text or the reason why that could not be read.
    Response { status: u16, etag: Option<String>, body: Result<String, String> },
    /// The request failed on the network.
    NetworkError(String),
    /// The circuit breaker is open and rejected the call.
    Rejected,
}

/// The mathematical content of an [`EndpointOutcome`].
pub enum EndpointOutcomeView {
    Response { status: u16, etag: Option<Seq<char>>, body: Result<Seq<char>, Seq<char>> },
    NetworkError(Seq<char>),
    Rejected,
}

impl View for EndpointOutcome {
    type V = EndpointOutcomeView;

    open spec fn view(&self) -> EndpointOutcomeView {
        match self {
            EndpointOutcome::Response { status, etag, body } => EndpointOutcomeView::Response {
                status: *status,
                etag: option_text(*etag),
                body: match body {
                    Ok(text) => Ok(text@),
                    Err(reason) => Err(reason@),
                },
            },
            EndpointOutcome::NetworkError(message) => EndpointOutcomeView::NetworkError(message@),
            EndpointOutcome::Rejected => EndpointOutcomeView::Rejected,
        }
    }
}

/// The result of a fetch: the document, nothing if the cached copy is still
/// current, or an error.
pub type Fetched = Result<Option<String>, SupergraphFetcherError>;

/// The mathematical content of a [`Fetched`].
pub type FetchedView = Result<Option<Seq<char>>, SupergraphFetcherErrorView>;

/// The view of a fetch's result.
pub open spec fn fetched_view(fetched: Fetched) -> FetchedView {
    match fetched {
        Ok(Some(text)) => Ok(Some(text@)),
        Ok(None) => Ok(None),
        Err(err) => Err(err@),
    }
}

impl EndpointOutcomeView {
    /// The call did not get an answer: the fetch goes on to the next mirror.
    pub open spec fn is_failure(self) -> bool {
        !(self is Response)
    }

    /// The error that a failed call is remembered by.
    pub open spec fn error(self) -> SupergraphFetcherErrorView {
        match self {
            EndpointOutcomeView::NetworkError(message) => SupergraphFetcherErrorView::Network(
                message,
            ),
            _ => SupergraphFetcherErrorView::RejectedByCircuitBreaker,
        }
    }

    /// What the fetch comes to if this is the outcome of the last call made:
    /// nothing on `304`, else the body of the answer, and the error of a
    /// call that failed.
    pub open spec fn result(self) -> FetchedView {
        match self {
            EndpointOutcomeView::Response { status, etag, body } => if status == 304 {
                Ok(None)
            } else {
                match body {
                    Ok(text) => Ok(Some(text)),
                    Err(reason) => Err(SupergraphFetcherErrorView::ResponseParse(reason)),
                }
            },
            _ => Err(self.error()),
        }
    }

    /// The etag that is remembered after this outcome: that of an answer
    /// other than `304`, and else the one remembered before.
    pub open spec fn etag_after(self, remembered: Option<Seq<char>>) -> Option<Seq<char>> {
        match self {
            EndpointOutcomeView::Response { status, etag, body } => if status == 304 {
                remembered
            } else {
                etag
            },
            _ => remembered,
        }
    }
}

/// What the fetcher makes of one outcome.
#[derive(Debug)]
pub enum Settled {
    /// The fetch is over, with this result.
    Done(Fetched),
    /// The call failed with this error: the next mirror is tried, if there
    /// is one.
    TryNext(SupergraphFetcherError),
}

/// What the host does next in a fetch that it drives call by call.
#[derive(Debug)]
pub enum FetchStep {
    /// Call the mirror with this index and hand its outcome to `proceed`.
    Call { endpoint: usize },
    /// The fetch is over, with this result.
    Done(Fetched),
}

/// The views of a sequence of outcomes.
pub open spec fn outcome_views(outcomes: Seq<EndpointOutcome>) -> Seq<EndpointOutcomeView> {
    Seq::new(outcomes.len(), |i: int| outcomes[i]@)
}

/// The views of a sequence of texts.
pub open spec fn text_views(texts: Seq<String>) -> Seq<Seq<char>> {
    Seq::new(texts.len(), |i: int| texts[i]@)
}

/// What a fetch comes to when its calls turn out as listed, in order: the
/// result of the last call, and nothing if no call was made.
pub open spec fn run_result(outcomes: Seq<EndpointOutcomeView>) -> FetchedView {
    if outcomes.len() == 0 {
        Ok(None)
    } else {
        outcomes.last().result()
    }
}

/// The etag that is remembered after such a fetch.
pub open spec fn run_etag(
    remembered: Option<Seq<char>>,
    outcomes: Seq<EndpointOutcomeView>,
) -> Option<Seq<char>> {
    if outcomes.len() == 0 {
        remembered
    } else {
        outcomes.last().etag_after(remembered)
    }
}

/// The calls of one fetch over `endpoints` mirrors: they go through the
/// mirrors in order, each but the last one failed, and the fetch stops
/// before the last mirror only on an answer.
pub open spec fn is_run(endpoints: nat, outcomes: Seq<EndpointOutcomeView>) -> bool {
    &&& outcomes.len() <= endpoints
    &&& forall|k: int| 0 <= k < outcomes.len() - 1 ==> (#[trigger] outcomes[k]).is_failure()
    &&& outcomes.len() < endpoints ==> outcomes.len() > 0 && !outcomes.last().is_failure()
}

/// `outcomes` are what `call` may answer for the first mirrors, each asked
/// with its index, its address and the remembered etag.
pub open spec fn answered<F: Fn(usize, &String, &Option<String>) -> EndpointOutcome>(
    call: F,
    endpoints: Seq<String>,
    etag: Option<String>,
    outcomes: Seq<EndpointOutcome>,
) -> bool {
    &&& outcomes.len() <= endpoints.len()
    &&& forall|k: int|
        0 <= k < outcomes.len() ==> call_ensures(
            call,
            (k as usize, &endpoints[k], &etag),
            #[trigger] outcomes[k],
        )
}

impl<State> SupergraphFetcher<State> {
    /// The fetcher's configuration.
    pub closed spec fn settings(&self) -> FetcherSettings {
        FetcherSettings {
            endpoints: text_views(self.endpoints@),
            headers: header_views(self.headers@),
            user_agent: option_text(self.user_agent),
            connect_timeout: self.connect_timeout,
            request_timeout: self.request_timeout,
            accept_invalid_certs: self.accept_invalid_certs,
            retry_policy: self.retry_policy,
        }
    }

    /// The etag of the last answer that carried a document, if any.
    pub closed spec fn etag(&self) -> Option<Seq<char>> {
        option_text(self.etag)
    }

    /// The mirrors as stored.
    pub closed spec fn urls(&self) -> Seq<String> {
        self.endpoints@
    }

    /// The etag as stored.
    pub closed spec fn etag_record(&self) -> Option<String> {
        self.etag
    }

    /// A fetcher that remembers no etag.
    pub(crate) fn from_parts(
        state: State,
        endpoints: Vec<String>,
        headers: Vec<Header>,
        user_agent: Option<String>,
        connect_timeout: Duration,
        request_timeout: Duration,
        accept_invalid_certs: bool,
        retry_policy: RetryPolicy,
    ) -> (fetcher: SupergraphFetcher<State>)
        ensures
            fetcher.settings() == (FetcherSettings {
                endpoints: text_views(endpoints@),
                headers: header_views(headers@),
                user_agent: option_text(user_agent),
                connect_timeout,
                request_timeout,
                accept_invalid_certs,
                retry_policy,
            }),
            fetcher.etag() is None,
    {
        SupergraphFetcher {
            state,
            endpoints,
            headers,
            user_agent,
            connect_timeout,
            request_timeout,
            accept_invalid_certs,
            retry_policy,
            etag: None,
        }
    }

    /// The mirrors, in the order in which they are tried.
    pub fn endpoints(&self) -> (endpoints: &Vec<String>)
        ensures
            endpoints@ == self.urls(),
            text_views(endpoints@) == self.settings().endpoints,
    {
        &self.endpoints
    }

    /// The headers of every request: the CDN key.
    pub fn headers(&self) -> (headers: &Vec<Header>)
        ensures
            header_views(headers@) == self.settings().headers,
    {
        &self.headers
    }

    /// The `User-Agent` of the requests, if one is configured.
    pub fn user_agent(&self) -> (user_agent: &Option<String>)
        ensures
            option_text(*user_agent) == self.settings().user_agent,
    {
        &self.user_agent
    }

    /// The timeout for connecting to a mirror.
    pub fn connect_timeout(&self) -> (timeout: Duration)
        ensures
            timeout == self.settings().connect_timeout,
    {
        self.connect_timeout
    }

    /// The timeout for a whole request.
    pub fn request_timeout(&self) -> (timeout: Duration)
        ensures
            timeout == self.settings().request_timeout,
    {
        self.request_timeout
    }

    /// Whether invalid certificates are accepted.
    pub fn accept_invalid_certs(&self) -> (accept: bool)
        ensures
            accept == self.settings().accept_invalid_certs,
    {
        self.accept_invalid_certs
    }

    /// The retry policy of a call to one mirror.
    pub fn retry_policy(&self) -> (policy: RetryPolicy)
        ensures
            policy == self.settings().retry_policy,
    {
        self.retry_policy
    }

    /// The remembered etag.
    pub fn get_latest_etag(&self) -> (etag: Option<String>)
        ensures
            option_text(etag) == self.etag(),
            option_text(self.etag_record()) == self.etag(),
    {
        clone_option(&self.etag)
    }

    /// Replaces the remembered etag: the last writer wins, and an answer
    /// without an etag leaves none remembered.
    pub fn update_latest_etag(&mut self, etag: Option<&String>)
        ensures
            final(self).etag() == match etag {
                Some(value) => Some(value@),
                None => None,
            },
            final(self).settings() == old(self).settings(),
            final(self).urls() == old(self).urls(),
    {
        match etag {
            Some(value) => {
                self.etag = Some(value.clone());
            },
            None => {
                self.etag = None;
            },
        }
    }

    /// The headers that make a request conditional: `If-None-Match` with the
    /// remembered etag, if and only if one is remembered.
    pub fn conditional_headers(&self) -> (headers: Vec<Header>)
        ensures
            header_views(headers@) == match self.etag() {
                Some(etag) => seq![
                    HeaderView { name: "If-None-Match"@, value: etag, sensitive: false },
                ],
                None => Seq::<HeaderView>::empty(),
            },
    {
        let mut headers: Vec<Header> = Vec::new();
        match &self.etag {
            Some(etag) => {
                headers.push(plain_header("If-None-Match", etag.clone()));
                assert(header_views(headers@) =~= seq![
                    HeaderView { name: "If-None-Match"@, value: etag@, sensitive: false },
                ]);
            },
            None => {
                assert(header_views(headers@) =~= Seq::<HeaderView>::empty());
            },
        }
        headers
    }

    /// Takes in what came of calling one mirror. An answer ends the fetch:
    /// `304` means that the cached copy is current and leaves the etag as it
    /// is; any other answer replaces the remembered etag by its own and
    /// yields its body. A failed or rejected call leaves everything as it is
    /// and asks for the next mirror.
    pub fn absorb(&mut self, outcome: EndpointOutcome) -> (settled: Settled)
        ensures
            final(self).etag() == outcome@.etag_after(old(self).etag()),
            final(self).settings() == old(self).settings(),
            final(self).urls() == old(self).urls(),
            outcome@.is_failure() ==> final(self).etag_record() == old(self).etag_record(),
            outcome@.is_failure() ==> settled is TryNext && (settled->TryNext_0)@
                == outcome@.error(),
            !outcome@.is_failure() ==> settled is Done && fetched_view(settled->Done_0)
                == outcome@.result(),
    {
        match outcome {
            EndpointOutcome::Response { status, etag, body } => {
                if status == 304 {
                    Settled::Done(Ok(None))
                } else {
                    self.etag = etag;
                    match body {
                        Ok(text) => Settled::Done(Ok(Some(text))),
                        Err(reason) => Settled::Done(
                            Err(SupergraphFetcherError::ResponseParse(reason)),
                        ),
                    }
                }
            },
            EndpointOutcome::NetworkError(message) => Settled::TryNext(
                SupergraphFetcherError::Network(message),
            ),
            EndpointOutcome::Rejected => Settled::TryNext(
                SupergraphFetcherError::RejectedByCircuitBreaker,
            ),
        }
    }

    /// Begins a fetch that the host drives call by call: the first mirror is
    /// to be called, and a fetcher without mirrors has nothing to fetch.
    pub fn begin(&self) -> (step: FetchStep)
        ensures
            self.urls().len() > 0 ==> step == (FetchStep::Call { endpoint: 0 }),
            self.urls().len() == 0 ==> step is Done && fetched_view(step->Done_0) == Ok::<
                Option<Seq<char>>,
                SupergraphFetcherErrorView,
            >(None),
    {
        if self.endpoints.len() > 0 {
            FetchStep::Call { endpoint: 0 }
        } else {
            FetchStep::Done(Ok(None))
        }
    }

    /// Takes in what came of calling the mirror with index `endpoint` and
    /// says how the fetch goes on. An answer ends it, as `absorb` says. After
    /// a failed or rejected call the next mirror is to be called, and behind
    /// the last mirror the fetch ends with the error of this call.
    pub fn proceed(&mut self, endpoint: usize, outcome: EndpointOutcome) -> (step: FetchStep)
        ensures
            final(self).etag() == outcome@.etag_after(old(self).etag()),
            final(self).settings() == old(self).settings(),
            final(self).urls() == old(self).urls(),
            outcome@.is_failure() ==> final(self).etag_record() == old(self).etag_record(),
            !outcome@.is_failure() ==> step is Done && fetched_view(step->Done_0)
                == outcome@.result(),
            outcome@.is_failure() && endpoint + 1 < old(self).urls().len() ==> step
                == (FetchStep::Call { endpoint: (endpoint + 1) as usize }),
            outcome@.is_failure() && endpoint + 1 >= old(self).urls().len() ==> step is Done
                && fetched_view(step->Done_0) == outcome@.result(),
    {
        let mirrors = self.endpoints.len();
        match self.absorb(outcome) {
            Settled::Done(fetched) => FetchStep::Done(fetched),
            Settled::TryNext(err) => {
                if mirrors > 0 && endpoint < mirrors - 1 {
                    FetchStep::Call { endpoint: endpoint + 1 }
                } else {
                    FetchStep::Done(Err(err))
                }
            },
        }
    }

    /// Fetches the supergraph. The mirrors are tried in order: `call` is
    /// asked for each, with its index, its address and the remembered etag,
    /// until one answers. The result is that of the last call made: the
    /// document, nothing on `304`, or the most recent error if every mirror
    /// failed.
    pub fn fetch_supergraph<F>(&mut self, call: F) -> (fetched: Fetched) where
        F: Fn(usize, &String, &Option<String>) -> EndpointOutcome,
        requires
            forall|i: usize, url: &String, etag: &Option<String>|
                call_requires(call, (i, url, etag)),
        ensures
            final(self).settings() == old(self).settings(),
            final(self).urls() == old(self).urls(),
            exists|outcomes: Seq<EndpointOutcome>|
                {
                    &&& #[trigger] answered(
                        call,
                        old(self).urls(),
                        old(self).etag_record(),
                        outcomes,
                    )
                    &&& is_run(old(self).urls().len(), outcome_views(outcomes))
                    &&& fetched_view(fetched) == run_result(outcome_views(outcomes))
                    &&& final(self).etag() == run_etag(old(self).etag(), outcome_views(outcomes))
                },
    {
        let ghost mut outcomes: Seq<EndpointOutcome> = Seq::empty();
        let mut last_error: Option<SupergraphFetcherError> = None;
        let mut i: usize = 0;
        while i < self.endpoints.len()
            invariant
                forall|i: usize, url: &String, etag: &Option<String>|
                    call_requires(call, (i, url, etag)),
                i <= self.endpoints@.len(),
                self.endpoints@ == old(self).endpoints@,
                self.etag == old(self).etag,
                self.settings() == old(self).settings(),
                outcomes.len() == i,
                answered(call, self.endpoints@, self.etag, outcomes),
                forall|k: int| 0 <= k < i ==> (#[trigger] outcomes[k])@.is_failure(),
                i == 0 ==> last_error is None,
                i > 0 ==> last_error is Some && (last_error->Some_0)@ == outcomes.last()@.error(),
            decreases self.endpoints@.len() - i,
        {
            let outcome = call(i, &self.endpoints[i], &self.etag);
            let ghost answer = outcome;
            let ghost before = outcomes;
            proof {
                outcomes = outcomes.push(answer);
                assert(answered(call, self.endpoints@, self.etag, outcomes)) by {
                    assert forall|k: int| 0 <= k < outcomes.len() implies call_ensures(
                        call,
                        (k as usize, &self.endpoints@[k], &self.etag),
                        #[trigger] outcomes[k],
                    ) by {
                        if k < i {
                            assert(outcomes[k] == before[k]);
                        }
                    }
                }
            }
            match self.absorb(outcome) {
                Settled::Done(fetched) => {
                    proof {
                        let views = outcome_views(outcomes);
                        assert(views.last() == answer@);
                        assert(is_run(old(self).urls().len(), views)) by {
                            assert forall|k: int| 0 <= k < views.len() - 1 implies (
                            #[trigger] views[k]).is_failure() by {
                                assert(outcomes[k] == before[k]);
                            }
                        }
                        assert(answered(
                            call,
                            old(self).urls(),
                            old(self).etag_record(),
                            outcomes,
                        ));
                    }
                    return fetched;
                },
                Settled::TryNext(err) => {
                    last_error = Some(err);
                },
            }
            proof {
                assert forall|k: int| 0 <= k < i + 1 implies (#[trigger] outcomes[k])@.is_failure() by {
                    if k < i {
                        assert(outcomes[k] == before[k]);
                    }
                }
            }
            i += 1;
        }
        proof {
            let views = outcome_views(outcomes);
            assert(is_run(old(self).urls().len(), views)) by {
                assert forall|k: int| 0 <= k < views.len() - 1 implies (
                #[trigger] views[k]).is_failure() by {
                    assert(outcomes[k]@.is_failure());
                }
            }
            if i > 0 {
                assert(views.last() == outcomes.last()@);
            }
            assert(answered(call, old(self).urls(), old(self).etag_record(), outcomes));
        }
        match last_error {
            Some(err) => Err(err),
            None => Ok(None),
        }
    }

    /// A call to one mirror under the fetcher's retry policy, before its
    /// first attempt.
    pub fn endpoint_call(&self) -> (call: EndpointCall)
        ensures
            call.policy() == self.settings().retry_policy,
            call.retries() == 0,
    {
        EndpointCall::new(self.retry_policy)
    }
}

/// What follows a request that failed on the network.
#[derive(Debug)]
pub enum CallStep {
    /// Send the request again, not before `execute_after`.
    Retry { execute_after: SystemTime },
    /// Give up on this mirror, with this error.
    Fail(SupergraphFetcherError),
}

/// One call to a mirror in progress: the policy, and how often the request
/// has been retried.
#[derive(Debug, Clone, Copy)]
pub struct EndpointCall {
    policy: RetryPolicy,
    retries: u32,
}

impl EndpointCall {
    /// The retry policy of the call.
    pub closed spec fn policy(&self) -> RetryPolicy {
        self.policy
    }

    /// The number of retries granted so far.
    pub closed spec fn retries(&self) -> u32 {
        self.retries
    }

    /// A call before its first attempt.
    pub fn new(policy: RetryPolicy) -> (call: EndpointCall)
        ensures
            call.policy() == policy,
            call.retries() == 0,
    {
        EndpointCall { policy, retries: 0 }
    }

    /// What follows from the policy's verdict on a request that failed with
    /// `message`.
    pub fn settle(message: String, verdict: RetryVerdict) -> (step: CallStep)
        ensures
            match verdict {
                RetryVerdict::Retry { execute_after } => step == (CallStep::Retry {
                    execute_after,
                }),
                RetryVerdict::DoNotRetry => step is Fail && (step->Fail_0)@
                    == SupergraphFetcherErrorView::Network(message@),
            },
    {
        match verdict {
            RetryVerdict::Retry { execute_after } => CallStep::Retry { execute_after },
            RetryVerdict::DoNotRetry => CallStep::Fail(SupergraphFetcherError::Network(message)),
        }
    }

    /// Takes in that the request, started at `request_start_time`, failed on
    /// the network with `message`. It is sent again while the policy allows
    /// one more retry; after that the call fails with a network error.
    pub fn on_send_error(&mut self, message: String, request_start_time: SystemTime) -> (step:
        CallStep)
        ensures
            final(self).policy() == old(self).policy(),
            old(self).policy().allows(old(self).retries()) ==> {
                &&& step is Retry
                &&& final(self).retries() == old(self).retries() + 1
            },
            !old(self).policy().allows(old(self).retries()) ==> {
                &&& step is Fail
                &&& (step->Fail_0)@ == SupergraphFetcherErrorView::Network(message@)
                &&& final(self).retries() == old(self).retries()
            },
    {
        let verdict = self.policy.should_retry(request_start_time, self.retries);
        match verdict {
            RetryVerdict::Retry { execute_after } => {
                self.retries = self.retries + 1;
            },
            RetryVerdict::DoNotRetry => {},
        }
        EndpointCall::settle(message, verdict)
    }
}

/// With the first mirror rejected by its circuit breaker and the second one
/// answering, the fetch yields the second mirror's document and remembers the
/// second mirror's etag.
pub proof fn lemma_failover_uses_next_mirror(
    remembered: Option<Seq<char>>,
    status: u16,
    etag: Option<Seq<char>>,
    document: Seq<char>,
)
    requires
        status != 304,
    ensures
        ({
            let outcomes = seq![
                EndpointOutcomeView::Rejected,
                EndpointOutcomeView::Response { status, etag, body: Ok(document) },
            ];
            &&& is_run(2, outcomes)
            &&& run_result(outcomes) == Ok::<Option<Seq<char>>, SupergraphFetcherErrorView>(
                Some(document),
            )
            &&& run_etag(remembered, outcomes) == etag
        }),
{
}

/// The same holds after any number of failed mirrors, be they rejected or
/// unreachable: the first answer decides, and its etag is remembered.
pub proof fn lemma_first_answer_decides(
    remembered: Option<Seq<char>>,
    failures: Seq<EndpointOutcomeView>,
    answer: EndpointOutcomeView,
    endpoints: nat,
)
    requires
        forall|k: int| 0 <= k < failures.len() ==> (#[trigger] failures[k]).is_failure(),
        !answer.is_failure(),
        failures.len() < endpoints,
    ensures
        is_run(endpoints, failures.push(answer)),
        run_result(failures.push(answer)) == answer.result(),
        run_etag(remembered, failures.push(answer)) == answer.etag_after(remembered),
{
    let outcomes = failures.push(answer);
    assert forall|k: int| 0 <= k < outcomes.len() - 1 implies (#[trigger] outcomes[k]).is_failure() by {
        assert(outcomes[k] == failures[k]);
    }
}

/// A `304` means that nothing changed: the fetch yields no document and the
/// remembered etag stays as it is, whatever the answer carries.
pub proof fn lemma_not_modified_keeps_etag(
    remembered: Option<Seq<char>>,
    failures: Seq<EndpointOutcomeView>,
    etag: Option<Seq<char>>,
    body: Result<Seq<char>, Seq<char>>,
)
    ensures
        ({
            let outcomes = failures.push(
                EndpointOutcomeView::Response { status: 304, etag, body },
            );
            &&& run_result(outcomes) == Ok::<Option<Seq<char>>, SupergraphFetcherErrorView>(None)
            &&& run_etag(remembered, outcomes) == remembered
        }),
{
}

/// When every mirror fails, the fetch yields the error of the last one and
/// the remembered etag stays as it is.
pub proof fn lemma_all_mirrors_failed(
    remembered: Option<Seq<char>>,
    outcomes: Seq<EndpointOutcomeView>,
)
    requires
        outcomes.len() > 0,
        forall|k: int| 0 <= k < outcomes.len() ==> (#[trigger] outcomes[k]).is_failure(),
    ensures
        is_run(outcomes.len(), outcomes),
        run_result(outcomes) == Err::<Option<Seq<char>>, SupergraphFetcherErrorView>(
            outcomes.last().error(),
        ),
        run_etag(remembered, outcomes) == remembered,
{
    assert(outcomes[outcomes.len() - 1].is_failure());
}

} // verus!
