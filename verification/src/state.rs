//! The client configuration, the authentication header it yields, and
//! the two-step scrape that fetches allocators, then proxies, stopping
//! at the first failure.

use vstd::prelude::*;
use vstd::string::StringExecFns;

use crate::allocator::AllocatorsRoot;
use crate::collect::allocator_root_metrics;
use crate::collect::project_allocators;
use crate::collect::project_proxies;
use crate::collect::proxies_root_metrics;
use crate::collect::scrape_cents;
use crate::cost::MAX_ERU_COST;
use crate::cost::MAX_MONTH_SECONDS;
use crate::error::ConfigError;
use crate::error::Error;
use crate::metric::Metric;
use crate::proxy::ProxiesRoot;

verus! {

/// Name for the Basic Authorization header value that http_auth_basic
/// builds from a username and a password: the word `Basic`, a space,
/// and the base64 encoding of `user:pass`. It depends on the two
/// strings alone.
pub uninterp spec fn basic_header_of(user: Seq<char>, pass: Seq<char>) -> Seq<char>;

/// Relies on http_auth_basic::Credentials::as_http_header (reached
/// through Credentials::new, which only stores the two strings): the
/// result is `Basic ` followed by the base64 encoding of `user:pass`,
/// a function of the credentials alone.
#[verifier::external_body]
fn basic_auth_header(user: &str, pass: &str) -> (r: String)
    ensures
        r@ == basic_header_of(user@, pass@),
{
    http_auth_basic::Credentials::new(user, pass).as_http_header()
}

/// The connection configuration of the orchestrator client: base URL,
/// exactly one credential mode, and the configured annual unit cost.
pub struct State {
    pub url: String,
    pub username: Option<String>,
    pub password: Option<String>,
    pub api_key: Option<String>,
    pub eru_cost: u64,
}

/// The configuration fault in the given raw settings, if any, checked
/// in this order: an empty base URL; an API key given alongside a
/// username or password; no complete credential mode; a unit cost too
/// large for the exact cost arithmetic.
pub open spec fn config_fault(
    url: Seq<char>,
    username: Option<Seq<char>>,
    password: Option<Seq<char>>,
    api_key: Option<Seq<char>>,
    eru_cost: u64,
) -> Option<ConfigError> {
    if url.len() == 0 {
        Some(ConfigError::EmptyUrl)
    } else if api_key is Some && (username is Some || password is Some) {
        Some(ConfigError::ConflictingCredentials)
    } else if api_key is None && !(username is Some && password is Some) {
        Some(ConfigError::NoCredentials)
    } else if eru_cost > MAX_ERU_COST {
        Some(ConfigError::CostOutOfRange)
    } else {
        None
    }
}

impl State {
    /// A well-formed configuration: a non-empty base URL, exactly one
    /// credential mode (an API key, or a username with a password),
    /// and a unit cost within the exact-arithmetic bound.
    pub open spec fn wf(self) -> bool {
        &&& self.url@.len() > 0
        &&& match self.api_key {
            Some(_) => self.username is None && self.password is None,
            None => self.username is Some && self.password is Some,
        }
        &&& self.eru_cost <= MAX_ERU_COST
    }

    /// Validates the raw settings and builds the client configuration;
    /// the error, if any, names the first fault in the documented
    /// order. Succeeds exactly on fault-free settings, and keeps every
    /// setting unchanged.
    pub fn new(
        url: String,
        username: Option<String>,
        password: Option<String>,
        api_key: Option<String>,
        eru_cost: u64,
    ) -> (r: Result<State, ConfigError>)
        ensures
            match config_fault(
                url@,
                username.deep_view(),
                password.deep_view(),
                api_key.deep_view(),
                eru_cost,
            ) {
                Some(fault) => r == Err::<State, ConfigError>(fault),
                None => match r {
                    Ok(s) => {
                        &&& s.wf()
                        &&& s.url == url
                        &&& s.username == username
                        &&& s.password == password
                        &&& s.api_key == api_key
                        &&& s.eru_cost == eru_cost
                    },
                    Err(_) => false,
                },
            },
    {
        if url.as_str().is_empty() {
            return Err(ConfigError::EmptyUrl);
        }
        if api_key.is_some() && (username.is_some() || password.is_some()) {
            return Err(ConfigError::ConflictingCredentials);
        }
        if api_key.is_none() && !(username.is_some() && password.is_some()) {
            return Err(ConfigError::NoCredentials);
        }
        if eru_cost > MAX_ERU_COST {
            return Err(ConfigError::CostOutOfRange);
        }
        Ok(State { url, username, password, api_key, eru_cost })
    }

    /// The Authorization header value of every fetch: `ApiKey {key}`
    /// in API-key mode, the Basic credentials header otherwise.
    pub fn auth_header(&self) -> (r: String)
        requires
            self.wf(),
        ensures
            match self.api_key {
                Some(k) => r@ == "ApiKey "@ + k@,
                None => match (self.username, self.password) {
                    (Some(u), Some(p)) => r@ == basic_header_of(u@, p@),
                    _ => false,
                },
            },
    {
        match &self.api_key {
            Some(k) => String::from_str("ApiKey ").concat(k.as_str()),
            None => {
                let u = self.username.as_ref().unwrap();
                let p = self.password.as_ref().unwrap();
                basic_auth_header(u.as_str(), p.as_str())
            },
        }
    }

    /// The URI of one fetch: the base URL, a slash, the resource path.
    pub fn request_uri(&self, path: &str) -> (r: String)
        ensures
            r@ == self.url@ + "/"@ + path@,
    {
        self.url.clone().concat("/").concat(path)
    }

    /// Projects one allocators fetch outcome: a failure passes through
    /// unchanged with nothing emitted; a payload emits exactly its
    /// projection under the configured unit cost and the given elapsed
    /// month seconds.
    pub fn parse_allocators(
        &self,
        outcome: Result<AllocatorsRoot, Error>,
        seconds_since_month_start: u64,
    ) -> (r: Result<Vec<Metric>, Error>)
        requires
            self.wf(),
            seconds_since_month_start <= MAX_MONTH_SECONDS,
        ensures
            match outcome {
                Ok(root) => match r {
                    Ok(metrics) => metrics.deep_view() == allocator_root_metrics(
                        root.deep_view(),
                        scrape_cents(self.eru_cost, seconds_since_month_start),
                    ),
                    Err(_) => false,
                },
                Err(e) => r == Err::<Vec<Metric>, Error>(e),
            },
    {
        match outcome {
            Ok(root) => Ok(
                project_allocators(&root, self.eru_cost, seconds_since_month_start),
            ),
            Err(e) => Err(e),
        }
    }

    /// Projects one proxies fetch outcome: a failure passes through
    /// unchanged with nothing emitted; a payload emits exactly its
    /// projection.
    pub fn parse_proxies(&self, outcome: Result<ProxiesRoot, Error>) -> (r: Result<
        Vec<Metric>,
        Error,
    >)
        ensures
            match outcome {
                Ok(root) => match r {
                    Ok(metrics) => metrics.deep_view() == proxies_root_metrics(root.deep_view()),
                    Err(_) => false,
                },
                Err(e) => r == Err::<Vec<Metric>, Error>(e),
            },
    {
        match outcome {
            Ok(root) => Ok(project_proxies(&root)),
            Err(e) => Err(e),
        }
    }
}

/// One of the two inventory resources a scrape fetches.
#[derive(Clone, Copy, PartialEq, Eq, Structural)]
pub enum Endpoint {
    Allocators,
    Proxies,
}

/// The request path of an endpoint under the base URL.
pub open spec fn endpoint_path_view(e: Endpoint) -> Seq<char> {
    match e {
        Endpoint::Allocators => "api/v1/platform/infrastructure/allocators"@,
        Endpoint::Proxies => "api/v1/platform/infrastructure/proxies"@,
    }
}

/// Renders the request path of an endpoint.
pub fn endpoint_path(e: Endpoint) -> (p: &'static str)
    ensures
        p@ == endpoint_path_view(e),
{
    match e {
        Endpoint::Allocators => "api/v1/platform/infrastructure/allocators",
        Endpoint::Proxies => "api/v1/platform/infrastructure/proxies",
    }
}

/// Where one scrape stands: which fetch comes next, or how it ended.
pub enum ScrapePhase {
    FetchAllocators,
    FetchProxies,
    Succeeded,
    Failed(Error),
}

/// The outcome of the fetch a scrape was waiting for.
pub enum ScrapeEvent {
    AllocatorsFetched(Result<AllocatorsRoot, Error>),
    ProxiesFetched(Result<ProxiesRoot, Error>),
}

/// The endpoint a scrape in the given phase must fetch next; a scrape
/// that failed fetches nothing more, so no proxies fetch ever follows
/// a failed allocators fetch.
pub open spec fn wanted_endpoint(phase: ScrapePhase) -> Option<Endpoint> {
    match phase {
        ScrapePhase::FetchAllocators => Some(Endpoint::Allocators),
        ScrapePhase::FetchProxies => Some(Endpoint::Proxies),
        ScrapePhase::Succeeded => None,
        ScrapePhase::Failed(_) => None,
    }
}

/// Which endpoint to fetch next in the given phase, if any.
pub fn scrape_wanted(phase: &ScrapePhase) -> (r: Option<Endpoint>)
    ensures
        r == wanted_endpoint(*phase),
{
    match phase {
        ScrapePhase::FetchAllocators => Some(Endpoint::Allocators),
        ScrapePhase::FetchProxies => Some(Endpoint::Proxies),
        ScrapePhase::Succeeded => None,
        ScrapePhase::Failed(_) => None,
    }
}

/// Does the delivered event answer the fetch the phase was waiting
/// for?
pub open spec fn event_matches_phase(phase: ScrapePhase, event: ScrapeEvent) -> bool {
    match (phase, event) {
        (ScrapePhase::FetchAllocators, ScrapeEvent::AllocatorsFetched(_)) => true,
        (ScrapePhase::FetchProxies, ScrapeEvent::ProxiesFetched(_)) => true,
        _ => false,
    }
}

impl State {
    /// One step of a scrape: takes the outcome of the fetch the phase
    /// was waiting for and returns the next phase together with the
    /// gauges this step emits. A successful allocators fetch emits its
    /// projection and moves on to the proxies fetch; a successful
    /// proxies fetch emits its projection and completes the scrape;
    /// either failure emits nothing, carries the failure kind
    /// unchanged into the final phase, and ends the scrape, so the
    /// failed resource contributes no partial emission. Gauges emitted
    /// by an earlier, successful step are not rolled back.
    pub fn get_metrics_step(&self, phase: ScrapePhase, event: ScrapeEvent, seconds: u64) -> (r: (
        ScrapePhase,
        Vec<Metric>,
    ))
        requires
            self.wf(),
            seconds <= MAX_MONTH_SECONDS,
            event_matches_phase(phase, event),
        ensures
            match event {
                ScrapeEvent::AllocatorsFetched(outcome) => match outcome {
                    Ok(root) => r.0 == ScrapePhase::FetchProxies && r.1.deep_view()
                        == allocator_root_metrics(
                        root.deep_view(),
                        scrape_cents(self.eru_cost, seconds),
                    ),
                    Err(e) => r.0 == ScrapePhase::Failed(e) && r.1.deep_view()
                        == Seq::<crate::metric::MetricV>::empty(),
                },
                ScrapeEvent::ProxiesFetched(outcome) => match outcome {
                    Ok(root) => r.0 == ScrapePhase::Succeeded && r.1.deep_view()
                        == proxies_root_metrics(root.deep_view()),
                    Err(e) => r.0 == ScrapePhase::Failed(e) && r.1.deep_view()
                        == Seq::<crate::metric::MetricV>::empty(),
                },
            },
    {
        match event {
            ScrapeEvent::AllocatorsFetched(outcome) => match self.parse_allocators(
                outcome,
                seconds,
            ) {
                Ok(metrics) => (ScrapePhase::FetchProxies, metrics),
                Err(e) => {
                    let empty: Vec<Metric> = Vec::new();
                    proof {
                        assert(empty.deep_view() =~= Seq::<crate::metric::MetricV>::empty());
                    }
                    (ScrapePhase::Failed(e), empty)
                },
            },
            ScrapeEvent::ProxiesFetched(outcome) => match self.parse_proxies(outcome) {
                Ok(metrics) => (ScrapePhase::Succeeded, metrics),
                Err(e) => {
                    let empty: Vec<Metric> = Vec::new();
                    proof {
                        assert(empty.deep_view() =~= Seq::<crate::metric::MetricV>::empty());
                    }
                    (ScrapePhase::Failed(e), empty)
                },
            },
        }
    }
}

} // verus!
