//! Configuration validation, authentication headers, status
//! classification and the two-step scrape.

use ece_exporter::allocator::AllocatorsRoot;
use ece_exporter::error::ConfigError;
use ece_exporter::error::Error;
use ece_exporter::error::classify_status;
use ece_exporter::metric::MetricName;
use ece_exporter::proxy::ProxiesRoot;
use ece_exporter::state::Endpoint;
use ece_exporter::state::ScrapeEvent;
use ece_exporter::state::ScrapePhase;
use ece_exporter::state::State;
use ece_exporter::state::endpoint_path;
use ece_exporter::state::scrape_wanted;

fn api_key_state() -> State {
    State::new("https://ece.example:12443".to_string(), None, None, Some("abc123".to_string()), 6000)
        .unwrap_or_else(|_| panic!("valid configuration"))
}

fn basic_state() -> State {
    State::new(
        "https://ece.example:12443".to_string(),
        Some("username".to_string()),
        Some("password".to_string()),
        None,
        6000,
    )
        .unwrap_or_else(|_| panic!("valid configuration"))
}

#[test]
fn status_classification_is_exact() {
    assert!(matches!(classify_status(200), Ok(())));
    assert!(matches!(classify_status(401), Err(Error::Unauthorized)));
    assert!(matches!(classify_status(403), Err(Error::Forbidden)));
    assert!(matches!(classify_status(404), Err(Error::NotFound)));
    assert!(matches!(classify_status(500), Err(Error::UnknownStatus(500))));
    assert!(matches!(classify_status(201), Err(Error::UnknownStatus(201))));
    assert!(matches!(classify_status(0), Err(Error::UnknownStatus(0))));
}

#[test]
fn not_found_aborts_with_no_partial_emission() {
    let state = api_key_state();
    let outcome: Result<AllocatorsRoot, Error> = Err(Error::NotFound);
    let (phase, metrics) = state.get_metrics_step(
        ScrapePhase::FetchAllocators,
        ScrapeEvent::AllocatorsFetched(outcome),
        1000,
    );
    assert!(metrics.is_empty());
    assert!(matches!(phase, ScrapePhase::Failed(Error::NotFound)));
    assert!(scrape_wanted(&phase).is_none());

    let outcome: Result<ProxiesRoot, Error> = Err(Error::NotFound);
    let (phase, metrics) = state.get_metrics_step(
        ScrapePhase::FetchProxies,
        ScrapeEvent::ProxiesFetched(outcome),
        1000,
    );
    assert!(metrics.is_empty());
    assert!(matches!(phase, ScrapePhase::Failed(Error::NotFound)));
    assert!(scrape_wanted(&phase).is_none());
}

#[test]
fn successful_scrape_walks_both_endpoints_in_order() {
    let state = api_key_state();
    let phase = ScrapePhase::FetchAllocators;
    assert!(matches!(scrape_wanted(&phase), Some(Endpoint::Allocators)));
    let (phase, _) = state.get_metrics_step(
        phase,
        ScrapeEvent::AllocatorsFetched(Ok(AllocatorsRoot { zones: vec![] })),
        1000,
    );
    assert!(matches!(phase, ScrapePhase::FetchProxies));
    assert!(matches!(scrape_wanted(&phase), Some(Endpoint::Proxies)));
    let (phase, _) = state.get_metrics_step(
        phase,
        ScrapeEvent::ProxiesFetched(Ok(ProxiesRoot { proxies_count: 0, proxies: vec![] })),
        1000,
    );
    assert!(matches!(phase, ScrapePhase::Succeeded));
    assert!(scrape_wanted(&phase).is_none());
}

#[test]
fn failed_allocators_fetch_passes_the_kind_through_unchanged() {
    let state = basic_state();
    let r = state.parse_allocators(Err(Error::UnknownStatus(502)), 0);
    assert!(matches!(r, Err(Error::UnknownStatus(502))));
    let r = state.parse_proxies(Err(Error::Forbidden));
    assert!(matches!(r, Err(Error::Forbidden)));
}

#[test]
fn successful_parse_emits_projection() {
    let state = api_key_state();
    let r = state.parse_allocators(Ok(AllocatorsRoot { zones: vec![] }), 0);
    assert!(matches!(r, Ok(ref v) if v.is_empty()));
    let r = state.parse_proxies(Ok(ProxiesRoot { proxies_count: 0, proxies: vec![] }));
    assert!(matches!(r, Ok(ref v) if v.is_empty()));
}

#[test]
fn api_key_mode_builds_apikey_header() {
    let state = api_key_state();
    assert_eq!(state.auth_header(), "ApiKey abc123");
}

#[test]
fn basic_mode_builds_base64_credentials_header() {
    let state = basic_state();
    assert_eq!(state.auth_header(), "Basic dXNlcm5hbWU6cGFzc3dvcmQ=");
}

#[test]
fn request_uri_joins_base_and_path() {
    let state = api_key_state();
    assert_eq!(
        state.request_uri(endpoint_path(Endpoint::Allocators)),
        "https://ece.example:12443/api/v1/platform/infrastructure/allocators"
    );
    assert_eq!(
        state.request_uri(endpoint_path(Endpoint::Proxies)),
        "https://ece.example:12443/api/v1/platform/infrastructure/proxies"
    );
}

#[test]
fn configuration_demands_exactly_one_credential_mode() {
    let url = || "https://ece.example".to_string();
    assert!(matches!(
        State::new(url(), None, None, None, 6000),
        Err(ConfigError::NoCredentials)
    ));
    assert!(matches!(
        State::new(url(), Some("u".to_string()), None, None, 6000),
        Err(ConfigError::NoCredentials)
    ));
    assert!(matches!(
        State::new(url(), Some("u".to_string()), Some("p".to_string()), Some("k".to_string()), 6000),
        Err(ConfigError::ConflictingCredentials)
    ));
    assert!(matches!(
        State::new(url(), None, Some("p".to_string()), Some("k".to_string()), 6000),
        Err(ConfigError::ConflictingCredentials)
    ));
    assert!(matches!(
        State::new("".to_string(), None, None, Some("k".to_string()), 6000),
        Err(ConfigError::EmptyUrl)
    ));
    assert!(matches!(
        State::new(url(), None, None, Some("k".to_string()), 2_000_000_000),
        Err(ConfigError::CostOutOfRange)
    ));
    assert!(State::new(url(), None, None, Some("k".to_string()), 6000).is_ok());
    assert!(State::new(url(), Some("u".to_string()), Some("p".to_string()), None, 6000).is_ok());
}

#[test]
fn error_messages_are_json_shaped() {
    assert_eq!(
        Error::Unauthorized.message(),
        "{\"error\": \"Cannot get config: Unauthorized\"}"
    );
    assert_eq!(Error::Forbidden.message(), "{\"error\": \"Cannot get config: Forbidden\"}");
    assert_eq!(Error::NotFound.message(), "{\"error\": \"Cannot get config: Not found\"}");
    assert_eq!(Error::UnknownStatus(500).message(), "{\"error\": \"Caught bad status code\"}");
    assert_eq!(
        Error::Transport("connection refused".to_string()).message(),
        "{\"error\": \"connection refused\"}"
    );
    assert_eq!(
        Error::DecodeFailure("missing field".to_string()).message(),
        "{\"error\": \"missing field\"}"
    );
}

#[test]
fn metric_names_render_for_the_sink() {
    assert_eq!(MetricName::AllocatorInfo.text(), "allocator_info");
    assert_eq!(MetricName::AllocatorMemoryUsed.text(), "allocator_memory_used");
    assert_eq!(MetricName::AllocatorMemoryTotal.text(), "allocator_memory_total");
    assert_eq!(MetricName::AllocatorInstancesTotal.text(), "allocator_instances_total");
    assert_eq!(MetricName::AllocatorInstanceInfo.text(), "allocator_instance_info");
    assert_eq!(MetricName::AllocatorInstanceNodeMemory.text(), "allocator_instance_node_memory");
    assert_eq!(
        MetricName::AllocatorInstanceMonthlyCost.text(),
        "allocator_instance_monthly_cost"
    );
    assert_eq!(MetricName::AllocatorInstancePlan.text(), "allocator_instance_plan");
    assert_eq!(MetricName::ProxyInfo.text(), "proxy_info");
}
