use oars::client::{complete_fetch, fetch_url, prepare_fetch, QuotaGovernor, ResourceKind};
use oars::config::OARSConfig;
use oars::error::{DecodeError, OARSError};

#[test]
fn increment_querycount() {
    let config = OARSConfig::new();
    let mut governor = QuotaGovernor::new(config.dailylimit);
    governor.bump_querycount(None).unwrap();
    assert_eq!(governor.get_querycount(), 1);
}

#[test]
fn increment_querycount_with_value() {
    let config = OARSConfig::new();
    let mut governor = QuotaGovernor::new(config.dailylimit);
    governor.bump_querycount(Some(5)).unwrap();
    assert_eq!(governor.get_querycount(), 5);
}

#[test]
fn reset_querycount() {
    let config = OARSConfig::new();
    let mut governor = QuotaGovernor::new(config.dailylimit);
    governor.bump_querycount(None).unwrap();
    governor.reset_querycount();
    assert_eq!(governor.get_querycount(), 0);
}

#[test]
fn query_limit() {
    let config = OARSConfig::new().dailylimit(1000);
    let mut governor = QuotaGovernor::new(config.dailylimit);
    for _ in 0..config.dailylimit {
        assert!(governor.bump_querycount(None).is_ok());
    }
    assert!(governor.bump_querycount(None).is_err());
}

#[test]
fn over_budget_request_leaves_counter_unchanged() {
    let mut governor = QuotaGovernor::new(4);
    governor.bump_querycount(Some(3)).unwrap();
    let refused = governor.bump_querycount(Some(2));
    assert_eq!(refused.unwrap_err(), OARSError::QueryLimitReached);
    assert_eq!(governor.get_querycount(), 3);
}

#[test]
fn ceiling_of_three_with_reset_window() {
    let mut governor = QuotaGovernor::new(3);
    governor.bump_querycount(None).unwrap();
    assert_eq!(governor.get_querycount(), 1);
    governor.bump_querycount(None).unwrap();
    assert_eq!(governor.get_querycount(), 2);
    governor.bump_querycount(None).unwrap();
    assert_eq!(governor.get_querycount(), 3);

    let fourth = governor.bump_querycount(None);
    assert_eq!(fourth.unwrap_err(), OARSError::QueryLimitReached);

    // The reset window elapsing is the periodic task calling reset.
    governor.reset_querycount();
    governor.bump_querycount(None).unwrap();
    assert_eq!(governor.get_querycount(), 1);
}

#[test]
fn decoding_never_touches_the_budget() {
    let mut governor = QuotaGovernor::new(10);
    governor.bump_querycount(None).unwrap();

    let result = oars::bakery::leaven(oars::bakery::Leavenable::Text("{\"truncated".to_string()));
    assert_eq!(result.unwrap_err(), DecodeError::Malformed);

    assert_eq!(governor.get_querycount(), 1);
}

#[test]
fn segments_name_each_resource() {
    assert_eq!(ResourceKind::Works.segment(), "works");
    assert_eq!(ResourceKind::Authors.segment(), "authors");
    assert_eq!(ResourceKind::Funders.segment(), "funders");
    assert_eq!(ResourceKind::Institutions.segment(), "institutions");
    assert_eq!(ResourceKind::Publishers.segment(), "publishers");
    assert_eq!(ResourceKind::Sources.segment(), "sources");
    assert_eq!(ResourceKind::Topics.segment(), "topics");
}

#[test]
fn fetch_url_joins_base_segment_and_id() {
    let url = fetch_url("https://api.openalex.org", &ResourceKind::Works, "W2741809807");
    assert_eq!(url, "https://api.openalex.org/works/W2741809807");

    let url = fetch_url("https://api.openalex.org", &ResourceKind::Authors, "A5023888391");
    assert_eq!(url, "https://api.openalex.org/authors/A5023888391");
}

#[test]
fn prepare_fetch_charges_one_request() {
    let mut governor = QuotaGovernor::new(2);
    let url = prepare_fetch(&mut governor, "https://api.openalex.org", &ResourceKind::Topics, "T11636");
    assert_eq!(url.unwrap(), "https://api.openalex.org/topics/T11636");
    assert_eq!(governor.get_querycount(), 1);
}

#[test]
fn exhausted_budget_refuses_the_fetch_before_transport() {
    let mut governor = QuotaGovernor::new(1);
    governor.bump_querycount(None).unwrap();

    // No URL is handed out, so the transport layer has nothing to call.
    let refused = prepare_fetch(&mut governor, "https://api.openalex.org", &ResourceKind::Works, "W1");
    assert_eq!(refused.unwrap_err(), OARSError::QueryLimitReached);
    assert_eq!(governor.get_querycount(), 1);
}

#[test]
fn transport_failure_surfaces_as_network_error() {
    let result = complete_fetch(None);
    assert_eq!(result.unwrap_err(), OARSError::NetworkError);
}

#[test]
fn response_body_decodes_into_the_payload() {
    let body = br#"{"id":"https://openalex.org/W2741809807","cited_by_count":12}"#.to_vec();
    let value = complete_fetch(Some(body)).expect("a well-formed body decodes");
    assert_eq!(value["id"], "https://openalex.org/W2741809807");
    assert_eq!(value["cited_by_count"], 12);
}

#[test]
fn malformed_response_body_is_a_decode_failure() {
    let result = complete_fetch(Some(b"<html>not json</html>".to_vec()));
    assert_eq!(result.unwrap_err(), OARSError::Decode(DecodeError::Malformed));
}
