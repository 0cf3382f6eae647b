use std::time::Duration;

use lending_indexer::client::requests::{
    get_borrower_overview_request, get_factories_by_script_request, get_factory_request,
    get_lender_overview_request, get_offer_ids_by_script_request, get_offer_request,
    get_offers_overview_request, list_borrower_offers_request, list_lender_offers_request,
    list_offers_request,
};
use lending_indexer::client::config::trim_trailing_slashes;
use lending_indexer::client::{IndexerClientError, check_response};
use lending_indexer::client::{
    DEFAULT_TIMEOUT_SECS, IndexerClient, IndexerClientConfig, OfferListParams, is_success_status,
};

#[test]
fn config_defaults_to_thirty_seconds() {
    let config = IndexerClientConfig::new("http://indexer");
    assert_eq!(config.base_url, "http://indexer");
    assert_eq!(DEFAULT_TIMEOUT_SECS, 30);
    assert_eq!(config.timeout, Duration::from_secs(30));
}

#[test]
fn with_timeout_replaces_only_the_timeout() {
    let config =
        IndexerClientConfig::new("http://indexer").with_timeout(Duration::from_millis(50));
    assert_eq!(config.base_url, "http://indexer");
    assert_eq!(config.timeout, Duration::from_millis(50));
}

#[test]
fn client_trims_trailing_slashes() {
    let client = IndexerClient::new("http://127.0.0.1:8080///").expect("build client");
    assert_eq!(client.base_url(), "http://127.0.0.1:8080");
    assert_eq!(client.url_for("/offers"), "http://127.0.0.1:8080/offers");
}

#[test]
fn client_with_config_keeps_base_url() {
    let config = IndexerClientConfig::new("http://localhost").with_timeout(Duration::from_secs(1));
    let client = IndexerClient::with_config(config).expect("build client");
    assert_eq!(client.base_url(), "http://localhost");
}

#[test]
fn trimming_edge_cases() {
    assert_eq!(trim_trailing_slashes(""), "");
    assert_eq!(trim_trailing_slashes("///"), "");
    assert_eq!(trim_trailing_slashes("a/b"), "a/b");
    assert_eq!(trim_trailing_slashes("é/"), "é");
}

#[test]
fn success_statuses_are_2xx() {
    assert!(!is_success_status(199));
    assert!(is_success_status(200));
    assert!(is_success_status(299));
    assert!(!is_success_status(300));
    assert!(!is_success_status(404));
}

#[test]
fn endpoint_paths_and_queries() {
    let params = OfferListParams::new().with_limit(2);

    let r = list_offers_request(&params);
    assert_eq!(r.path, "/offers");
    assert_eq!(r.query, vec![("limit", "2".to_string())]);

    let r = get_offer_request("123");
    assert_eq!(r.path, "/offers/123");
    assert!(r.query.is_empty());

    let r = get_offer_ids_by_script_request("0014abcd");
    assert_eq!(r.path, "/offers/by-script");
    assert_eq!(r.query, vec![("script_pubkey", "0014abcd".to_string())]);

    let r = get_offers_overview_request();
    assert_eq!(r.path, "/offers/overview");
    assert!(r.query.is_empty());

    let r = list_borrower_offers_request("0014abcd", &params);
    assert_eq!(r.path, "/borrowers/offers");
    assert_eq!(
        r.query,
        vec![("limit", "2".to_string()), ("script_pubkey", "0014abcd".to_string())]
    );

    let r = get_borrower_overview_request("aa");
    assert_eq!(r.path, "/borrowers/overview");
    assert_eq!(r.query, vec![("script_pubkey", "aa".to_string())]);

    let r = list_lender_offers_request("bb", &OfferListParams::new());
    assert_eq!(r.path, "/lenders/offers");
    assert_eq!(r.query, vec![("script_pubkey", "bb".to_string())]);

    let r = get_lender_overview_request("cc");
    assert_eq!(r.path, "/lenders/overview");
    assert_eq!(r.query, vec![("script_pubkey", "cc".to_string())]);

    let r = get_factories_by_script_request("51ac");
    assert_eq!(r.path, "/factories/by-script");
    assert_eq!(r.query, vec![("script_pubkey", "51ac".to_string())]);

    let r = get_factory_request(0x22222222_2222_2222_2222_222222222222);
    assert_eq!(r.path, "/factories/22222222-2222-2222-2222-222222222222");
    assert!(r.query.is_empty());

    let r = get_factory_request(0x0123456789abcdef_fedcba9876543210);
    assert_eq!(r.path, "/factories/01234567-89ab-cdef-fedc-ba9876543210");
}

#[test]
fn failed_http_build_gives_no_client() {
    let error = reqwest::Client::new().get("::").build().expect_err("invalid url");
    match IndexerClient::from_built("http://x/", Err(error)) {
        Err(IndexerClientError::InvalidConfig(m)) => {
            assert!(!m.is_empty())
        }
        other => panic!("expected InvalidConfig, got {other:?}"),
    }
    let client = IndexerClient::from_built("http://x/", Ok(reqwest::Client::new())).unwrap();
    assert_eq!(client.clone().base_url(), "http://x");
}

#[test]
fn check_response_accepts_only_2xx() {
    assert!(check_response(200, None, b"{}").is_ok());
    assert!(check_response(204, None, b"").is_ok());
    match check_response(404, None, b"missing") {
        Err(IndexerClientError::NotFound(m)) => assert_eq!(m, "missing"),
        other => panic!("expected NotFound, got {other:?}"),
    }
    match check_response(503, None, b"down") {
        Err(IndexerClientError::Api { status, code, message }) => {
            assert_eq!(status, 503);
            assert_eq!(code, "unknown");
            assert_eq!(message, "down");
        }
        other => panic!("expected Api, got {other:?}"),
    }
}
