use lending_indexer::client::{
    ApiErrorBody, ApiErrorDetail, IndexerClientError, classify_transport_failure, decode_failure,
    map_api_error,
};

/// Reads the indexer's error envelope from a body, as the HTTP layer does
/// before handing a failed response to `map_api_error`.
fn envelope_of(body: &[u8]) -> Option<ApiErrorBody> {
    let value: serde_json::Value = serde_json::from_slice(body).ok()?;
    let error = value.get("error")?;
    let code = error.get("code")?.as_str()?.to_string();
    let message = error.get("message")?.as_str()?.to_string();
    Some(ApiErrorBody { error: ApiErrorDetail { code, message } })
}

fn map(status: u16, body: &[u8]) -> IndexerClientError {
    map_api_error(status, envelope_of(body), body)
}

#[test]
fn map_api_error_parses_indexer_envelope() {
    let body = br#"{"error":{"code":"bad_request","message":"invalid params"}}"#;
    match map(400, body) {
        IndexerClientError::Api { status, code, message } => {
            assert_eq!(status, 400);
            assert_eq!(code, "bad_request");
            assert_eq!(message, "invalid params");
        }
        other => panic!("expected Api error, got {other:?}"),
    }
}

#[test]
fn map_api_error_maps_404_to_not_found() {
    let body = br#"{"error":{"code":"not_found","message":"Resource not found: offer-1"}}"#;
    match map(404, body) {
        IndexerClientError::NotFound(message) => {
            assert_eq!(message, "Resource not found: offer-1");
        }
        other => panic!("expected NotFound, got {other:?}"),
    }
}

#[test]
fn map_api_error_falls_back_to_raw_body() {
    let body = b"upstream exploded";
    match map(502, body) {
        IndexerClientError::Api { status, code, message } => {
            assert_eq!(status, 502);
            assert_eq!(code, "unknown");
            assert_eq!(message, "upstream exploded");
        }
        other => panic!("expected Api error, got {other:?}"),
    }
}

#[test]
fn not_found_without_envelope_keeps_raw_body() {
    match map(404, b"gone") {
        IndexerClientError::NotFound(message) => assert_eq!(message, "gone"),
        other => panic!("expected NotFound, got {other:?}"),
    }
}

#[test]
fn raw_body_with_invalid_utf8_is_replaced() {
    match map(500, &[0x6f, 0x6b, 0xff]) {
        IndexerClientError::Api { code, message, .. } => {
            assert_eq!(code, "unknown");
            assert_eq!(message, "ok\u{fffd}");
        }
        other => panic!("expected Api error, got {other:?}"),
    }
}

#[test]
fn timeout_wins_over_builder_failure() {
    let e = classify_transport_failure(true, true, "slow".to_string());
    assert!(matches!(e, IndexerClientError::Timeout));
}

#[test]
fn builder_failure_is_invalid_config() {
    match classify_transport_failure(false, true, "bad tls".to_string()) {
        IndexerClientError::InvalidConfig(m) => assert_eq!(m, "bad tls"),
        other => panic!("expected InvalidConfig, got {other:?}"),
    }
}

#[test]
fn other_failure_is_transport() {
    match classify_transport_failure(false, false, "reset".to_string()) {
        IndexerClientError::Transport(m) => assert_eq!(m, "reset"),
        other => panic!("expected Transport, got {other:?}"),
    }
}

#[test]
fn request_builder_error_maps_to_invalid_config() {
    let error = reqwest::Client::new().get("not a url").build().expect_err("invalid url");
    match IndexerClientError::from_http_error(error) {
        IndexerClientError::InvalidConfig(m) => assert!(!m.is_empty()),
        other => panic!("expected InvalidConfig, got {other:?}"),
    }
}

#[test]
fn decode_failure_keeps_reason() {
    match decode_failure("expected value".to_string()) {
        IndexerClientError::Decode(m) => assert_eq!(m, "expected value"),
        other => panic!("expected Decode, got {other:?}"),
    }
}

#[test]
fn display_texts_of_each_variant() {
    let api = IndexerClientError::Api {
        status: 500,
        code: "internal_error".to_string(),
        message: "boom".to_string(),
    };
    assert_eq!(
        api.to_display_string(),
        "indexer API error (status 500, code internal_error): boom"
    );
    assert_eq!(IndexerClientError::Timeout.to_display_string(), "request timed out");
    assert_eq!(
        IndexerClientError::InvalidConfig("x".to_string()).to_display_string(),
        "invalid client configuration: x"
    );
    assert_eq!(
        IndexerClientError::Transport("y".to_string()).to_display_string(),
        "transport error: y"
    );
    assert_eq!(
        IndexerClientError::NotFound("z".to_string()).to_display_string(),
        "resource not found: z"
    );
    assert_eq!(
        IndexerClientError::Decode("w".to_string()).to_display_string(),
        "failed to decode response: w"
    );
}
