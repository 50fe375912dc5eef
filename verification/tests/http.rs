use nautilus_aster::enums::{AsterEnvironment, AsterProductType};
use nautilus_aster::error::AsterFuturesHttpError;
use nautilus_aster::http::{
    append_signature, batch_query, build_url, check_batch_size, is_success_status,
    parse_error_response, percent_encode, prepare_request_query, query_account_path,
    query_positions_path, resolve_api_path, resolve_raw_client_settings, signed_query, BatchKind,
    MarkPriceResponse,
};

#[test]
fn test_parse_error_response_aster_error() {
    let err = parse_error_response(
        400,
        r#"{"code":-1121,"msg":"Invalid symbol."}"#.to_string(),
        Some((-1121, "Invalid symbol.".to_string())),
    );
    match err {
        AsterFuturesHttpError::AsterError { code, message } => {
            assert_eq!(code, -1121);
            assert_eq!(message, "Invalid symbol.");
        }
        other => panic!("Expected AsterError, was {other:?}"),
    }
}

#[test]
fn parse_error_response_without_aster_body_keeps_status() {
    let err = parse_error_response(502, "bad gateway".to_string(), None);
    assert_eq!(
        err,
        AsterFuturesHttpError::UnexpectedStatus {
            status: 502,
            body: "bad gateway".to_string()
        }
    );
}

#[test]
fn test_aster_raw_http_client_local_addr_none_equivalent_to_new() {
    let a = resolve_raw_client_settings(
        AsterProductType::UsdM,
        AsterEnvironment::Mainnet,
        None,
        None,
        None,
        None,
        "agent",
    );
    assert!(a.is_ok());
}

#[test]
fn raw_client_settings_resolve_url_path_and_headers() {
    let s = resolve_raw_client_settings(
        AsterProductType::CoinM,
        AsterEnvironment::Testnet,
        Some("key".to_string()),
        Some("secret".to_string()),
        None,
        Some(5000),
        "agent/1.0",
    )
    .unwrap();
    assert_eq!(s.base_url, "https://testnet.asterdex.com");
    assert_eq!(s.api_path, "/dapi/v1");
    assert_eq!(s.recv_window, Some(5000));
    assert_eq!(
        s.default_headers,
        vec![
            ("User-Agent".to_string(), "agent/1.0".to_string()),
            ("X-MBX-APIKEY".to_string(), "key".to_string())
        ]
    );
    let creds = s.credentials.unwrap();
    assert_eq!(creds.api_key, "key");
    assert_eq!(creds.api_secret, "secret");
}

#[test]
fn raw_client_settings_override_base_url_and_need_both_credentials() {
    let s = resolve_raw_client_settings(
        AsterProductType::UsdM,
        AsterEnvironment::Mainnet,
        None,
        None,
        Some("http://localhost:8080".to_string()),
        None,
        "agent",
    )
    .unwrap();
    assert_eq!(s.base_url, "http://localhost:8080");
    assert_eq!(s.api_path, "/fapi/v1");
    assert!(s.credentials.is_none());
    assert_eq!(s.default_headers.len(), 1);

    let err = resolve_raw_client_settings(
        AsterProductType::UsdM,
        AsterEnvironment::Mainnet,
        Some("key".to_string()),
        None,
        None,
        None,
        "agent",
    )
    .unwrap_err();
    assert_eq!(err, AsterFuturesHttpError::MissingCredentials);
}

#[test]
fn api_paths_per_product_type() {
    assert_eq!(resolve_api_path(AsterProductType::UsdM), "/fapi/v1");
    assert_eq!(resolve_api_path(AsterProductType::CoinM), "/dapi/v1");
    assert_eq!(query_account_path("/fapi/v1"), "/fapi/v2/account");
    assert_eq!(query_account_path("/dapi/v1"), "/dapi/v1/account");
    assert_eq!(query_positions_path("/fapi/v1"), "/fapi/v2/positionRisk");
    assert_eq!(query_positions_path("/dapi/v1"), "/dapi/v1/positionRisk");
}

#[test]
fn build_url_joins_path_and_query() {
    let base = "https://fapi.asterdex.com";
    assert_eq!(
        build_url(base, "/fapi/v1", "ticker/24hr", "symbol=BTCUSDT"),
        "https://fapi.asterdex.com/fapi/v1/ticker/24hr?symbol=BTCUSDT"
    );
    assert_eq!(
        build_url(base, "/fapi/v1", "/time", ""),
        "https://fapi.asterdex.com/fapi/v1/time"
    );
    assert_eq!(
        build_url(base, "/fapi/v1", "/fapi/v2/account", "a=1"),
        "https://fapi.asterdex.com/fapi/v2/account?a=1"
    );
}

#[test]
fn percent_encode_escapes_reserved_bytes() {
    assert_eq!(percent_encode("abc-_.~XYZ09"), "abc-_.~XYZ09");
    assert_eq!(
        percent_encode(r#"[{"a":1}]"#),
        "%5B%7B%22a%22%3A1%7D%5D"
    );
    assert_eq!(percent_encode("a b"), "a%20b");
    assert_eq!(percent_encode("é"), "%C3%A9");
}

#[test]
fn signed_query_appends_timestamp_and_window() {
    assert_eq!(
        signed_query("symbol=BTCUSDT", 1700000000000, Some(5000)),
        "symbol=BTCUSDT&timestamp=1700000000000&recvWindow=5000"
    );
    assert_eq!(signed_query("", 42, None), "timestamp=42");
    assert_eq!(signed_query("a=1", -5, None), "a=1&timestamp=-5");
}

#[test]
fn batch_query_encodes_items() {
    assert_eq!(
        batch_query(r#"[{"s":"B"}]"#, 7, Some(10)),
        "batchOrders=%5B%7B%22s%22%3A%22B%22%7D%5D&timestamp=7&recvWindow=10"
    );
}

#[test]
fn append_signature_adds_parameter() {
    assert_eq!(append_signature("a=1&timestamp=2", "abc"), "a=1&timestamp=2&signature=abc");
}

#[test]
fn prepare_request_query_cases() {
    assert_eq!(
        prepare_request_query("a=1", true, false, 5, None),
        Err(AsterFuturesHttpError::MissingCredentials)
    );
    assert_eq!(
        prepare_request_query("a=1", true, true, 5, Some(9)).unwrap(),
        "a=1&timestamp=5&recvWindow=9"
    );
    assert_eq!(prepare_request_query("a=1", false, false, 5, None).unwrap(), "a=1");
}

#[test]
fn success_statuses_are_2xx() {
    assert!(is_success_status(200));
    assert!(is_success_status(204));
    assert!(!is_success_status(199));
    assert!(!is_success_status(300));
    assert!(!is_success_status(404));
}

#[test]
fn batch_size_limits() {
    assert_eq!(check_batch_size(0, BatchKind::Orders), Ok(false));
    assert_eq!(check_batch_size(5, BatchKind::Cancel), Ok(true));
    assert_eq!(
        check_batch_size(6, BatchKind::Orders),
        Err(AsterFuturesHttpError::ValidationError(
            "Batch order limit is 5 orders maximum".to_string()
        ))
    );
    assert_eq!(
        check_batch_size(7, BatchKind::Modify),
        Err(AsterFuturesHttpError::ValidationError(
            "Batch modify limit is 5 orders maximum".to_string()
        ))
    );
    assert_eq!(
        check_batch_size(9, BatchKind::Cancel),
        Err(AsterFuturesHttpError::ValidationError(
            "Batch cancel limit is 5 orders maximum".to_string()
        ))
    );
}

#[test]
fn mark_price_answers_become_lists() {
    assert_eq!(MarkPriceResponse::Single(3u8).into_vec(), vec![3]);
    assert_eq!(MarkPriceResponse::Multiple(vec![1u8, 2]).into_vec(), vec![1, 2]);
}
