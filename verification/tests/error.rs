use nautilus_aster::error::{AsterError, AsterFuturesHttpError, AsterWsError};

#[test]
fn test_futures_http_network_error_is_retryable() {
    let err = AsterError::FuturesHttp(AsterFuturesHttpError::NetworkError(
        "connection refused".to_string(),
    ));
    assert!(err.is_retryable());
    assert!(!err.is_fatal());
}

#[test]
fn test_futures_http_missing_credentials_is_fatal() {
    let err = AsterError::FuturesHttp(AsterFuturesHttpError::MissingCredentials);
    assert!(err.is_fatal());
    assert!(!err.is_retryable());
}

#[test]
fn test_ws_auth_error_is_fatal() {
    let err = AsterError::WebSocket(AsterWsError::AuthenticationError("invalid key".to_string()));
    assert!(err.is_fatal());
    assert!(!err.is_retryable());
}

#[test]
fn test_ws_network_error_is_retryable() {
    let err = AsterError::WebSocket(AsterWsError::NetworkError("connection lost".to_string()));
    assert!(err.is_retryable());
    assert!(!err.is_fatal());
}

#[test]
fn test_config_error_is_fatal() {
    let err = AsterError::Config("invalid product type".to_string());
    assert!(err.is_fatal());
    assert!(!err.is_retryable());
}

#[test]
fn test_futures_http_auth_error_code_is_fatal() {
    let err = AsterError::FuturesHttp(AsterFuturesHttpError::AsterError {
        code: -2015,
        message: "Invalid API-key".to_string(),
    });
    assert!(err.is_fatal());
    assert!(!err.is_retryable());
}

#[test]
fn test_futures_http_rate_limit_is_retryable() {
    let err = AsterError::FuturesHttp(AsterFuturesHttpError::AsterError {
        code: -1003,
        message: "Too many requests".to_string(),
    });
    assert!(err.is_retryable());
    assert!(!err.is_fatal());
}

#[test]
fn server_errors_are_retryable_client_errors_are_not() {
    let e500 = AsterError::FuturesHttp(AsterFuturesHttpError::UnexpectedStatus {
        status: 503,
        body: String::new(),
    });
    let e429 = AsterError::FuturesHttp(AsterFuturesHttpError::UnexpectedStatus {
        status: 429,
        body: String::new(),
    });
    let e400 = AsterError::FuturesHttp(AsterFuturesHttpError::UnexpectedStatus {
        status: 400,
        body: String::new(),
    });
    assert!(e500.is_retryable());
    assert!(e429.is_retryable());
    assert!(!e400.is_retryable());
    assert!(!e400.is_fatal());
}

#[test]
fn no_error_is_both_retryable_and_fatal() {
    let errors = vec![
        AsterError::FuturesHttp(AsterFuturesHttpError::Timeout("t".into())),
        AsterError::FuturesHttp(AsterFuturesHttpError::ValidationError("v".into())),
        AsterError::FuturesHttp(AsterFuturesHttpError::JsonError("j".into())),
        AsterError::FuturesHttp(AsterFuturesHttpError::AsterError {
            code: -1022,
            message: "sig".into(),
        }),
        AsterError::WebSocket(AsterWsError::Timeout("t".into())),
        AsterError::WebSocket(AsterWsError::ParseError("p".into())),
        AsterError::WebSocket(AsterWsError::ClientError("c".into())),
        AsterError::Config("c".into()),
    ];
    for e in errors {
        assert!(!(e.is_retryable() && e.is_fatal()));
    }
}

#[test]
fn ws_error_messages() {
    assert_eq!(
        AsterWsError::ClientError("boom".into()).message(),
        "Client error: boom"
    );
    assert_eq!(
        AsterWsError::AuthenticationError("bad".into()).message(),
        "Authentication error: bad"
    );
    assert_eq!(AsterWsError::Timeout("5s".into()).message(), "Timeout: 5s");
}
