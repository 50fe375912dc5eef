//! Adapter-level error types aggregating HTTP and WebSocket errors, and their
//! classification into retryable and fatal errors.

use vstd::prelude::*;

use crate::text::push_str;

verus! {

/// Aster WebSocket streams error type shared by spot and futures clients.
#[derive(Debug, Clone, PartialEq, Eq)]
pub enum AsterWsError {
    /// General client error.
    ClientError(String),
    /// Authentication failed.
    AuthenticationError(String),
    /// Message parsing error.
    ParseError(String),
    /// Network or connection error.
    NetworkError(String),
    /// Operation timed out.
    Timeout(String),
}

/// The message an Aster WebSocket error displays.
pub open spec fn ws_error_message(e: AsterWsError) -> Seq<char> {
    match e {
        AsterWsError::ClientError(msg) => "Client error: "@ + msg@,
        AsterWsError::AuthenticationError(msg) => "Authentication error: "@ + msg@,
        AsterWsError::ParseError(msg) => "Parse error: "@ + msg@,
        AsterWsError::NetworkError(msg) => "Network error: "@ + msg@,
        AsterWsError::Timeout(msg) => "Timeout: "@ + msg@,
    }
}

impl AsterWsError {
    /// Returns the human-readable message of the error, e.g. `Client error: {msg}`.
    pub fn message(&self) -> (s: String)
        ensures
            s@ == ws_error_message(*self),
    {
        let mut s = String::new();
        match self {
            AsterWsError::ClientError(msg) => {
                push_str(&mut s, "Client error: ");
                push_str(&mut s, msg.as_str());
            },
            AsterWsError::AuthenticationError(msg) => {
                push_str(&mut s, "Authentication error: ");
                push_str(&mut s, msg.as_str());
            },
            AsterWsError::ParseError(msg) => {
                push_str(&mut s, "Parse error: ");
                push_str(&mut s, msg.as_str());
            },
            AsterWsError::NetworkError(msg) => {
                push_str(&mut s, "Network error: ");
                push_str(&mut s, msg.as_str());
            },
            AsterWsError::Timeout(msg) => {
                push_str(&mut s, "Timeout: ");
                push_str(&mut s, msg.as_str());
            },
        }
        s
    }
}

/// Aster Futures HTTP API error.
#[derive(Debug, Clone, PartialEq, Eq)]
pub enum AsterFuturesHttpError {
    /// API credentials are required but missing or incomplete.
    MissingCredentials,
    /// Aster returned an error body with a code and a message.
    AsterError {
        /// The Aster error code.
        code: i64,
        /// The Aster error message.
        message: String,
    },
    /// Aster answered with an unsuccessful status and an unparseable body.
    UnexpectedStatus {
        /// The HTTP status code.
        status: u16,
        /// The response body.
        body: String,
    },
    /// Network or transport failure.
    NetworkError(String),
    /// The request timed out.
    Timeout(String),
    /// A request was rejected before it was sent.
    ValidationError(String),
    /// A response body could not be decoded.
    JsonError(String),
}

/// Aster Futures WebSocket Trading API error.
#[derive(Debug, Clone, PartialEq, Eq)]
pub enum AsterFuturesWsApiError {
    /// The trading connection failed or was lost.
    ConnectionError(String),
    /// Any other failure of the trading API, with its description.
    Other(String),
}

/// Adapter-level error aggregating HTTP and WebSocket errors.
#[derive(Debug, Clone, PartialEq, Eq)]
pub enum AsterError {
    /// A Futures HTTP API error.
    FuturesHttp(AsterFuturesHttpError),
    /// A WebSocket streams error.
    WebSocket(AsterWsError),
    /// A Futures WebSocket Trading API error.
    FuturesWsApi(AsterFuturesWsApiError),
    /// A configuration or build error.
    Config(String),
}

/// Aster error codes indicating authentication or permission failures:
/// -2015 (invalid API-key, IP, or permissions), -2014 (API-key format invalid),
/// -1022 (signature not valid).
pub open spec fn is_auth_error_code(code: i64) -> bool {
    code == -2015 || code == -2014 || code == -1022
}

/// Aster error codes indicating rate limiting or throttling: -1003 (too many
/// requests) and -1015 (too many new orders).
pub open spec fn is_rate_limit_error_code(code: i64) -> bool {
    code == -1003 || code == -1015
}

/// Whether an error is likely transient, so that the operation can be retried.
pub open spec fn error_is_retryable(e: AsterError) -> bool {
    match e {
        AsterError::FuturesHttp(h) => match h {
            AsterFuturesHttpError::NetworkError(_) | AsterFuturesHttpError::Timeout(_) => true,
            AsterFuturesHttpError::AsterError { code, .. } => is_rate_limit_error_code(code),
            AsterFuturesHttpError::UnexpectedStatus { status, .. } => status == 429 || status >= 500,
            _ => false,
        },
        AsterError::WebSocket(w) => match w {
            AsterWsError::NetworkError(_) | AsterWsError::Timeout(_) => true,
            _ => false,
        },
        AsterError::FuturesWsApi(a) => a is ConnectionError,
        AsterError::Config(_) => false,
    }
}

/// Whether an error is fatal and requires intervention.
pub open spec fn error_is_fatal(e: AsterError) -> bool {
    match e {
        AsterError::FuturesHttp(h) => match h {
            AsterFuturesHttpError::MissingCredentials => true,
            AsterFuturesHttpError::AsterError { code, .. } => is_auth_error_code(code),
            AsterFuturesHttpError::UnexpectedStatus { status, .. } => status == 401 || status == 403,
            _ => false,
        },
        AsterError::WebSocket(w) => w is AuthenticationError,
        AsterError::FuturesWsApi(_) => false,
        AsterError::Config(_) => true,
    }
}

impl AsterError {
    /// Returns `true` if the error is likely transient and the operation can be retried.
    pub fn is_retryable(&self) -> (b: bool)
        ensures
            b == error_is_retryable(*self),
            *self matches AsterError::FuturesHttp(AsterFuturesHttpError::AsterError { code, .. })
                ==> (b <==> (code == -1003 || code == -1015)),
            *self matches AsterError::FuturesHttp(
                AsterFuturesHttpError::UnexpectedStatus { status, .. },
            ) ==> (b <==> (status == 429 || status >= 500)),
    {
        match self {
            Self::FuturesHttp(e) => match e {
                AsterFuturesHttpError::NetworkError(_) | AsterFuturesHttpError::Timeout(_) => true,
                AsterFuturesHttpError::AsterError { code, .. } => *code == -1003 || *code == -1015,
                AsterFuturesHttpError::UnexpectedStatus { status, .. } => *status == 429 || *status
                    >= 500,
                _ => false,
            },
            Self::WebSocket(e) => matches!(e, AsterWsError::NetworkError(_) | AsterWsError::Timeout(_)),
            Self::FuturesWsApi(e) => matches!(e, AsterFuturesWsApiError::ConnectionError(_)),
            Self::Config(_) => false,
        }
    }

    /// Returns `true` if the error is fatal and requires intervention.
    pub fn is_fatal(&self) -> (b: bool)
        ensures
            b == error_is_fatal(*self),
            *self matches AsterError::FuturesHttp(AsterFuturesHttpError::AsterError { code, .. })
                ==> (b <==> (code == -2015 || code == -2014 || code == -1022)),
            *self matches AsterError::FuturesHttp(
                AsterFuturesHttpError::UnexpectedStatus { status, .. },
            ) ==> (b <==> (status == 401 || status == 403)),
    {
        match self {
            Self::FuturesHttp(e) => match e {
                AsterFuturesHttpError::MissingCredentials => true,
                AsterFuturesHttpError::AsterError { code, .. } => *code == -2015 || *code == -2014
                    || *code == -1022,
                AsterFuturesHttpError::UnexpectedStatus { status, .. } => *status == 401 || *status
                    == 403,
                _ => false,
            },
            Self::WebSocket(e) => matches!(e, AsterWsError::AuthenticationError(_)),
            Self::FuturesWsApi(_) => false,
            Self::Config(_) => true,
        }
    }
}

/// No error is both retryable and fatal: the retry codes and statuses are disjoint
/// from the authentication codes and statuses.
pub proof fn retryable_and_fatal_are_exclusive(e: AsterError)
    ensures
        !(error_is_retryable(e) && error_is_fatal(e)),
{
}

/// An Aster error answer is classified by its code alone: the rate-limit codes
/// -1003 (too many requests) and -1015 (too many new orders) are retryable and
/// not fatal; the authentication codes -2015, -2014 and -1022 are fatal and not
/// retryable; every other code is neither.
pub proof fn aster_error_codes_classify(code: i64, message: String)
    ensures
        (code == -1003 || code == -1015) ==> error_is_retryable(
            AsterError::FuturesHttp(AsterFuturesHttpError::AsterError { code, message }),
        ) && !error_is_fatal(
            AsterError::FuturesHttp(AsterFuturesHttpError::AsterError { code, message }),
        ),
        (code == -2015 || code == -2014 || code == -1022) ==> error_is_fatal(
            AsterError::FuturesHttp(AsterFuturesHttpError::AsterError { code, message }),
        ) && !error_is_retryable(
            AsterError::FuturesHttp(AsterFuturesHttpError::AsterError { code, message }),
        ),
        !(code == -1003 || code == -1015 || code == -2015 || code == -2014 || code == -1022)
            ==> !error_is_retryable(
            AsterError::FuturesHttp(AsterFuturesHttpError::AsterError { code, message }),
        ) && !error_is_fatal(
            AsterError::FuturesHttp(AsterFuturesHttpError::AsterError { code, message }),
        ),
{
}

/// An unexpected HTTP status is retryable when it is 429 (too many requests) or
/// a server error (500 and above), and fatal when it is 401 or 403.
pub proof fn http_statuses_classify(status: u16, body: String)
    ensures
        error_is_retryable(
            AsterError::FuturesHttp(AsterFuturesHttpError::UnexpectedStatus { status, body }),
        ) <==> (status == 429 || status >= 500),
        error_is_fatal(
            AsterError::FuturesHttp(AsterFuturesHttpError::UnexpectedStatus { status, body }),
        ) <==> (status == 401 || status == 403),
{
}

} // verus!
