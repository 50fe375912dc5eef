//! Request construction for the Aster Futures REST API: API paths, URLs,
//! percent-encoding, signed query strings, batch limits and error responses.

use vstd::prelude::*;
use vstd::string::StrSliceExecFns;
use vstd::string::StringSliceAdditionalSpecFns;

use crate::enums::AsterProductType;
use crate::error::AsterFuturesHttpError;
use crate::rate_limit::{
    config_default_quota, config_keyed, fold_rate_limits, futures_rate_limits, keyed_view,
    rate_limit_config, strings_view, RateLimitConfig,
};
use crate::text::{
    decimal, push_char, push_decimal, push_signed_decimal, push_str, signed_decimal, starts_with,
};
use crate::urls::{get_http_base_url, http_base_url};

verus! {

/// HTTP header name for the Aster API key.
pub const ASTER_API_KEY_HEADER: &'static str = "X-MBX-APIKEY";

/// Aster USD-M Futures API version path.
pub const ASTER_FAPI_PATH: &'static str = "/fapi/v1";

/// Aster COIN-M Futures API version path.
pub const ASTER_DAPI_PATH: &'static str = "/dapi/v1";

/// The API version path of a futures product type (USD-M unless COIN-M).
pub open spec fn api_path_of(p: AsterProductType) -> Seq<char> {
    if p == AsterProductType::CoinM {
        "/dapi/v1"@
    } else {
        "/fapi/v1"@
    }
}

/// Returns the API version path of a futures product type.
pub fn resolve_api_path(product_type: AsterProductType) -> (path: &'static str)
    ensures
        path@ == api_path_of(product_type),
{
    match product_type {
        AsterProductType::UsdM => ASTER_FAPI_PATH,
        AsterProductType::CoinM => ASTER_DAPI_PATH,
        _ => ASTER_FAPI_PATH,
    }
}

/// Whether `p` is a prefix of `s`.
pub open spec fn has_prefix(s: Seq<char>, p: Seq<char>) -> bool {
    p.len() <= s.len() && s.subrange(0, p.len() as int) == p
}

/// The path part of a request URL: full API paths (`/fapi/...`, `/dapi/...`)
/// are kept; other paths are put under the client's API version path.
pub open spec fn url_path(api_path: Seq<char>, path: Seq<char>) -> Seq<char> {
    if has_prefix(path, "/fapi/"@) || has_prefix(path, "/dapi/"@) {
        path
    } else if path.len() > 0 && path[0] == '/' {
        api_path + path
    } else {
        api_path + "/"@ + path
    }
}

/// The request URL: base URL, path, and `?query` when the query is not empty.
pub open spec fn request_url(base_url: Seq<char>, api_path: Seq<char>, path: Seq<char>, query: Seq<
    char,
>) -> Seq<char> {
    if query.len() == 0 {
        base_url + url_path(api_path, path)
    } else {
        base_url + url_path(api_path, path) + "?"@ + query
    }
}

/// Builds the URL of a request.
pub fn build_url(base_url: &str, api_path: &str, path: &str, query: &str) -> (url: String)
    ensures
        url@ == request_url(base_url@, api_path@, path@, query@),
{
    let mut url = base_url.to_owned();
    if starts_with(path, "/fapi/") || starts_with(path, "/dapi/") {
        push_str(&mut url, path);
    } else if path.unicode_len() > 0 && path.get_char(0) == '/' {
        push_str(&mut url, api_path);
        push_str(&mut url, path);
    } else {
        push_str(&mut url, api_path);
        push_str(&mut url, "/");
        push_str(&mut url, path);
    }
    if query.unicode_len() > 0 {
        push_str(&mut url, "?");
        push_str(&mut url, query);
    }
    assert(url@ =~= request_url(base_url@, api_path@, path@, query@));
    url
}

/// Whether a byte is left as it is by percent-encoding (`A-Z a-z 0-9 - _ . ~`).
pub open spec fn is_unreserved(b: u8) -> bool {
    (65 <= b <= 90) || (97 <= b <= 122) || (48 <= b <= 57) || b == 45 || b == 95 || b == 46 || b
        == 126
}

/// The upper-case hexadecimal digit of a value below 16.
pub open spec fn hex_upper(d: int) -> char {
    if d < 10 {
        crate::text::digit_char(d as nat)
    } else if d == 10 {
        'A'
    } else if d == 11 {
        'B'
    } else if d == 12 {
        'C'
    } else if d == 13 {
        'D'
    } else if d == 14 {
        'E'
    } else {
        'F'
    }
}

/// The encoding of one byte: the byte itself when unreserved, otherwise `%XX`.
pub open spec fn percent_encode_byte(b: u8) -> Seq<char> {
    if is_unreserved(b) {
        seq![b as char]
    } else {
        seq!['%', hex_upper(b as int / 16), hex_upper(b as int % 16)]
    }
}

/// The percent-encoding of a byte string.
pub open spec fn percent_encoded(bytes: Seq<u8>) -> Seq<char>
    decreases bytes.len(),
{
    if bytes.len() == 0 {
        Seq::empty()
    } else {
        percent_encoded(bytes.drop_last()) + percent_encode_byte(bytes.last())
    }
}

fn hex_digit(d: u8) -> (c: char)
    requires
        d < 16,
    ensures
        c == hex_upper(d as int),
{
    if d < 10 {
        match d {
            0 => '0',
            1 => '1',
            2 => '2',
            3 => '3',
            4 => '4',
            5 => '5',
            6 => '6',
            7 => '7',
            8 => '8',
            _ => '9',
        }
    } else if d == 10 {
        'A'
    } else if d == 11 {
        'B'
    } else if d == 12 {
        'C'
    } else if d == 13 {
        'D'
    } else if d == 14 {
        'E'
    } else {
        'F'
    }
}

/// Percent-encodes a string's UTF-8 bytes for use in URL query parameters.
pub fn percent_encode(input: &str) -> (r: String)
    ensures
        r@ == percent_encoded(input.spec_bytes()),
{
    let bytes = input.as_bytes();
    let mut result = String::new();
    let mut i: usize = 0;
    while i < bytes.len()
        invariant
            i <= bytes@.len(),
            result@ == percent_encoded(bytes@.take(i as int)),
        decreases bytes@.len() - i,
    {
        let b = bytes[i];
        assert(bytes@.take(i + 1).drop_last() =~= bytes@.take(i as int));
        let ghost before = result@;
        if (b >= 65 && b <= 90) || (b >= 97 && b <= 122) || (b >= 48 && b <= 57) || b == 45 || b
            == 95 || b == 46 || b == 126 {
            push_char(&mut result, b as char);
        } else {
            push_char(&mut result, '%');
            push_char(&mut result, hex_digit(b / 16));
            push_char(&mut result, hex_digit(b % 16));
        }
        assert(result@ =~= before + percent_encode_byte(b));
        i = i + 1;
    }
    assert(bytes@.take(bytes@.len() as int) =~= bytes@);
    result
}

/// The `&recvWindow=...` suffix of a query, when there is a receive window.
pub open spec fn recv_window_part(recv_window: Option<u64>) -> Seq<char> {
    match recv_window {
        Some(w) => "&recvWindow="@ + decimal(w as nat),
        None => Seq::empty(),
    }
}

/// The query of a signed request before its signature: the parameters, `&`
/// when there are any, the timestamp, and the receive window when there is one.
pub open spec fn signed_query_text(query: Seq<char>, timestamp_ms: i64, recv_window: Option<u64>) -> Seq<
    char,
> {
    (if query.len() == 0 {
        Seq::empty()
    } else {
        query + "&"@
    }) + "timestamp="@ + signed_decimal(timestamp_ms as int) + recv_window_part(recv_window)
}

fn push_recv_window(s: &mut String, recv_window: Option<u64>)
    ensures
        final(s)@ == old(s)@ + recv_window_part(recv_window),
{
    match recv_window {
        Some(w) => {
            push_str(s, "&recvWindow=");
            push_decimal(s, w);
            assert(s@ =~= old(s)@ + recv_window_part(recv_window));
        },
        None => {
            assert(s@ =~= old(s)@ + recv_window_part(recv_window));
        },
    }
}

/// Extends a request's query with the timestamp and receive window that a
/// signed request carries (the part that the signature covers).
pub fn signed_query(query: &str, timestamp_ms: i64, recv_window: Option<u64>) -> (r: String)
    ensures
        r@ == signed_query_text(query@, timestamp_ms, recv_window),
{
    let mut s = query.to_owned();
    if query.unicode_len() > 0 {
        push_str(&mut s, "&");
    }
    push_str(&mut s, "timestamp=");
    push_signed_decimal(&mut s, timestamp_ms);
    push_recv_window(&mut s, recv_window);
    assert(s@ =~= signed_query_text(query@, timestamp_ms, recv_window));
    s
}

/// Prepares the query of a request before its signature, if it has one: a
/// signed request needs credentials ([`AsterFuturesHttpError::MissingCredentials`]
/// without them) and carries the timestamp and receive window; an unsigned
/// request sends its query as it is.
pub fn prepare_request_query(
    query: &str,
    signed: bool,
    has_credentials: bool,
    timestamp_ms: i64,
    recv_window: Option<u64>,
) -> (r: Result<String, AsterFuturesHttpError>)
    ensures
        signed && !has_credentials ==> r == Err::<String, AsterFuturesHttpError>(
            AsterFuturesHttpError::MissingCredentials,
        ),
        signed && has_credentials ==> r is Ok && r->Ok_0@ == signed_query_text(
            query@,
            timestamp_ms,
            recv_window,
        ),
        !signed ==> r is Ok && r->Ok_0@ == query@,
{
    if !signed {
        return Ok(query.to_owned());
    }
    if !has_credentials {
        return Err(AsterFuturesHttpError::MissingCredentials);
    }
    Ok(signed_query(query, timestamp_ms, recv_window))
}

/// Whether an HTTP status is a success (2xx).
pub fn is_success_status(status: u16) -> (b: bool)
    ensures
        b == (200 <= status && status < 300),
{
    200 <= status && status < 300
}

/// The query of a batch request before its signature: the percent-encoded
/// batch JSON, the timestamp, and the receive window when there is one.
pub open spec fn batch_query_text(batch_json: Seq<u8>, timestamp_ms: i64, recv_window: Option<u64>) -> Seq<
    char,
> {
    "batchOrders="@ + percent_encoded(batch_json) + "&timestamp="@ + signed_decimal(
        timestamp_ms as int,
    ) + recv_window_part(recv_window)
}

/// Builds the query of a batch request (the part that the signature covers).
pub fn batch_query(batch_json: &str, timestamp_ms: i64, recv_window: Option<u64>) -> (r: String)
    ensures
        r@ == batch_query_text(batch_json.spec_bytes(), timestamp_ms, recv_window),
{
    let encoded = percent_encode(batch_json);
    let mut s = String::new();
    push_str(&mut s, "batchOrders=");
    push_str(&mut s, encoded.as_str());
    push_str(&mut s, "&timestamp=");
    push_signed_decimal(&mut s, timestamp_ms);
    push_recv_window(&mut s, recv_window);
    assert(s@ =~= batch_query_text(batch_json.spec_bytes(), timestamp_ms, recv_window));
    s
}

/// Appends the signature of a signed query: `&signature=<signature>`.
pub fn append_signature(query: &str, signature: &str) -> (r: String)
    ensures
        r@ == query@ + "&signature="@ + signature@,
{
    let mut s = query.to_owned();
    push_str(&mut s, "&signature=");
    push_str(&mut s, signature);
    s
}

/// The account endpoint of a client: `/fapi/v2/account` under a `/fapi` API
/// path, `/dapi/v1/account` otherwise.
pub open spec fn account_path(api_path: Seq<char>) -> Seq<char> {
    if has_prefix(api_path, "/fapi"@) {
        "/fapi/v2/account"@
    } else {
        "/dapi/v1/account"@
    }
}

/// The position-risk endpoint of a client: `/fapi/v2/positionRisk` under a
/// `/fapi` API path, `/dapi/v1/positionRisk` otherwise.
pub open spec fn position_risk_path(api_path: Seq<char>) -> Seq<char> {
    if has_prefix(api_path, "/fapi"@) {
        "/fapi/v2/positionRisk"@
    } else {
        "/dapi/v1/positionRisk"@
    }
}

/// Returns the account endpoint for an API path.
pub fn query_account_path(api_path: &str) -> (p: &'static str)
    ensures
        p@ == account_path(api_path@),
{
    if starts_with(api_path, "/fapi") {
        "/fapi/v2/account"
    } else {
        "/dapi/v1/account"
    }
}

/// Returns the position-risk endpoint for an API path.
pub fn query_positions_path(api_path: &str) -> (p: &'static str)
    ensures
        p@ == position_risk_path(api_path@),
{
    if starts_with(api_path, "/fapi") {
        "/fapi/v2/positionRisk"
    } else {
        "/dapi/v1/positionRisk"
    }
}

/// The kind of a batch request.
#[derive(Copy, Clone, Debug, PartialEq, Eq, Structural)]
pub enum BatchKind {
    /// A batch of new orders.
    Orders,
    /// A batch of order modifications.
    Modify,
    /// A batch of cancellations.
    Cancel,
}

/// The most items a batch request may hold.
pub const MAX_BATCH_SIZE: usize = 5;

/// The validation message of an oversized batch.
pub open spec fn batch_limit_message(kind: BatchKind) -> Seq<char> {
    match kind {
        BatchKind::Orders => "Batch order limit is 5 orders maximum"@,
        BatchKind::Modify => "Batch modify limit is 5 orders maximum"@,
        BatchKind::Cancel => "Batch cancel limit is 5 orders maximum"@,
    }
}

/// Decides whether a batch of `len` items is sent: an empty batch is answered
/// with no results and no request (`Ok(false)`), a batch of more than five items
/// is rejected, and any other batch is sent (`Ok(true)`).
pub fn check_batch_size(len: usize, kind: BatchKind) -> (r: Result<bool, AsterFuturesHttpError>)
    ensures
        len == 0 ==> r == Ok::<bool, AsterFuturesHttpError>(false),
        0 < len <= 5 ==> r == Ok::<bool, AsterFuturesHttpError>(true),
        len > 5 ==> r is Err && r->Err_0 is ValidationError && r->Err_0->ValidationError_0@
            == batch_limit_message(kind),
{
    if len == 0 {
        return Ok(false);
    }
    if len > MAX_BATCH_SIZE {
        let msg = match kind {
            BatchKind::Orders => "Batch order limit is 5 orders maximum",
            BatchKind::Modify => "Batch modify limit is 5 orders maximum",
            BatchKind::Cancel => "Batch cancel limit is 5 orders maximum",
        };
        return Err(AsterFuturesHttpError::ValidationError(msg.to_owned()));
    }
    Ok(true)
}

/// Builds the error of an unsuccessful response: the Aster error when the body
/// parsed as an Aster error (`code`, `msg`), otherwise the status and body.
pub fn parse_error_response(status: u16, body: String, aster_error: Option<(i64, String)>) -> (e:
    AsterFuturesHttpError)
    ensures
        match aster_error {
            Some((code, msg)) => e == AsterFuturesHttpError::AsterError { code, message: msg },
            None => e == AsterFuturesHttpError::UnexpectedStatus { status, body },
        },
{
    match aster_error {
        Some((code, msg)) => AsterFuturesHttpError::AsterError { code, message: msg },
        None => AsterFuturesHttpError::UnexpectedStatus { status, body },
    }
}

/// API credentials: a key and its signing secret.
#[derive(Clone, Debug, PartialEq, Eq)]
pub struct ApiCredentials {
    /// The API key.
    pub api_key: String,
    /// The API secret.
    pub api_secret: String,
}

/// The resolved settings of a raw futures HTTP client.
#[derive(Clone, Debug)]
pub struct RawClientSettings {
    /// The base URL.
    pub base_url: String,
    /// The API version path.
    pub api_path: &'static str,
    /// The credentials, if any.
    pub credentials: Option<ApiCredentials>,
    /// The receive window of signed requests.
    pub recv_window: Option<u64>,
    /// The rate-limit configuration.
    pub rate_limits: RateLimitConfig,
    /// The default headers: `User-Agent`, and the API key header with credentials.
    pub default_headers: Vec<(String, String)>,
}

/// The header view of a list of headers.
pub open spec fn headers_view(v: Seq<(String, String)>) -> Seq<(Seq<char>, Seq<char>)> {
    v.map_values(|h: (String, String)| (h.0@, h.1@))
}

/// Resolves the settings of a raw futures HTTP client.
///
/// Credentials must be given as both a key and a secret, or not at all
/// ([`AsterFuturesHttpError::MissingCredentials`] otherwise). The base URL is the
/// override when given, else the product type's URL in the environment.
pub fn resolve_raw_client_settings(
    product_type: AsterProductType,
    environment: crate::enums::AsterEnvironment,
    api_key: Option<String>,
    api_secret: Option<String>,
    base_url_override: Option<String>,
    recv_window: Option<u64>,
    user_agent: &str,
) -> (r: Result<RawClientSettings, AsterFuturesHttpError>)
    ensures
        (api_key is Some) != (api_secret is Some) ==> r == Err::<
            RawClientSettings,
            AsterFuturesHttpError,
        >(AsterFuturesHttpError::MissingCredentials),
        (api_key is Some) == (api_secret is Some) ==> r is Ok && ({
            let s = r->Ok_0;
            &&& s.base_url@ == match base_url_override {
                Some(u) => u@,
                None => http_base_url(product_type, environment),
            }
            &&& s.api_path@ == api_path_of(product_type)
            &&& s.recv_window == recv_window
            &&& s.rate_limits.default_quota == Some(config_default_quota(product_type))
            &&& keyed_view(s.rate_limits.keyed_quotas@) == config_keyed(product_type)
            &&& strings_view(s.rate_limits.order_keys@) == fold_rate_limits(
                futures_rate_limits(product_type),
            ).order_keys
            &&& (s.credentials is Some) == (api_key is Some)
            &&& s.credentials is Some ==> s.credentials->Some_0.api_key == api_key->Some_0
                && s.credentials->Some_0.api_secret == api_secret->Some_0
            &&& headers_view(s.default_headers@) == if api_key is Some {
                seq![("User-Agent"@, user_agent@), ("X-MBX-APIKEY"@, api_key->Some_0@)]
            } else {
                seq![("User-Agent"@, user_agent@)]
            }
        }),
{
    let rate_limits = rate_limit_config(product_type);
    let credentials = match (api_key, api_secret) {
        (Some(key), Some(secret)) => Some(ApiCredentials { api_key: key, api_secret: secret }),
        (None, None) => None,
        _ => return Err(AsterFuturesHttpError::MissingCredentials),
    };
    let base_url = match base_url_override {
        Some(u) => u,
        None => get_http_base_url(product_type, environment).to_owned(),
    };
    let api_path = resolve_api_path(product_type);
    let mut default_headers: Vec<(String, String)> = Vec::new();
    default_headers.push(("User-Agent".to_owned(), user_agent.to_owned()));
    match &credentials {
        Some(c) => {
            default_headers.push((ASTER_API_KEY_HEADER.to_owned(), c.api_key.clone()));
        },
        None => {},
    }
    assert(headers_view(default_headers@) =~= if credentials is Some {
        seq![("User-Agent"@, user_agent@), ("X-MBX-APIKEY"@, credentials->Some_0.api_key@)]
    } else {
        seq![("User-Agent"@, user_agent@)]
    });
    Ok(RawClientSettings { base_url, api_path, credentials, recv_window, rate_limits, default_headers })
}

/// The answer of the mark-price endpoint: one price for a symbol, or a list
/// when no symbol was named.
#[derive(Clone, Debug)]
pub enum MarkPriceResponse<T> {
    /// One mark price.
    Single(T),
    /// Several mark prices.
    Multiple(Vec<T>),
}

impl<T> MarkPriceResponse<T> {
    /// The mark prices of the answer, as a list.
    pub fn into_vec(self) -> (v: Vec<T>)
        ensures
            v@ == match self {
                MarkPriceResponse::Single(p) => seq![p],
                MarkPriceResponse::Multiple(ps) => ps@,
            },
    {
        match self {
            MarkPriceResponse::Single(p) => {
                let mut v = Vec::new();
                v.push(p);
                v
            },
            MarkPriceResponse::Multiple(ps) => ps,
        }
    }
}

} // verus!
