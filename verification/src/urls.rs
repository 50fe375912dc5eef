//! Aster endpoint URLs and URL resolution for a product type and environment.

use vstd::prelude::*;

use crate::enums::{AsterEnvironment, AsterProductType};

verus! {

/// Aster Spot API base URL (mainnet).
pub const ASTER_SPOT_HTTP_URL: &'static str = "https://api.asterdex.com";

/// Aster USD-M Futures API base URL (mainnet).
pub const ASTER_FUTURES_USD_HTTP_URL: &'static str = "https://fapi.asterdex.com";

/// Aster COIN-M Futures API base URL (mainnet).
pub const ASTER_FUTURES_COIN_HTTP_URL: &'static str = "https://dapi.asterdex.com";

/// Aster European Options API base URL (mainnet).
pub const ASTER_OPTIONS_HTTP_URL: &'static str = "https://eapi.asterdex.com";

/// Aster Spot API base URL (testnet).
pub const ASTER_SPOT_TESTNET_HTTP_URL: &'static str = "https://testnet.asterdex.com";

/// Aster USD-M Futures API base URL (testnet).
pub const ASTER_FUTURES_USD_TESTNET_HTTP_URL: &'static str = "https://demo-fapi.asterdex.com";

/// Aster COIN-M Futures API base URL (testnet).
pub const ASTER_FUTURES_COIN_TESTNET_HTTP_URL: &'static str = "https://testnet.asterdex.com";

/// Aster Spot API base URL (demo).
pub const ASTER_SPOT_DEMO_HTTP_URL: &'static str = "https://demo-api.asterdex.com";

/// Aster USD-M Futures API base URL (demo).
pub const ASTER_FUTURES_USD_DEMO_HTTP_URL: &'static str = "https://demo-fapi.asterdex.com";

/// Aster COIN-M Futures API base URL (demo, same as COIN-M testnet).
pub const ASTER_FUTURES_COIN_DEMO_HTTP_URL: &'static str = "https://testnet.asterdex.com";

/// Aster Spot WebSocket base URL (mainnet).
pub const ASTER_SPOT_WS_URL: &'static str = "wss://stream.asterdex.com:9443/ws";

/// Aster USD-M Futures WebSocket base URL (mainnet).
pub const ASTER_FUTURES_USD_WS_URL: &'static str = "wss://fstream.asterdex.com/ws";

/// Aster COIN-M Futures WebSocket base URL (mainnet).
pub const ASTER_FUTURES_COIN_WS_URL: &'static str = "wss://dstream.asterdex.com/ws";

/// Aster European Options WebSocket base URL (mainnet).
pub const ASTER_OPTIONS_WS_URL: &'static str = "wss://nbstream.asterdex.com/eoptions";

/// Aster Spot WebSocket base URL (testnet).
pub const ASTER_SPOT_TESTNET_WS_URL: &'static str = "wss://stream.testnet.asterdex.com/ws";

/// Aster Spot WebSocket base URL (demo).
pub const ASTER_SPOT_DEMO_WS_URL: &'static str = "wss://demo-stream.asterdex.com/ws";

/// Aster USD-M Futures WebSocket base URL (testnet).
pub const ASTER_FUTURES_USD_TESTNET_WS_URL: &'static str = "wss://fstream-testnet.asterdex.com/ws";

/// Aster COIN-M Futures WebSocket base URL (testnet).
pub const ASTER_FUTURES_COIN_TESTNET_WS_URL: &'static str = "wss://dstream-testnet.asterdex.com/ws";

/// The HTTP base URL of a product type in an environment.
pub open spec fn http_base_url(p: AsterProductType, e: AsterEnvironment) -> Seq<char> {
    match (p, e) {
        (AsterProductType::Spot, AsterEnvironment::Mainnet)
        | (AsterProductType::Margin, AsterEnvironment::Mainnet) => "https://api.asterdex.com"@,
        (AsterProductType::UsdM, AsterEnvironment::Mainnet) => "https://fapi.asterdex.com"@,
        (AsterProductType::CoinM, AsterEnvironment::Mainnet) => "https://dapi.asterdex.com"@,
        (AsterProductType::Spot, AsterEnvironment::Testnet)
        | (AsterProductType::Margin, AsterEnvironment::Testnet) => "https://testnet.asterdex.com"@,
        (AsterProductType::UsdM, AsterEnvironment::Testnet) => "https://demo-fapi.asterdex.com"@,
        (AsterProductType::CoinM, AsterEnvironment::Testnet) => "https://testnet.asterdex.com"@,
        (AsterProductType::Spot, AsterEnvironment::Demo)
        | (AsterProductType::Margin, AsterEnvironment::Demo) => "https://demo-api.asterdex.com"@,
        (AsterProductType::UsdM, AsterEnvironment::Demo) => "https://demo-fapi.asterdex.com"@,
        (AsterProductType::CoinM, AsterEnvironment::Demo) => "https://testnet.asterdex.com"@,
        (AsterProductType::Options, _) => "https://eapi.asterdex.com"@,
    }
}

/// The WebSocket base URL of a product type in an environment; futures demo
/// uses the futures testnet streams.
pub open spec fn ws_base_url(p: AsterProductType, e: AsterEnvironment) -> Seq<char> {
    match (p, e) {
        (AsterProductType::Spot, AsterEnvironment::Mainnet)
        | (AsterProductType::Margin, AsterEnvironment::Mainnet) => "wss://stream.asterdex.com:9443/ws"@,
        (AsterProductType::UsdM, AsterEnvironment::Mainnet) => "wss://fstream.asterdex.com/ws"@,
        (AsterProductType::CoinM, AsterEnvironment::Mainnet) => "wss://dstream.asterdex.com/ws"@,
        (AsterProductType::Spot, AsterEnvironment::Testnet)
        | (AsterProductType::Margin, AsterEnvironment::Testnet) => "wss://stream.testnet.asterdex.com/ws"@,
        (AsterProductType::UsdM, AsterEnvironment::Testnet)
        | (AsterProductType::UsdM, AsterEnvironment::Demo) => "wss://fstream-testnet.asterdex.com/ws"@,
        (AsterProductType::CoinM, AsterEnvironment::Testnet)
        | (AsterProductType::CoinM, AsterEnvironment::Demo) => "wss://dstream-testnet.asterdex.com/ws"@,
        (AsterProductType::Spot, AsterEnvironment::Demo)
        | (AsterProductType::Margin, AsterEnvironment::Demo) => "wss://demo-stream.asterdex.com/ws"@,
        (AsterProductType::Options, _) => "wss://nbstream.asterdex.com/eoptions"@,
    }
}

/// Returns the HTTP base URL for the given product type and environment.
pub fn get_http_base_url(product_type: AsterProductType, environment: AsterEnvironment) -> (url:
    &'static str)
    ensures
        url@ == http_base_url(product_type, environment),
{
    match (product_type, environment) {
        (AsterProductType::Spot, AsterEnvironment::Mainnet)
        | (AsterProductType::Margin, AsterEnvironment::Mainnet) => ASTER_SPOT_HTTP_URL,
        (AsterProductType::UsdM, AsterEnvironment::Mainnet) => ASTER_FUTURES_USD_HTTP_URL,
        (AsterProductType::CoinM, AsterEnvironment::Mainnet) => ASTER_FUTURES_COIN_HTTP_URL,
        (AsterProductType::Options, AsterEnvironment::Mainnet) => ASTER_OPTIONS_HTTP_URL,
        (AsterProductType::Spot, AsterEnvironment::Testnet)
        | (AsterProductType::Margin, AsterEnvironment::Testnet) => ASTER_SPOT_TESTNET_HTTP_URL,
        (AsterProductType::UsdM, AsterEnvironment::Testnet) => ASTER_FUTURES_USD_TESTNET_HTTP_URL,
        (AsterProductType::CoinM, AsterEnvironment::Testnet) => ASTER_FUTURES_COIN_TESTNET_HTTP_URL,
        (AsterProductType::Options, AsterEnvironment::Testnet) => ASTER_OPTIONS_HTTP_URL,
        (AsterProductType::Spot, AsterEnvironment::Demo)
        | (AsterProductType::Margin, AsterEnvironment::Demo) => ASTER_SPOT_DEMO_HTTP_URL,
        (AsterProductType::UsdM, AsterEnvironment::Demo) => ASTER_FUTURES_USD_DEMO_HTTP_URL,
        (AsterProductType::CoinM, AsterEnvironment::Demo) => ASTER_FUTURES_COIN_DEMO_HTTP_URL,
        (AsterProductType::Options, AsterEnvironment::Demo) => ASTER_OPTIONS_HTTP_URL,
    }
}

/// Returns the WebSocket base URL for the given product type and environment.
pub fn get_ws_base_url(product_type: AsterProductType, environment: AsterEnvironment) -> (url:
    &'static str)
    ensures
        url@ == ws_base_url(product_type, environment),
{
    match (product_type, environment) {
        (AsterProductType::Spot, AsterEnvironment::Mainnet)
        | (AsterProductType::Margin, AsterEnvironment::Mainnet) => ASTER_SPOT_WS_URL,
        (AsterProductType::UsdM, AsterEnvironment::Mainnet) => ASTER_FUTURES_USD_WS_URL,
        (AsterProductType::CoinM, AsterEnvironment::Mainnet) => ASTER_FUTURES_COIN_WS_URL,
        (AsterProductType::Options, AsterEnvironment::Mainnet) => ASTER_OPTIONS_WS_URL,
        (AsterProductType::Spot, AsterEnvironment::Testnet)
        | (AsterProductType::Margin, AsterEnvironment::Testnet) => ASTER_SPOT_TESTNET_WS_URL,
        (AsterProductType::UsdM, AsterEnvironment::Testnet) => ASTER_FUTURES_USD_TESTNET_WS_URL,
        (AsterProductType::CoinM, AsterEnvironment::Testnet) => ASTER_FUTURES_COIN_TESTNET_WS_URL,
        (AsterProductType::Options, AsterEnvironment::Testnet) => ASTER_OPTIONS_WS_URL,
        (AsterProductType::Spot, AsterEnvironment::Demo)
        | (AsterProductType::Margin, AsterEnvironment::Demo) => ASTER_SPOT_DEMO_WS_URL,
        (AsterProductType::UsdM, AsterEnvironment::Demo) => ASTER_FUTURES_USD_TESTNET_WS_URL,
        (AsterProductType::CoinM, AsterEnvironment::Demo) => ASTER_FUTURES_COIN_TESTNET_WS_URL,
        (AsterProductType::Options, AsterEnvironment::Demo) => ASTER_OPTIONS_WS_URL,
    }
}

/// Spot and Margin share every endpoint, options use one endpoint in every
/// environment, and every sandbox environment resolves to a URL other than mainnet's.
pub proof fn url_resolution_laws(e: AsterEnvironment, p: AsterProductType)
    ensures
        http_base_url(AsterProductType::Spot, e) == http_base_url(AsterProductType::Margin, e),
        ws_base_url(AsterProductType::Spot, e) == ws_base_url(AsterProductType::Margin, e),
        http_base_url(AsterProductType::Options, e) == http_base_url(
            AsterProductType::Options,
            AsterEnvironment::Mainnet,
        ),
        ws_base_url(AsterProductType::Options, e) == ws_base_url(
            AsterProductType::Options,
            AsterEnvironment::Mainnet,
        ),
        p != AsterProductType::Options && e != AsterEnvironment::Mainnet ==> http_base_url(p, e)
            != http_base_url(p, AsterEnvironment::Mainnet),
{
    reveal_strlit("https://api.asterdex.com");
    reveal_strlit("https://testnet.asterdex.com");
    reveal_strlit("https://demo-api.asterdex.com");
    reveal_strlit("https://fapi.asterdex.com");
    reveal_strlit("https://demo-fapi.asterdex.com");
    reveal_strlit("https://dapi.asterdex.com");
    assert("https://api.asterdex.com"@.len() != "https://testnet.asterdex.com"@.len());
    assert("https://api.asterdex.com"@.len() != "https://demo-api.asterdex.com"@.len());
    assert("https://fapi.asterdex.com"@.len() != "https://demo-fapi.asterdex.com"@.len());
    assert("https://dapi.asterdex.com"@.len() != "https://testnet.asterdex.com"@.len());
}

} // verus!
