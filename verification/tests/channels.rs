use nautilus_aster::channels::{extract_hl_symbol, parse_hl_channel, WALLET_PRIVATE_CHANNELS};
use nautilus_aster::model::InstrumentId;

#[test]
fn wallet_private_constant_has_four() {
    assert_eq!(WALLET_PRIVATE_CHANNELS.len(), 4);
}

#[test]
fn parses_l2book() {
    assert_eq!(parse_hl_channel("l2Book@BTC"), ("l2Book", Some("BTC")));
}

#[test]
fn parses_candle_strips_interval() {
    assert_eq!(parse_hl_channel("candle@SOL/4h"), ("candle", Some("SOL")));
}

#[test]
fn parses_wallet_private_no_at() {
    for c in &WALLET_PRIVATE_CHANNELS {
        assert_eq!(parse_hl_channel(c), (*c, None));
    }
}

#[test]
fn parses_double_at_splits_on_first() {
    assert_eq!(parse_hl_channel("trades@@ETH"), ("trades", Some("@ETH")));
}

#[test]
fn parses_empty_string() {
    assert_eq!(parse_hl_channel(""), ("", None));
}

#[test]
fn extract_hl_symbol_strips_suffix() {
    let id = InstrumentId::parse("BTC-USD-PERP.HYPERLIQUID").unwrap();
    assert_eq!(extract_hl_symbol(&id), "BTC");
}

#[test]
fn extract_hl_symbol_handles_spot_at_prefix() {
    let id = InstrumentId::parse("@107-USD-SPOT.HYPERLIQUID").unwrap();
    assert_eq!(extract_hl_symbol(&id), "@107");
}

#[test]
fn wallet_private_channels_are_the_known_four() {
    assert_eq!(
        WALLET_PRIVATE_CHANNELS,
        ["userFills", "userFundings", "webData2", "orderUpdates"]
    );
}

#[test]
fn channel_split_reassembles_type_and_instrument() {
    let channel = "candle@ETH/15m";
    let (kind, inst) = parse_hl_channel(channel);
    let inst = inst.unwrap();
    assert!(!kind.contains('@'));
    assert!(!inst.contains('/'));
    assert!(channel.starts_with(&format!("{kind}@{inst}")));
}

#[test]
fn channel_without_at_keeps_interval_text() {
    assert_eq!(parse_hl_channel("allMids/x"), ("allMids/x", None));
}

#[test]
fn extract_hl_symbol_without_dash_keeps_symbol() {
    let id = InstrumentId::new("ETH".to_string(), "HYPERLIQUID".to_string());
    assert_eq!(extract_hl_symbol(&id), "ETH");
}
