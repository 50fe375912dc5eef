use nautilus_aster::enums::{AsterContractStatus, AsterProductType, AsterTradingStatus};
use nautilus_aster::error::AsterFuturesHttpError;
use nautilus_aster::futures::{
    check_cancel_algo_response, check_cancel_all_response, check_exchange_info_product_type,
    check_futures_product_type, coinm_symbol_statuses, is_algo_order_type,
    coinm_cache_entries, coinm_instruments_update, parse_coinm_instruments,
    parse_usdm_instruments, usdm_cache_entries, usdm_instruments_update, usdm_symbol_statuses,
    CancelAllKind,
};
use nautilus_aster::instrument::{
    AsterFuturesCoinSymbol, AsterFuturesInstrument, AsterFuturesUsdSymbol, SymbolFilter,
};
use nautilus_aster::model::{MarketStatusAction, OrderType};
use nautilus_aster::parse::InstrumentAny;

fn filter(pairs: &[(&str, &str)]) -> SymbolFilter {
    SymbolFilter {
        fields: pairs
            .iter()
            .map(|(k, v)| (k.to_string(), v.to_string()))
            .collect(),
    }
}

fn usd_symbol(name: &str, status: AsterTradingStatus, contract_type: &str) -> AsterFuturesUsdSymbol {
    AsterFuturesUsdSymbol {
        symbol: name.to_string(),
        pair: name.to_string(),
        contract_type: contract_type.to_string(),
        delivery_date: 0,
        onboard_date: 0,
        status,
        maint_margin_percent: "2.5".to_string(),
        required_margin_percent: "5".to_string(),
        base_asset: "BTC".to_string(),
        quote_asset: "USDT".to_string(),
        margin_asset: "USDT".to_string(),
        price_precision: 2,
        quantity_precision: 3,
        base_asset_precision: 8,
        quote_precision: 8,
        underlying_type: None,
        underlying_sub_type: vec![],
        settle_plan: None,
        trigger_protect: None,
        liquidation_fee: None,
        market_take_bound: None,
        order_types: vec![],
        time_in_force: vec![],
        filters: vec![
            filter(&[("filterType", "PRICE_FILTER"), ("tickSize", "0.10")]),
            filter(&[("filterType", "LOT_SIZE"), ("stepSize", "0.001")]),
        ],
    }
}

fn coin_symbol(name: &str, status: Option<AsterContractStatus>) -> AsterFuturesCoinSymbol {
    AsterFuturesCoinSymbol {
        symbol: name.to_string(),
        pair: name.to_string(),
        contract_type: "PERPETUAL".to_string(),
        delivery_date: 0,
        onboard_date: 0,
        contract_status: status,
        contract_size: 10,
        maint_margin_percent: "2.5".to_string(),
        required_margin_percent: "5".to_string(),
        base_asset: "ETH".to_string(),
        quote_asset: "USD".to_string(),
        margin_asset: "ETH".to_string(),
        price_precision: 2,
        quantity_precision: 0,
        base_asset_precision: 8,
        quote_precision: 8,
        equal_qty_precision: None,
        trigger_protect: None,
        liquidation_fee: None,
        market_take_bound: None,
        order_types: vec![],
        time_in_force: vec![],
        filters: vec![
            filter(&[("filterType", "PRICE_FILTER"), ("tickSize", "0.01")]),
            filter(&[("filterType", "LOT_SIZE"), ("stepSize", "1")]),
        ],
    }
}

#[test]
fn test_create_client_rejects_spot_product_type() {
    let result = check_futures_product_type(AsterProductType::Spot);
    assert_eq!(
        result,
        Err(AsterFuturesHttpError::ValidationError(
            "AsterFuturesHttpClient requires UsdM or CoinM product type, was Spot".to_string()
        ))
    );
    assert_eq!(check_futures_product_type(AsterProductType::UsdM), Ok(()));
    assert_eq!(check_futures_product_type(AsterProductType::CoinM), Ok(()));
}

#[test]
fn exchange_info_needs_futures_product_type() {
    assert_eq!(check_exchange_info_product_type(AsterProductType::CoinM), Ok(()));
    assert_eq!(
        check_exchange_info_product_type(AsterProductType::Options),
        Err(AsterFuturesHttpError::ValidationError(
            "Invalid product type for futures".to_string()
        ))
    );
}

#[test]
fn no_order_type_is_algo() {
    for t in [OrderType::Market, OrderType::StopMarket, OrderType::TrailingStopMarket] {
        assert!(!is_algo_order_type(t));
    }
}

#[test]
fn symbol_statuses_follow_exchange_info() {
    let usd = vec![
        usd_symbol("BTCUSDT", AsterTradingStatus::Trading, "PERPETUAL"),
        usd_symbol("ETHUSDT", AsterTradingStatus::Halt, "PERPETUAL"),
    ];
    assert_eq!(
        usdm_symbol_statuses(&usd),
        vec![
            ("BTCUSDT".to_string(), MarketStatusAction::Trading),
            ("ETHUSDT".to_string(), MarketStatusAction::Halt)
        ]
    );
    let coin = vec![
        coin_symbol("BTCUSD_PERP", Some(AsterContractStatus::Trading)),
        coin_symbol("ETHUSD_PERP", None),
    ];
    assert_eq!(
        coinm_symbol_statuses(&coin),
        vec![
            ("BTCUSD_PERP".to_string(), MarketStatusAction::Trading),
            ("ETHUSD_PERP".to_string(), MarketStatusAction::NotAvailableForTrading)
        ]
    );
}

#[test]
fn instruments_skip_symbols_that_do_not_parse() {
    let usd = vec![
        usd_symbol("BTCUSDT", AsterTradingStatus::Trading, "PERPETUAL"),
        usd_symbol("ETHUSDT", AsterTradingStatus::Halt, "PERPETUAL"),
        usd_symbol("BTCUSDT_250328", AsterTradingStatus::Trading, "CURRENT_QUARTER"),
        usd_symbol("SOLUSDT", AsterTradingStatus::Trading, "PERPETUAL"),
    ];
    let parsed = parse_usdm_instruments(&usd, 5);
    let ids: Vec<String> = parsed
        .iter()
        .map(|i| match i {
            InstrumentAny::CryptoPerpetual(p) => p.id.as_string(),
        })
        .collect();
    assert_eq!(ids, vec!["BTCUSDT-PERP.ASTER", "SOLUSDT-PERP.ASTER"]);

    let coin = vec![
        coin_symbol("BTCUSD_PERP", Some(AsterContractStatus::Trading)),
        coin_symbol("ETHUSD_PERP", Some(AsterContractStatus::Settling)),
    ];
    let parsed = parse_coinm_instruments(&coin, 5);
    assert_eq!(parsed.len(), 1);
    match &parsed[0] {
        InstrumentAny::CryptoPerpetual(p) => {
            assert_eq!(p.raw_symbol, "BTCUSD_PERP");
            assert!(p.is_inverse);
            assert_eq!(p.ts_init, 5);
        }
    }
}

#[test]
fn cancel_algo_answers() {
    assert_eq!(check_cancel_algo_response("200", "success"), Ok(()));
    assert_eq!(
        check_cancel_algo_response("-2011", "Unknown order"),
        Err("Cancel algo order failed: code=-2011, msg=Unknown order".to_string())
    );
    assert_eq!(
        check_cancel_algo_response("abc", "x"),
        Err("Cancel algo order failed: code=abc, msg=x".to_string())
    );
}

#[test]
fn cancel_all_answers() {
    assert_eq!(check_cancel_all_response(CancelAllKind::Orders, 200, "ok"), Ok(()));
    assert_eq!(
        check_cancel_all_response(CancelAllKind::Orders, 400, "bad"),
        Err("Cancel all orders failed: bad".to_string())
    );
    assert_eq!(
        check_cancel_all_response(CancelAllKind::AlgoOrders, -1, "nope"),
        Err("Cancel all algo orders failed: nope".to_string())
    );
}

#[test]
fn cancel_algo_code_with_plus_sign_is_success() {
    assert_eq!(check_cancel_algo_response("+200", "ok"), Ok(()));
    assert_eq!(
        check_cancel_algo_response("4294967496", "big"),
        Err("Cancel algo order failed: code=4294967496, msg=big".to_string())
    );
}

#[test]
fn every_symbol_is_cached_parsed_or_not() {
    let usd = vec![
        usd_symbol("BTCUSDT", AsterTradingStatus::Trading, "PERPETUAL"),
        usd_symbol("ETHUSDT", AsterTradingStatus::Halt, "PERPETUAL"),
        usd_symbol("BTCUSDT_250328", AsterTradingStatus::Trading, "CURRENT_QUARTER"),
    ];
    let entries = usdm_cache_entries(usd.clone());
    assert_eq!(entries.len(), 3);
    for (entry, symbol) in entries.iter().zip(usd.iter()) {
        assert_eq!(entry.0, symbol.symbol);
        assert_eq!(entry.1, AsterFuturesInstrument::UsdM(symbol.clone()));
    }

    let update = usdm_instruments_update(usd.clone(), 0);
    assert_eq!(update.instruments.len(), 1);
    assert_eq!(update.cache_entries, entries);
    match &update.instruments[0] {
        InstrumentAny::CryptoPerpetual(p) => {
            assert_eq!(p.raw_symbol, "BTCUSDT");
            assert_eq!(p.ts_init, 0);
        }
    }

    let coin = vec![
        coin_symbol("BTCUSD_PERP", Some(AsterContractStatus::Trading)),
        coin_symbol("ETHUSD_PERP", None),
    ];
    let entries = coinm_cache_entries(coin.clone());
    assert_eq!(entries[1].0, "ETHUSD_PERP");
    assert_eq!(entries[1].1, AsterFuturesInstrument::CoinM(coin[1].clone()));
    let update = coinm_instruments_update(coin, 3);
    assert_eq!(update.instruments.len(), 1);
    assert_eq!(update.cache_entries.len(), 2);
}
