use nautilus_aster::decimal::{parse_decimal, DecimalValue};
use nautilus_aster::enums::{AsterContractStatus, AsterKlineInterval, AsterTradingStatus};
use nautilus_aster::instrument::{
    AsterFuturesCoinSymbol, AsterFuturesInstrument, AsterFuturesUsdSymbol, SymbolFilter,
};
use nautilus_aster::model::{BarAggregation, BarSpecification, PriceType};
use nautilus_aster::parse::{
    bar_spec_to_aster_interval, get_currency, get_filter, parse_coinm_instrument,
    parse_filter_price, parse_filter_quantity, parse_filter_string, parse_usdm_instrument,
    BarIntervalError, FilterFieldError, InstrumentAny, InstrumentErrorKind,
};

fn filter(pairs: &[(&str, &str)]) -> SymbolFilter {
    SymbolFilter {
        fields: pairs
            .iter()
            .map(|(k, v)| (k.to_string(), v.to_string()))
            .collect(),
    }
}

fn sample_usdm_symbol() -> AsterFuturesUsdSymbol {
    AsterFuturesUsdSymbol {
        symbol: "BTCUSDT".to_string(),
        pair: "BTCUSDT".to_string(),
        contract_type: "PERPETUAL".to_string(),
        delivery_date: 4133404800000,
        onboard_date: 1569398400000,
        status: AsterTradingStatus::Trading,
        maint_margin_percent: "2.5000".to_string(),
        required_margin_percent: "5.0000".to_string(),
        base_asset: "BTC".to_string(),
        quote_asset: "USDT".to_string(),
        margin_asset: "USDT".to_string(),
        price_precision: 2,
        quantity_precision: 3,
        base_asset_precision: 8,
        quote_precision: 8,
        underlying_type: Some("COIN".to_string()),
        underlying_sub_type: vec!["PoW".to_string()],
        settle_plan: None,
        trigger_protect: Some("0.0500".to_string()),
        liquidation_fee: Some("0.012500".to_string()),
        market_take_bound: Some("0.05".to_string()),
        order_types: vec!["LIMIT".to_string(), "MARKET".to_string()],
        time_in_force: vec!["GTC".to_string(), "IOC".to_string()],
        filters: vec![
            filter(&[
                ("filterType", "PRICE_FILTER"),
                ("tickSize", "0.10"),
                ("maxPrice", "4529764"),
                ("minPrice", "556.80"),
            ]),
            filter(&[
                ("filterType", "LOT_SIZE"),
                ("stepSize", "0.001"),
                ("maxQty", "1000"),
                ("minQty", "0.001"),
            ]),
        ],
    }
}

fn sample_coinm_symbol() -> AsterFuturesCoinSymbol {
    AsterFuturesCoinSymbol {
        symbol: "BTCUSD_PERP".to_string(),
        pair: "BTCUSD".to_string(),
        contract_type: "PERPETUAL".to_string(),
        delivery_date: 4_133_404_800_000,
        onboard_date: 1_569_398_400_000,
        contract_status: Some(AsterContractStatus::Trading),
        contract_size: 100,
        maint_margin_percent: "2.5000".to_string(),
        required_margin_percent: "5.0000".to_string(),
        base_asset: "BTC".to_string(),
        quote_asset: "USD".to_string(),
        margin_asset: "BTC".to_string(),
        price_precision: 1,
        quantity_precision: 0,
        base_asset_precision: 8,
        quote_precision: 8,
        equal_qty_precision: None,
        trigger_protect: Some("0.0500".to_string()),
        liquidation_fee: Some("0.012500".to_string()),
        market_take_bound: Some("0.05".to_string()),
        order_types: vec!["LIMIT".to_string(), "MARKET".to_string()],
        time_in_force: vec!["GTC".to_string(), "IOC".to_string()],
        filters: vec![
            filter(&[
                ("filterType", "PRICE_FILTER"),
                ("tickSize", "0.10"),
                ("maxPrice", "1000000"),
                ("minPrice", "0.10"),
            ]),
            filter(&[
                ("filterType", "LOT_SIZE"),
                ("stepSize", "1"),
                ("maxQty", "1000"),
                ("minQty", "1"),
            ]),
        ],
    }
}

const TS: u64 = 1_700_000_000_000_000_000;

#[test]
fn test_parse_usdm_perpetual() {
    let symbol = sample_usdm_symbol();
    let result = parse_usdm_instrument(&symbol, TS, TS);
    assert!(result.is_ok(), "Failed: {:?}", result.err());
    match result.unwrap() {
        InstrumentAny::CryptoPerpetual(perp) => {
            assert_eq!(perp.id.as_string(), "BTCUSDT-PERP.ASTER");
            assert_eq!(perp.raw_symbol, "BTCUSDT");
            assert_eq!(perp.base_currency.code, "BTC");
            assert_eq!(perp.quote_currency.code, "USDT");
            assert_eq!(perp.settlement_currency.code, "USDT");
            assert!(!perp.is_inverse);
            assert_eq!(perp.price_increment, parse_decimal("0.10").unwrap());
            assert_eq!(perp.size_increment, parse_decimal("0.001").unwrap());
            assert_eq!(perp.price_precision, 2);
            assert_eq!(perp.size_precision, 3);
            assert_eq!(perp.max_price, parse_decimal("4529764"));
            assert_eq!(perp.min_price, parse_decimal("556.80"));
            assert_eq!(perp.max_quantity, parse_decimal("1000"));
            assert_eq!(perp.min_quantity, parse_decimal("0.001"));
            assert_eq!(perp.multiplier, None);
            assert_eq!(perp.ts_event, TS);
            assert_eq!(perp.ts_init, TS);
        }
    }
}

#[test]
fn test_parse_non_perpetual_fails() {
    let mut symbol = sample_usdm_symbol();
    symbol.contract_type = "CURRENT_QUARTER".to_string();
    let err = parse_usdm_instrument(&symbol, TS, TS).unwrap_err();
    assert!(err.message().contains("Unsupported contract type"));
    assert_eq!(err.kind, InstrumentErrorKind::UnsupportedContractType);
    assert_eq!(err.symbol, "BTCUSDT");
    assert_eq!(
        err.message(),
        "Unsupported contract type 'CURRENT_QUARTER' for symbol 'BTCUSDT', expected 'PERPETUAL'"
    );
}

#[test]
fn test_parse_missing_price_filter_fails() {
    let mut symbol = sample_usdm_symbol();
    symbol.filters = vec![filter(&[
        ("filterType", "LOT_SIZE"),
        ("stepSize", "0.001"),
        ("maxQty", "1000"),
        ("minQty", "0.001"),
    ])];
    let err = parse_usdm_instrument(&symbol, TS, TS).unwrap_err();
    assert!(err.message().contains("Missing PRICE_FILTER"));
    assert_eq!(err.kind, InstrumentErrorKind::MissingPriceFilter);
}

#[test]
fn test_parse_coinm_perpetual() {
    let symbol = sample_coinm_symbol();
    match parse_coinm_instrument(&symbol, TS, TS).unwrap() {
        InstrumentAny::CryptoPerpetual(perp) => {
            assert_eq!(perp.id.as_string(), "BTCUSD_PERP-PERP.ASTER");
            assert_eq!(perp.raw_symbol, "BTCUSD_PERP");
            assert_eq!(perp.base_currency.code, "BTC");
            assert_eq!(perp.quote_currency.code, "USD");
            assert_eq!(perp.settlement_currency.code, "BTC");
            assert!(perp.is_inverse);
            assert_eq!(perp.price_increment, parse_decimal("0.10").unwrap());
            assert_eq!(perp.size_increment, parse_decimal("1").unwrap());
            assert_eq!(
                perp.multiplier,
                Some(DecimalValue { negative: false, mantissa: 100, precision: 0 })
            );
        }
    }
}

#[test]
fn parse_errors_for_each_kind() {
    let mut halted = sample_usdm_symbol();
    halted.status = AsterTradingStatus::Halt;
    assert_eq!(
        parse_usdm_instrument(&halted, TS, TS).unwrap_err().kind,
        InstrumentErrorKind::NotTrading
    );

    let mut no_status = sample_coinm_symbol();
    no_status.contract_status = None;
    assert_eq!(
        parse_coinm_instrument(&no_status, TS, TS).unwrap_err().kind,
        InstrumentErrorKind::NotTrading
    );

    let mut zero_tick = sample_usdm_symbol();
    zero_tick.filters[0] = filter(&[("filterType", "PRICE_FILTER"), ("tickSize", "0.00")]);
    assert_eq!(
        parse_usdm_instrument(&zero_tick, TS, TS).unwrap_err().kind,
        InstrumentErrorKind::ZeroTickSize
    );

    let mut bad_tick = sample_usdm_symbol();
    bad_tick.filters[0] = filter(&[("filterType", "PRICE_FILTER"), ("tickSize", "abc")]);
    assert_eq!(
        parse_usdm_instrument(&bad_tick, TS, TS).unwrap_err().kind,
        InstrumentErrorKind::InvalidTickSize
    );

    let mut no_tick = sample_usdm_symbol();
    no_tick.filters[0] = filter(&[("filterType", "PRICE_FILTER")]);
    assert_eq!(
        parse_usdm_instrument(&no_tick, TS, TS).unwrap_err().kind,
        InstrumentErrorKind::MissingTickSize
    );

    let mut no_lot = sample_usdm_symbol();
    no_lot.filters.truncate(1);
    assert_eq!(
        parse_usdm_instrument(&no_lot, TS, TS).unwrap_err().kind,
        InstrumentErrorKind::MissingLotSize
    );

    let mut no_step = sample_usdm_symbol();
    no_step.filters[1] = filter(&[("filterType", "LOT_SIZE")]);
    assert_eq!(
        parse_usdm_instrument(&no_step, TS, TS).unwrap_err().kind,
        InstrumentErrorKind::MissingStepSize
    );

    let mut neg_step = sample_usdm_symbol();
    neg_step.filters[1] = filter(&[("filterType", "LOT_SIZE"), ("stepSize", "-1")]);
    assert_eq!(
        parse_usdm_instrument(&neg_step, TS, TS).unwrap_err().kind,
        InstrumentErrorKind::InvalidStepSize
    );
}

#[test]
fn filter_helpers() {
    let symbol = sample_usdm_symbol();
    let pf = get_filter(&symbol.filters, "PRICE_FILTER").unwrap();
    assert_eq!(parse_filter_string(pf, "tickSize"), Ok("0.10".to_string()));
    assert_eq!(parse_filter_string(pf, "nope"), Err(FilterFieldError::Missing));
    assert_eq!(
        parse_filter_price(pf, "minPrice"),
        Ok(DecimalValue { negative: false, mantissa: 55680, precision: 2 })
    );
    assert!(get_filter(&symbol.filters, "MIN_NOTIONAL").is_none());
    let neg = filter(&[("q", "-0.5")]);
    assert_eq!(parse_filter_price(&neg, "q"), parse_decimal("-0.5").ok_or(FilterFieldError::Invalid));
    assert_eq!(parse_filter_quantity(&neg, "q"), Err(FilterFieldError::Invalid));
    assert_eq!(get_currency("USDT").code, "USDT");
}

#[test]
fn instrument_cache_entry_accessors() {
    let usdm = AsterFuturesInstrument::UsdM(sample_usdm_symbol());
    assert_eq!(usdm.symbol(), "BTCUSDT");
    assert_eq!(usdm.price_precision(), 2);
    assert_eq!(usdm.quantity_precision(), 3);
    assert_eq!(usdm.id().as_string(), "BTCUSDT-PERP.ASTER");
    assert_eq!(usdm.quote_currency().code, "USDT");
    let coinm = AsterFuturesInstrument::CoinM(sample_coinm_symbol());
    assert_eq!(coinm.id().as_string(), "BTCUSD_PERP.ASTER");
    assert_eq!(coinm.quote_currency().code, "USD");
}

fn make_bar_spec(step: usize, aggregation: BarAggregation) -> BarSpecification {
    BarSpecification {
        step,
        aggregation,
        price_type: PriceType::Last,
    }
}

#[test]
fn test_bar_spec_to_aster_interval() {
    let cases = [
        (1, BarAggregation::Minute, AsterKlineInterval::Minute1),
        (3, BarAggregation::Minute, AsterKlineInterval::Minute3),
        (5, BarAggregation::Minute, AsterKlineInterval::Minute5),
        (15, BarAggregation::Minute, AsterKlineInterval::Minute15),
        (30, BarAggregation::Minute, AsterKlineInterval::Minute30),
        (1, BarAggregation::Hour, AsterKlineInterval::Hour1),
        (2, BarAggregation::Hour, AsterKlineInterval::Hour2),
        (4, BarAggregation::Hour, AsterKlineInterval::Hour4),
        (6, BarAggregation::Hour, AsterKlineInterval::Hour6),
        (8, BarAggregation::Hour, AsterKlineInterval::Hour8),
        (12, BarAggregation::Hour, AsterKlineInterval::Hour12),
        (1, BarAggregation::Day, AsterKlineInterval::Day1),
        (3, BarAggregation::Day, AsterKlineInterval::Day3),
        (1, BarAggregation::Week, AsterKlineInterval::Week1),
        (1, BarAggregation::Month, AsterKlineInterval::Month1),
    ];
    for (step, aggregation, expected) in cases {
        let result = bar_spec_to_aster_interval(make_bar_spec(step, aggregation)).unwrap();
        assert_eq!(result, expected);
    }
}

#[test]
fn test_unsupported_second_interval() {
    let result = bar_spec_to_aster_interval(make_bar_spec(1, BarAggregation::Second));
    assert!(result.unwrap_err().message().contains("does not support second-level"));
    assert_eq!(result, Err(BarIntervalError::SecondsUnsupported));
}

#[test]
fn test_unsupported_minute_interval() {
    let result = bar_spec_to_aster_interval(make_bar_spec(7, BarAggregation::Minute));
    assert!(result.unwrap_err().message().contains("Unsupported minute interval"));
    assert_eq!(result.unwrap_err().message(), "Unsupported minute interval: 7m");
    assert_eq!(result, Err(BarIntervalError::UnsupportedStep(BarAggregation::Minute, 7)));
}

#[test]
fn test_unsupported_aggregation() {
    let result = bar_spec_to_aster_interval(make_bar_spec(100, BarAggregation::Tick));
    assert!(result.unwrap_err().message().contains("Unsupported bar aggregation"));
    assert_eq!(result.unwrap_err().message(), "Unsupported bar aggregation for Aster: Tick");
    assert_eq!(result, Err(BarIntervalError::UnsupportedAggregation(BarAggregation::Tick)));
}

#[test]
fn instrument_error_messages() {
    let mut halted = sample_usdm_symbol();
    halted.status = AsterTradingStatus::Halt;
    assert_eq!(
        parse_usdm_instrument(&halted, TS, TS).unwrap_err().message(),
        "Symbol 'BTCUSDT' is not trading (status: Halt)"
    );
    let mut settling = sample_coinm_symbol();
    settling.contract_status = Some(AsterContractStatus::Settling);
    assert_eq!(
        parse_coinm_instrument(&settling, TS, TS).unwrap_err().message(),
        "Symbol 'BTCUSD_PERP' is not trading (status: Some(Settling))"
    );
    settling.contract_status = None;
    assert_eq!(
        parse_coinm_instrument(&settling, TS, TS).unwrap_err().message(),
        "Symbol 'BTCUSD_PERP' is not trading (status: None)"
    );
    let mut zero_tick = sample_usdm_symbol();
    zero_tick.filters[0] = filter(&[("filterType", "PRICE_FILTER"), ("tickSize", "0.00")]);
    assert_eq!(
        parse_usdm_instrument(&zero_tick, TS, TS).unwrap_err().message(),
        "Invalid tickSize of 0 for symbol 'BTCUSDT', cannot create instrument"
    );
    let mut bad_tick = sample_usdm_symbol();
    bad_tick.filters[0] = filter(&[("filterType", "PRICE_FILTER"), ("tickSize", "abc")]);
    assert_eq!(
        parse_usdm_instrument(&bad_tick, TS, TS).unwrap_err().message(),
        "Failed to parse tickSize='abc'"
    );
    let mut no_tick = sample_usdm_symbol();
    no_tick.filters[0] = filter(&[("filterType", "PRICE_FILTER")]);
    assert_eq!(
        parse_usdm_instrument(&no_tick, TS, TS).unwrap_err().message(),
        "Missing field 'tickSize' in filter"
    );
    let mut no_lot = sample_usdm_symbol();
    no_lot.filters.truncate(1);
    assert_eq!(
        parse_usdm_instrument(&no_lot, TS, TS).unwrap_err().message(),
        "Missing LOT_SIZE in symbol filters"
    );
    let mut no_step = sample_usdm_symbol();
    no_step.filters[1] = filter(&[("filterType", "LOT_SIZE")]);
    assert_eq!(
        parse_usdm_instrument(&no_step, TS, TS).unwrap_err().message(),
        "Missing field 'stepSize' in filter"
    );
    let mut neg_step = sample_usdm_symbol();
    neg_step.filters[1] = filter(&[("filterType", "LOT_SIZE"), ("stepSize", "-1")]);
    assert_eq!(
        parse_usdm_instrument(&neg_step, TS, TS).unwrap_err().message(),
        "Failed to parse stepSize='-1'"
    );
    assert_eq!(
        BarIntervalError::UnsupportedStep(BarAggregation::Hour, 5).message(),
        "Unsupported hour interval: 5h"
    );
    assert_eq!(
        BarIntervalError::UnsupportedStep(BarAggregation::Month, 2).message(),
        "Unsupported month interval: 2M"
    );
}
