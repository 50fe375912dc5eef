use nautilus_aster::decimal::{parse_decimal, DecimalValue};
use nautilus_aster::enums::{
    AsterAlgoType, AsterConversionError, AsterFuturesOrderType, AsterPriceMatch, AsterProductType, AsterSide,
    AsterTimeInForce, AsterTradingStatus,
};
use nautilus_aster::instrument::{AsterFuturesInstrument, AsterFuturesUsdSymbol};
use nautilus_aster::model::{
    AggregationSource, BarAggregation, BarSpecification, InstrumentId, OrderSide, OrderType,
    PriceType, TimeInForce,
};
use nautilus_aster::orders::{
    aggressor_side, build_algo_order, build_algo_order_query, build_bars_query,
    build_fill_reports_query, build_modify_order, build_new_order, build_order_status_query,
    build_open_orders_params, build_order_id_params, build_symbol_params, build_trades_query,
    get_price_precision, get_size_precision, parse_venue_order_id, plan_order_status_reports,
    report_instrument_id, report_size_precision, AggressorSide, BarType, OrderRequestError,
    OrderStatusQuery,
};

fn cached() -> AsterFuturesInstrument {
    AsterFuturesInstrument::UsdM(AsterFuturesUsdSymbol {
        symbol: "BTCUSDT".to_string(),
        pair: "BTCUSDT".to_string(),
        contract_type: "PERPETUAL".to_string(),
        delivery_date: 0,
        onboard_date: 0,
        status: AsterTradingStatus::Trading,
        maint_margin_percent: "2.5".to_string(),
        required_margin_percent: "5".to_string(),
        base_asset: "BTC".to_string(),
        quote_asset: "USDT".to_string(),
        margin_asset: "USDT".to_string(),
        price_precision: 2,
        quantity_precision: 3,
        base_asset_precision: 8,
        quote_precision: 8,
        underlying_type: None,
        underlying_sub_type: vec![],
        settle_plan: None,
        trigger_protect: None,
        liquidation_fee: None,
        market_take_bound: None,
        order_types: vec![],
        time_in_force: vec![],
        filters: vec![],
    })
}

fn btc() -> InstrumentId {
    InstrumentId::parse("BTCUSDT-PERP.ASTER").unwrap()
}

fn dec(s: &str) -> DecimalValue {
    parse_decimal(s).unwrap()
}

#[test]
fn precisions_from_cache() {
    let c = cached();
    assert_eq!(get_size_precision(Some(&c), &"BTCUSDT".to_string()), Ok(3));
    assert_eq!(get_price_precision(Some(&c), &"BTCUSDT".to_string()), Ok(2));
    assert_eq!(
        get_size_precision(None, &"ETHUSDT".to_string()),
        Err(OrderRequestError::InstrumentNotCached {
            symbol: "ETHUSDT".to_string()
        })
    );
    assert_eq!(report_size_precision(None), 8);
    assert_eq!(report_size_precision(Some(&c)), 3);
}

#[test]
fn new_limit_order_params() {
    let c = cached();
    let req = build_new_order(
        &btc(),
        Some(&c),
        "O-1".to_string(),
        OrderSide::Buy,
        OrderType::Limit,
        dec("0.010"),
        TimeInForce::Gtc,
        Some(dec("50000.5")),
        None,
        true,
        false,
        None,
        None,
        None,
        None,
        None,
    )
    .unwrap();
    assert_eq!(req.size_precision, 3);
    let p = req.params;
    assert_eq!(p.symbol, "BTCUSDT");
    assert_eq!(p.side, AsterSide::Buy);
    assert_eq!(p.order_type, AsterFuturesOrderType::Limit);
    assert_eq!(p.time_in_force, Some(AsterTimeInForce::Gtc));
    assert_eq!(p.quantity.as_deref(), Some("0.010"));
    assert_eq!(p.price.as_deref(), Some("50000.5"));
    assert_eq!(p.new_client_order_id.as_deref(), Some("O-1"));
    assert_eq!(p.reduce_only, Some(true));
    assert_eq!(p.stop_price, None);
}

#[test]
fn new_order_post_only_and_price_match() {
    let c = cached();
    let req = build_new_order(
        &btc(),
        Some(&c),
        "O-2".to_string(),
        OrderSide::Sell,
        OrderType::Limit,
        dec("1"),
        TimeInForce::Ioc,
        Some(dec("10")),
        None,
        false,
        true,
        None,
        Some(AsterPriceMatch::Queue),
        None,
        None,
        None,
    )
    .unwrap();
    assert_eq!(req.params.time_in_force, Some(AsterTimeInForce::Gtx));
    assert_eq!(req.params.price, None);
    assert_eq!(req.params.price_match, Some(AsterPriceMatch::Queue));
    assert_eq!(req.params.reduce_only, None);
}

#[test]
fn new_order_errors() {
    let c = cached();
    let stop_without_trigger = build_new_order(
        &btc(),
        Some(&c),
        "O-3".to_string(),
        OrderSide::Buy,
        OrderType::StopMarket,
        dec("1"),
        TimeInForce::Gtc,
        None,
        None,
        false,
        false,
        None,
        None,
        None,
        None,
        None,
    );
    assert_eq!(
        stop_without_trigger.unwrap_err(),
        OrderRequestError::MissingTriggerPrice(OrderType::StopMarket)
    );
    let no_side = build_new_order(
        &btc(),
        Some(&c),
        "O-4".to_string(),
        OrderSide::NoOrderSide,
        OrderType::Market,
        dec("1"),
        TimeInForce::Gtc,
        None,
        None,
        false,
        false,
        None,
        None,
        None,
        None,
        None,
    );
    assert_eq!(
        no_side.unwrap_err(),
        OrderRequestError::Conversion(AsterConversionError::UnsupportedOrderSide(
            OrderSide::NoOrderSide
        ))
    );
    let not_cached = build_new_order(
        &btc(),
        None,
        "O-5".to_string(),
        OrderSide::Buy,
        OrderType::Market,
        dec("1"),
        TimeInForce::Gtc,
        None,
        None,
        false,
        false,
        None,
        None,
        None,
        None,
        None,
    );
    assert_eq!(
        not_cached.unwrap_err(),
        OrderRequestError::InstrumentNotCached {
            symbol: "BTCUSDT".to_string()
        }
    );
}

#[test]
fn venue_order_ids() {
    assert_eq!(parse_venue_order_id(&None), Ok(None));
    assert_eq!(parse_venue_order_id(&Some("12345".to_string())), Ok(Some(12345)));
    assert_eq!(
        parse_venue_order_id(&Some("abc".to_string())),
        Err(OrderRequestError::InvalidVenueOrderId)
    );
}

#[test]
fn modify_and_cancel_params() {
    let c = cached();
    assert_eq!(
        build_modify_order(&btc(), Some(&c), None, None, OrderSide::Buy, dec("1"), dec("2"))
            .unwrap_err(),
        OrderRequestError::MissingOrderId
    );
    let m = build_modify_order(
        &btc(),
        Some(&c),
        Some("77".to_string()),
        None,
        OrderSide::Sell,
        dec("0.5"),
        dec("100.25"),
    )
    .unwrap();
    assert_eq!(m.params.order_id, Some(77));
    assert_eq!(m.params.side, AsterSide::Sell);
    assert_eq!(m.params.quantity, "0.5");
    assert_eq!(m.params.price, "100.25");

    assert_eq!(
        build_order_id_params(&btc(), None, None).unwrap_err(),
        OrderRequestError::MissingOrderId
    );
    let p = build_order_id_params(&btc(), None, Some("C-1".to_string())).unwrap();
    assert_eq!(p.symbol, "BTCUSDT");
    assert_eq!(p.order_id, None);
    assert_eq!(p.orig_client_order_id.as_deref(), Some("C-1"));
}

#[test]
fn query_params() {
    assert_eq!(build_symbol_params(&btc()).symbol, "BTCUSDT");
    assert_eq!(build_open_orders_params(&None).symbol, None);
    assert_eq!(
        build_open_orders_params(&Some(btc())).symbol.as_deref(),
        Some("BTCUSDT")
    );
    let q = build_algo_order_query("A-1".to_string());
    assert_eq!(q.client_algo_id.as_deref(), Some("A-1"));
    assert_eq!(q.algo_id, None);
}

#[test]
fn order_status_report_plans() {
    assert_eq!(
        plan_order_status_reports(&None, false),
        Err(OrderRequestError::InstrumentRequired)
    );
    match plan_order_status_reports(&None, true).unwrap() {
        OrderStatusQuery::Open(p) => assert_eq!(p.symbol, None),
        other => panic!("unexpected {other:?}"),
    }
    match plan_order_status_reports(&Some(btc()), false).unwrap() {
        OrderStatusQuery::All(p) => assert_eq!(p.symbol, "BTCUSDT"),
        other => panic!("unexpected {other:?}"),
    }
}

#[test]
fn report_instrument_ids() {
    let requested = Some(btc());
    assert_eq!(report_instrument_id(&requested, "ETHUSDT", AsterProductType::UsdM), btc());
    let id = report_instrument_id(&None, "ETHUSDT", AsterProductType::UsdM);
    assert_eq!(id.as_string(), "ETHUSDT-LINEAR.ASTER");
}

#[test]
fn aggressor_sides() {
    assert_eq!(aggressor_side(true), AggressorSide::Seller);
    assert_eq!(aggressor_side(false), AggressorSide::Buyer);
}

#[test]
fn trades_and_bars_queries() {
    let c = cached();
    let t = build_trades_query(&btc(), Some(&c), Some(500)).unwrap();
    assert_eq!(t.params.symbol, "BTCUSDT");
    assert_eq!(t.params.limit, Some(500));
    assert_eq!(t.size_precision, 3);
    assert_eq!(t.price_precision, 2);

    let bar_type = BarType {
        instrument_id: btc(),
        spec: BarSpecification {
            step: 4,
            aggregation: BarAggregation::Hour,
            price_type: PriceType::Last,
        },
        aggregation_source: AggregationSource::External,
    };
    let q = build_bars_query(&bar_type, Some(&c), Some(1), Some(2), Some(3)).unwrap();
    assert_eq!(q.params.interval, "4h");
    assert_eq!(q.params.symbol, "BTCUSDT");
    assert_eq!(q.params.start_time, Some(1));

    let internal = BarType {
        aggregation_source: AggregationSource::Internal,
        ..bar_type.clone()
    };
    assert_eq!(
        build_bars_query(&internal, Some(&c), None, None, None).unwrap_err(),
        OrderRequestError::ExternalAggregationOnly
    );
    let seconds = BarType {
        spec: BarSpecification {
            step: 1,
            aggregation: BarAggregation::Second,
            price_type: PriceType::Last,
        },
        ..bar_type.clone()
    };
    assert_eq!(
        build_bars_query(&seconds, Some(&c), None, None, None).unwrap_err(),
        OrderRequestError::SecondsUnsupported
    );
    let ticks = BarType {
        spec: BarSpecification {
            step: 1,
            aggregation: BarAggregation::Tick,
            price_type: PriceType::Last,
        },
        ..bar_type
    };
    assert_eq!(
        build_bars_query(&ticks, Some(&c), None, None, None).unwrap_err(),
        OrderRequestError::UnsupportedAggregation(BarAggregation::Tick)
    );
}

#[test]
fn algo_order_params() {
    let c = cached();
    let req = build_algo_order(
        &btc(),
        Some(&c),
        "A-7".to_string(),
        OrderSide::Sell,
        OrderType::StopLimit,
        dec("2"),
        TimeInForce::Gtc,
        Some(dec("99")),
        Some(dec("100")),
        true,
        false,
        None,
        None,
        None,
        None,
    )
    .unwrap();
    let p = req.params;
    assert_eq!(p.algo_type, AsterAlgoType::Conditional);
    assert_eq!(p.order_type, AsterFuturesOrderType::Stop);
    assert_eq!(p.time_in_force, Some(AsterTimeInForce::Gtc));
    assert_eq!(p.quantity.as_deref(), Some("2"));
    assert_eq!(p.price.as_deref(), Some("99"));
    assert_eq!(p.trigger_price.as_deref(), Some("100"));
    assert_eq!(p.reduce_only, Some(true));
    assert_eq!(p.close_position, None);
    assert_eq!(p.client_algo_id.as_deref(), Some("A-7"));

    let closing = build_algo_order(
        &btc(),
        Some(&c),
        "A-8".to_string(),
        OrderSide::Buy,
        OrderType::StopMarket,
        dec("2"),
        TimeInForce::Gtc,
        None,
        Some(dec("100")),
        true,
        true,
        None,
        None,
        None,
        None,
    )
    .unwrap();
    assert_eq!(closing.params.quantity, None);
    assert_eq!(closing.params.close_position, Some(true));
    assert_eq!(closing.params.reduce_only, None);
    assert_eq!(closing.params.time_in_force, None);

    let missing = build_algo_order(
        &btc(),
        Some(&c),
        "A-9".to_string(),
        OrderSide::Buy,
        OrderType::StopMarket,
        dec("2"),
        TimeInForce::Gtc,
        None,
        None,
        false,
        false,
        None,
        None,
        None,
        None,
    );
    let err = missing.unwrap_err();
    assert_eq!(err, OrderRequestError::MissingAlgoTriggerPrice(OrderType::StopMarket));
    assert_eq!(err.message(), "Algo order type StopMarket requires a trigger price");
}

#[test]
fn status_and_fill_queries() {
    let c = cached();
    let (p, precision) =
        build_order_status_query(&btc(), Some(&c), Some("5".to_string()), None).unwrap();
    assert_eq!(p.order_id, Some(5));
    assert_eq!(precision, 3);
    assert_eq!(
        build_order_status_query(&btc(), Some(&c), None, None).unwrap_err(),
        OrderRequestError::MissingOrderId
    );
    assert_eq!(
        build_fill_reports_query(&btc(), Some(&c), Some("x".to_string()), None, None, None)
            .unwrap_err(),
        OrderRequestError::InvalidVenueOrderId
    );
    let q = build_fill_reports_query(&btc(), Some(&c), None, Some(1), Some(2), Some(50)).unwrap();
    assert_eq!(q.params.symbol, "BTCUSDT");
    assert_eq!(q.params.order_id, None);
    assert_eq!(q.params.limit, Some(50));
    assert_eq!(q.price_precision, 2);
}

#[test]
fn order_request_error_messages() {
    assert_eq!(
        OrderRequestError::InstrumentNotCached { symbol: "BTCUSDT".to_string() }.message(),
        "Instrument not found in cache: BTCUSDT"
    );
    assert_eq!(
        OrderRequestError::MissingTriggerPrice(OrderType::StopLimit).message(),
        "Order type StopLimit requires a trigger price"
    );
    assert_eq!(
        OrderRequestError::Conversion(AsterConversionError::UnsupportedOrderSide(
            OrderSide::NoOrderSide
        ))
        .message(),
        "Unsupported `OrderSide` for Aster: NoOrderSide"
    );
    assert_eq!(
        OrderRequestError::Conversion(AsterConversionError::UnsupportedTimeInForce(
            TimeInForce::AtTheOpen
        ))
        .message(),
        "Unsupported `TimeInForce` for Aster: AtTheOpen"
    );
    assert_eq!(
        OrderRequestError::Conversion(AsterConversionError::UnsupportedOrderType(
            OrderType::MarketToLimit
        ))
        .message(),
        "Unsupported order type for Aster Futures: MarketToLimit"
    );
    assert_eq!(
        OrderRequestError::MissingOrderId.message(),
        "Either venue_order_id or client_order_id must be provided"
    );
    assert_eq!(OrderRequestError::InvalidVenueOrderId.message(), "Invalid venue order ID");
    assert_eq!(
        OrderRequestError::InstrumentRequired.message(),
        "instrument_id is required for historical orders"
    );
    assert_eq!(
        OrderRequestError::ExternalAggregationOnly.message(),
        "Only EXTERNAL aggregation is supported"
    );
    assert_eq!(
        OrderRequestError::SecondsUnsupported.message(),
        "Aster Futures does not support second-level kline intervals"
    );
    assert_eq!(
        OrderRequestError::UnsupportedAggregation(BarAggregation::Tick).message(),
        "Aster Futures does not support Tick aggregation"
    );
}
