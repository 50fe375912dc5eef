use nautilus_aster::enums::{
    order_type_to_aster_futures, AsterContractStatus, AsterConversionError, AsterEnvironment,
    AsterFuturesOrderType, AsterKlineInterval, AsterPriceMatch, AsterProductType,
    AsterRateLimitInterval, AsterSide, AsterTimeInForce, AsterTradingStatus, AsterWsEventType,
};
use nautilus_aster::model::{MarketStatusAction, OrderSide, OrderType, TimeInForce};

#[test]
fn test_product_type_as_str() {
    assert_eq!(AsterProductType::Spot.as_str(), "SPOT");
    assert_eq!(AsterProductType::Margin.as_str(), "MARGIN");
    assert_eq!(AsterProductType::UsdM.as_str(), "USD_M");
    assert_eq!(AsterProductType::CoinM.as_str(), "COIN_M");
    assert_eq!(AsterProductType::Options.as_str(), "OPTIONS");
}

#[test]
fn test_product_type_suffix() {
    assert_eq!(AsterProductType::Spot.suffix(), "-SPOT");
    assert_eq!(AsterProductType::Margin.suffix(), "-MARGIN");
    assert_eq!(AsterProductType::UsdM.suffix(), "-LINEAR");
    assert_eq!(AsterProductType::CoinM.suffix(), "-INVERSE");
    assert_eq!(AsterProductType::Options.suffix(), "-OPTION");
}

#[test]
fn test_product_type_predicates() {
    assert!(AsterProductType::Spot.is_spot());
    assert!(AsterProductType::Margin.is_spot());
    assert!(!AsterProductType::UsdM.is_spot());

    assert!(AsterProductType::UsdM.is_futures());
    assert!(AsterProductType::CoinM.is_futures());
    assert!(!AsterProductType::Spot.is_futures());

    assert!(AsterProductType::CoinM.is_inverse());
    assert!(!AsterProductType::UsdM.is_inverse());

    assert!(AsterProductType::Options.is_options());
    assert!(!AsterProductType::Spot.is_options());
}

#[test]
fn test_product_type_linear() {
    assert!(AsterProductType::Spot.is_linear());
    assert!(AsterProductType::Margin.is_linear());
    assert!(AsterProductType::UsdM.is_linear());
    assert!(!AsterProductType::CoinM.is_linear());
    assert!(!AsterProductType::Options.is_linear());
}

#[test]
fn test_environment_predicates_and_names() {
    assert!(AsterEnvironment::Testnet.is_testnet());
    assert!(!AsterEnvironment::Mainnet.is_testnet());
    assert!(AsterEnvironment::Demo.is_sandbox());
    assert!(AsterEnvironment::Testnet.is_sandbox());
    assert!(!AsterEnvironment::Mainnet.is_sandbox());
    assert_eq!(AsterEnvironment::Mainnet.display_name(), "Mainnet");
    assert_eq!(AsterEnvironment::Testnet.display_name(), "Testnet");
    assert_eq!(AsterEnvironment::Demo.display_name(), "Demo");
}

#[test]
fn test_price_match_from_param_valid() {
    let cases = [
        ("OPPONENT", AsterPriceMatch::Opponent),
        ("opponent", AsterPriceMatch::Opponent),
        ("OPPONENT_5", AsterPriceMatch::Opponent5),
        ("opponent_5", AsterPriceMatch::Opponent5),
        ("QUEUE_20", AsterPriceMatch::Queue20),
        ("queue_20", AsterPriceMatch::Queue20),
    ];
    for (input, expected) in cases {
        let result = AsterPriceMatch::from_param(input).unwrap();
        assert_eq!(result, expected);
    }
}

#[test]
fn test_price_match_from_param_invalid() {
    for input in ["NONE", "invalid", ""] {
        let err = AsterPriceMatch::from_param(input).unwrap_err();
        assert_eq!(err.value, input);
    }
}

#[test]
fn test_price_match_from_param_all_modes() {
    let cases = [
        ("Opponent_10", AsterPriceMatch::Opponent10),
        ("Opponent_20", AsterPriceMatch::Opponent20),
        ("queue", AsterPriceMatch::Queue),
        ("Queue_5", AsterPriceMatch::Queue5),
        ("QUEUE_10", AsterPriceMatch::Queue10),
    ];
    for (input, expected) in cases {
        assert_eq!(AsterPriceMatch::from_param(input), Ok(expected));
    }
}

#[test]
fn test_side_conversions() {
    assert_eq!(AsterSide::try_from(OrderSide::Buy), Ok(AsterSide::Buy));
    assert_eq!(AsterSide::try_from(OrderSide::Sell), Ok(AsterSide::Sell));
    assert_eq!(
        AsterSide::try_from(OrderSide::NoOrderSide),
        Err(AsterConversionError::UnsupportedOrderSide(OrderSide::NoOrderSide))
    );
    assert_eq!(OrderSide::from(AsterSide::Buy), OrderSide::Buy);
    assert_eq!(OrderSide::from(AsterSide::Sell), OrderSide::Sell);
}

#[test]
fn test_order_type_conversions() {
    assert_eq!(
        order_type_to_aster_futures(OrderType::StopLimit),
        Ok(AsterFuturesOrderType::Stop)
    );
    assert_eq!(
        order_type_to_aster_futures(OrderType::LimitIfTouched),
        Ok(AsterFuturesOrderType::TakeProfit)
    );
    assert_eq!(
        order_type_to_aster_futures(OrderType::MarketToLimit),
        Err(AsterConversionError::UnsupportedOrderType(OrderType::MarketToLimit))
    );
    assert_eq!(OrderType::from(AsterFuturesOrderType::Stop), OrderType::StopLimit);
    assert_eq!(
        OrderType::from(AsterFuturesOrderType::TakeProfitMarket),
        OrderType::MarketIfTouched
    );
    assert_eq!(OrderType::from(AsterFuturesOrderType::Liquidation), OrderType::Market);
}

#[test]
fn test_order_type_round_trip_values() {
    for t in [
        OrderType::Market,
        OrderType::Limit,
        OrderType::StopMarket,
        OrderType::StopLimit,
        OrderType::MarketIfTouched,
        OrderType::LimitIfTouched,
        OrderType::TrailingStopMarket,
    ] {
        let aster = order_type_to_aster_futures(t).unwrap();
        assert_eq!(OrderType::from(aster), t);
    }
}

#[test]
fn test_time_in_force_conversions() {
    assert_eq!(AsterTimeInForce::try_from(TimeInForce::Gtc), Ok(AsterTimeInForce::Gtc));
    assert_eq!(AsterTimeInForce::try_from(TimeInForce::Gtd), Ok(AsterTimeInForce::Gtd));
    assert_eq!(
        AsterTimeInForce::try_from(TimeInForce::Day),
        Err(AsterConversionError::UnsupportedTimeInForce(TimeInForce::Day))
    );
}

#[test]
fn test_status_actions() {
    assert_eq!(
        MarketStatusAction::from(AsterTradingStatus::Trading),
        MarketStatusAction::Trading
    );
    assert_eq!(
        MarketStatusAction::from(AsterTradingStatus::Break),
        MarketStatusAction::Pause
    );
    assert_eq!(
        MarketStatusAction::from(AsterTradingStatus::Unknown),
        MarketStatusAction::NotAvailableForTrading
    );
    assert_eq!(
        MarketStatusAction::from(AsterContractStatus::Trading),
        MarketStatusAction::Trading
    );
    assert_eq!(
        MarketStatusAction::from(AsterContractStatus::Down),
        MarketStatusAction::NotAvailableForTrading
    );
}

#[test]
fn test_ws_event_type_wire_strings() {
    assert_eq!(AsterWsEventType::AggTrade.as_str(), "aggTrade");
    assert_eq!(AsterWsEventType::Ticker24Hr.as_str(), "24hrTicker");
    assert_eq!(AsterWsEventType::OrderTradeUpdate.as_str(), "ORDER_TRADE_UPDATE");
    assert_eq!(AsterWsEventType::ListenKeyExpired.as_str(), "listenKeyExpired");
}

#[test]
fn test_ws_event_type_from_wire_round_trip() {
    let all = [
        AsterWsEventType::AggTrade,
        AsterWsEventType::Trade,
        AsterWsEventType::BookTicker,
        AsterWsEventType::DepthUpdate,
        AsterWsEventType::MarkPriceUpdate,
        AsterWsEventType::Kline,
        AsterWsEventType::ForceOrder,
        AsterWsEventType::Ticker24Hr,
        AsterWsEventType::MiniTicker24Hr,
        AsterWsEventType::AccountUpdate,
        AsterWsEventType::OrderTradeUpdate,
        AsterWsEventType::AlgoUpdate,
        AsterWsEventType::MarginCall,
        AsterWsEventType::AccountConfigUpdate,
        AsterWsEventType::ListenKeyExpired,
    ];
    for e in all {
        assert_eq!(AsterWsEventType::from_wire(e.as_str()), e);
    }
    assert_eq!(AsterWsEventType::from_wire("somethingElse"), AsterWsEventType::Unknown);
    assert_eq!(AsterWsEventType::from_wire("AGGTRADE"), AsterWsEventType::Unknown);
}

#[test]
fn test_kline_interval_strings() {
    assert_eq!(AsterKlineInterval::Second1.as_str(), "1s");
    assert_eq!(AsterKlineInterval::Minute15.as_str(), "15m");
    assert_eq!(AsterKlineInterval::Hour12.as_str(), "12h");
    assert_eq!(AsterKlineInterval::Day3.as_str(), "3d");
    assert_eq!(AsterKlineInterval::Week1.as_str(), "1w");
    assert_eq!(AsterKlineInterval::Month1.as_str(), "1M");
    assert_eq!(AsterKlineInterval::default(), AsterKlineInterval::Minute1);
}

#[test]
fn test_rate_limit_interval_names() {
    assert_eq!(AsterRateLimitInterval::Second.variant_name(), "Second");
    assert_eq!(AsterRateLimitInterval::Minute.variant_name(), "Minute");
    assert_eq!(AsterRateLimitInterval::Day.variant_name(), "Day");
}

#[test]
fn price_match_from_upper_param() {
    assert_eq!(AsterPriceMatch::from_upper_param("QUEUE_5"), Some(AsterPriceMatch::Queue5));
    assert_eq!(AsterPriceMatch::from_upper_param("queue_5"), None);
    assert_eq!(AsterPriceMatch::from_upper_param("NONE"), None);
}
