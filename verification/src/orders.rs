//! Order requests for the Aster Futures REST API: the request parameters that
//! order submission, modification, cancellation and queries send, and the
//! checks made before a request is sent or after it is answered.

use vstd::prelude::*;

use crate::decimal::{decimal_text, parse_i64, spec_parse_i64, DecimalValue, Price, Quantity};
use crate::enums::{
    aster_futures_order_type_of, aster_side_of, aster_time_in_force_of, conversion_error_message,
    order_type_to_aster_futures,
    AsterAlgoType, AsterConversionError, AsterFuturesOrderType, AsterPositionSide, AsterPriceMatch,
    AsterProductType, AsterSelfTradePreventionMode, AsterSide, AsterTimeInForce, AsterWorkingType,
    kline_interval_str, product_type_suffix,
};
use crate::instrument::AsterFuturesInstrument;
use crate::model::{
    bar_aggregation_debug, order_type_debug, AggregationSource, BarAggregation, BarSpecification,
    InstrumentId, OrderSide, OrderType, TimeInForce,
};
use crate::parse::spec_bar_interval;
use crate::symbol::{format_aster_symbol, trim_perp, ASTER};
use crate::text::{decimal, push_char, push_decimal, push_str};

verus! {

/// Why an order request could not be built.
#[derive(Clone, Debug, PartialEq, Eq)]
pub enum OrderRequestError {
    /// The instrument is not in the instrument cache.
    InstrumentNotCached {
        /// The Aster symbol.
        symbol: String,
    },
    /// A value has no Aster equivalent.
    Conversion(AsterConversionError),
    /// The order type requires a trigger price and none was given.
    MissingTriggerPrice(OrderType),
    /// An algo order was given no trigger price.
    MissingAlgoTriggerPrice(OrderType),
    /// Neither a venue order ID nor a client order ID was given.
    MissingOrderId,
    /// The venue order ID is not a 64-bit integer.
    InvalidVenueOrderId,
    /// Historical orders can only be queried for an instrument.
    InstrumentRequired,
    /// Only bars aggregated by the venue can be requested.
    ExternalAggregationOnly,
    /// Second-level klines are not supported.
    SecondsUnsupported,
    /// The bar aggregation is not supported.
    UnsupportedAggregation(BarAggregation),
}

/// The message of an order request error.
pub open spec fn order_request_error_message(e: OrderRequestError) -> Seq<char> {
    match e {
        OrderRequestError::InstrumentNotCached { symbol } => "Instrument not found in cache: "@
            + symbol@,
        OrderRequestError::Conversion(c) => conversion_error_message(c),
        OrderRequestError::MissingTriggerPrice(t) => "Order type "@ + order_type_debug(t)
            + " requires a trigger price"@,
        OrderRequestError::MissingAlgoTriggerPrice(t) => "Algo order type "@ + order_type_debug(t)
            + " requires a trigger price"@,
        OrderRequestError::MissingOrderId => "Either venue_order_id or client_order_id must be provided"@,
        OrderRequestError::InvalidVenueOrderId => "Invalid venue order ID"@,
        OrderRequestError::InstrumentRequired => "instrument_id is required for historical orders"@,
        OrderRequestError::ExternalAggregationOnly => "Only EXTERNAL aggregation is supported"@,
        OrderRequestError::SecondsUnsupported => "Aster Futures does not support second-level kline intervals"@,
        OrderRequestError::UnsupportedAggregation(a) => "Aster Futures does not support "@
            + bar_aggregation_debug(a) + " aggregation"@,
    }
}

impl OrderRequestError {
    /// Returns the human-readable message of the error, e.g.
    /// `Instrument not found in cache: BTCUSDT`.
    pub fn message(&self) -> (m: String)
        ensures
            m@ == order_request_error_message(*self),
    {
        let mut m = String::new();
        match self {
            OrderRequestError::InstrumentNotCached { symbol } => {
                push_str(&mut m, "Instrument not found in cache: ");
                push_str(&mut m, symbol.as_str());
            },
            OrderRequestError::Conversion(c) => {
                m = c.message();
            },
            OrderRequestError::MissingTriggerPrice(t) => {
                push_str(&mut m, "Order type ");
                push_str(&mut m, t.debug_name());
                push_str(&mut m, " requires a trigger price");
            },
            OrderRequestError::MissingAlgoTriggerPrice(t) => {
                push_str(&mut m, "Algo order type ");
                push_str(&mut m, t.debug_name());
                push_str(&mut m, " requires a trigger price");
            },
            OrderRequestError::MissingOrderId => {
                push_str(&mut m, "Either venue_order_id or client_order_id must be provided");
            },
            OrderRequestError::InvalidVenueOrderId => {
                push_str(&mut m, "Invalid venue order ID");
            },
            OrderRequestError::InstrumentRequired => {
                push_str(&mut m, "instrument_id is required for historical orders");
            },
            OrderRequestError::ExternalAggregationOnly => {
                push_str(&mut m, "Only EXTERNAL aggregation is supported");
            },
            OrderRequestError::SecondsUnsupported => {
                push_str(&mut m, "Aster Futures does not support second-level kline intervals");
            },
            OrderRequestError::UnsupportedAggregation(a) => {
                push_str(&mut m, "Aster Futures does not support ");
                push_str(&mut m, a.debug_name());
                push_str(&mut m, " aggregation");
            },
        }
        m
    }
}

/// The size precision of a cache entry (its quantity precision, truncated to a byte).
pub open spec fn entry_size_precision(e: AsterFuturesInstrument) -> u8 {
    e.spec_quantity_precision() as u8
}

/// The price precision of a cache entry (its price precision, truncated to a byte).
pub open spec fn entry_price_precision(e: AsterFuturesInstrument) -> u8 {
    e.spec_price_precision() as u8
}

/// Returns the size precision of the cache entry found for a symbol.
pub fn get_size_precision(cached: Option<&AsterFuturesInstrument>, symbol: &String) -> (r: Result<u8, OrderRequestError>)
    ensures
        match cached {
            Some(e) => r == Ok::<u8, OrderRequestError>(entry_size_precision(*e)),
            None => r is Err && r->Err_0 is InstrumentNotCached && r->Err_0->symbol@ == symbol@,
        },
{
    match cached {
        Some(e) => Ok(e.quantity_precision() as u8),
        None => Err(OrderRequestError::InstrumentNotCached { symbol: symbol.clone() }),
    }
}

/// Returns the price precision of the cache entry found for a symbol.
pub fn get_price_precision(cached: Option<&AsterFuturesInstrument>, symbol: &String) -> (r: Result<u8, OrderRequestError>)
    ensures
        match cached {
            Some(e) => r == Ok::<u8, OrderRequestError>(entry_price_precision(*e)),
            None => r is Err && r->Err_0 is InstrumentNotCached && r->Err_0->symbol@ == symbol@,
        },
{
    match cached {
        Some(e) => Ok(e.price_precision() as u8),
        None => Err(OrderRequestError::InstrumentNotCached { symbol: symbol.clone() }),
    }
}

/// Whether an order type needs a trigger price.
pub open spec fn requires_trigger_price(t: OrderType) -> bool {
    t == OrderType::StopMarket || t == OrderType::StopLimit || t == OrderType::TrailingStopMarket
        || t == OrderType::MarketIfTouched || t == OrderType::LimitIfTouched
}

/// Whether a regular order of a type carries a time in force (market and
/// stop-market orders do not).
pub open spec fn requires_time_in_force(t: OrderType) -> bool {
    t == OrderType::Limit || t == OrderType::StopLimit || t == OrderType::LimitIfTouched
}

/// Whether an algo order of a type carries a time in force.
pub open spec fn algo_requires_time_in_force(t: OrderType) -> bool {
    t == OrderType::StopLimit || t == OrderType::LimitIfTouched
}

/// The text of an optional decimal.
pub open spec fn opt_text(v: Option<DecimalValue>) -> Option<Seq<char>> {
    match v {
        Some(d) => Some(decimal_text(d)),
        None => None,
    }
}

/// The view of an optional string.
pub open spec fn opt_view(v: Option<String>) -> Option<Seq<char>> {
    match v {
        Some(s) => Some(s@),
        None => None,
    }
}

fn opt_decimal_string(v: Option<DecimalValue>) -> (r: Option<String>)
    ensures
        opt_view(r) == opt_text(v),
{
    match v {
        Some(d) => Some(d.to_decimal_string()),
        None => None,
    }
}

/// Parameters of a new order.
#[derive(Clone, Debug, PartialEq, Eq)]
pub struct AsterNewOrderParams {
    /// Symbol.
    pub symbol: String,
    /// Order side.
    pub side: AsterSide,
    /// Order type.
    pub order_type: AsterFuturesOrderType,
    /// Time in force.
    pub time_in_force: Option<AsterTimeInForce>,
    /// Quantity.
    pub quantity: Option<String>,
    /// Limit price.
    pub price: Option<String>,
    /// Client order ID (broker-encoded).
    pub new_client_order_id: Option<String>,
    /// Stop (trigger) price.
    pub stop_price: Option<String>,
    /// Reduce-only flag.
    pub reduce_only: Option<bool>,
    /// Position side.
    pub position_side: Option<AsterPositionSide>,
    /// Close-position flag.
    pub close_position: Option<bool>,
    /// Trailing stop activation price.
    pub activation_price: Option<String>,
    /// Trailing stop callback rate.
    pub callback_rate: Option<String>,
    /// Trigger price working type.
    pub working_type: Option<AsterWorkingType>,
    /// Price protection flag.
    pub price_protect: Option<bool>,
    /// Response type.
    pub new_order_resp_type: Option<String>,
    /// Good-till date (milliseconds).
    pub good_till_date: Option<i64>,
    /// Receive window.
    pub recv_window: Option<u64>,
    /// Price match mode.
    pub price_match: Option<AsterPriceMatch>,
    /// Self-trade prevention mode.
    pub self_trade_prevention_mode: Option<AsterSelfTradePreventionMode>,
}

/// A new order request ready to send, with the size precision of its reports.
#[derive(Clone, Debug, PartialEq, Eq)]
pub struct NewOrderRequest {
    /// The request parameters.
    pub params: AsterNewOrderParams,
    /// The size precision of the instrument.
    pub size_precision: u8,
}

/// The Aster terms of a regular order, or why there are none: the side and
/// order type must convert, the time in force is `GTX` for post-only orders and
/// must otherwise convert, and a trigger order needs a trigger price.
pub open spec fn new_order_terms(
    side: OrderSide,
    order_type: OrderType,
    time_in_force: TimeInForce,
    post_only: bool,
    has_trigger_price: bool,
) -> Result<(AsterSide, AsterFuturesOrderType, AsterTimeInForce), OrderRequestError> {
    match aster_side_of(side) {
        Err(e) => Err(OrderRequestError::Conversion(e)),
        Ok(s) => match aster_futures_order_type_of(order_type) {
            Err(e) => Err(OrderRequestError::Conversion(e)),
            Ok(t) => {
                let tif = if post_only {
                    Ok(AsterTimeInForce::Gtx)
                } else {
                    aster_time_in_force_of(time_in_force)
                };
                match tif {
                    Err(e) => Err(OrderRequestError::Conversion(e)),
                    Ok(tif) => if requires_trigger_price(order_type) && !has_trigger_price {
                        Err(OrderRequestError::MissingTriggerPrice(order_type))
                    } else {
                        Ok((s, t, tif))
                    },
                }
            },
        },
    }
}

/// Builds a new (regular) order request.
///
/// The instrument must be cached (for the size precision of the reports).
/// Post-only orders are sent as `GTX`; market and stop-market orders carry no
/// time in force; a price-match order carries no price; reduce-only is sent only
/// when set.
///
/// `client_order_id` is the client order ID as the venue receives it (the
/// broker-tagged ID); it is sent unchanged.
pub fn build_new_order(
    instrument_id: &InstrumentId,
    cached: Option<&AsterFuturesInstrument>,
    client_order_id: String,
    order_side: OrderSide,
    order_type: OrderType,
    quantity: Quantity,
    time_in_force: TimeInForce,
    price: Option<Price>,
    trigger_price: Option<Price>,
    reduce_only: bool,
    post_only: bool,
    position_side: Option<AsterPositionSide>,
    price_match: Option<AsterPriceMatch>,
    activation_price: Option<Price>,
    callback_rate: Option<String>,
    working_type: Option<AsterWorkingType>,
) -> (r: Result<NewOrderRequest, OrderRequestError>)
    ensures
        cached is None ==> r is Err && r->Err_0 is InstrumentNotCached && r->Err_0->symbol@
            == trim_perp(instrument_id.symbol@),
        cached is Some ==> match new_order_terms(
            order_side,
            order_type,
            time_in_force,
            post_only,
            trigger_price is Some,
        ) {
            Err(e) => r == Err::<NewOrderRequest, OrderRequestError>(e),
            Ok((side, t, tif)) => r is Ok && ({
                let p = r->Ok_0.params;
                &&& r->Ok_0.size_precision == entry_size_precision(*cached->Some_0)
                &&& p.symbol@ == trim_perp(instrument_id.symbol@)
                &&& p.side == side
                &&& p.order_type == t
                &&& p.time_in_force == (if requires_time_in_force(order_type) {
                    Some(tif)
                } else {
                    None
                })
                &&& opt_view(p.quantity) == Some(decimal_text(quantity))
                &&& opt_view(p.price) == (if price_match is Some {
                    None
                } else {
                    opt_text(price)
                })
                &&& opt_view(p.new_client_order_id) == Some(client_order_id@)
                &&& opt_view(p.stop_price) == opt_text(trigger_price)
                &&& p.reduce_only == (if reduce_only {
                    Some(true)
                } else {
                    None
                })
                &&& p.position_side == position_side
                &&& p.close_position is None
                &&& opt_view(p.activation_price) == opt_text(activation_price)
                &&& opt_view(p.callback_rate) == opt_view(callback_rate)
                &&& p.working_type == working_type
                &&& p.price_protect is None
                &&& p.new_order_resp_type is None
                &&& p.good_till_date is None
                &&& p.recv_window is None
                &&& p.price_match == price_match
                &&& p.self_trade_prevention_mode is None
            }),
        },
{
    let symbol = format_aster_symbol(instrument_id);
    let size_precision = get_size_precision(cached, &symbol)?;
    let aster_side = match AsterSide::try_from(order_side) {
        Ok(s) => s,
        Err(e) => return Err(OrderRequestError::Conversion(e)),
    };
    let aster_order_type = match order_type_to_aster_futures(order_type) {
        Ok(t) => t,
        Err(e) => return Err(OrderRequestError::Conversion(e)),
    };
    let aster_tif = if post_only {
        AsterTimeInForce::Gtx
    } else {
        match AsterTimeInForce::try_from(time_in_force) {
            Ok(t) => t,
            Err(e) => return Err(OrderRequestError::Conversion(e)),
        }
    };
    let requires_trigger = matches!(
        order_type,
        OrderType::StopMarket | OrderType::StopLimit | OrderType::TrailingStopMarket
            | OrderType::MarketIfTouched | OrderType::LimitIfTouched
    );
    if requires_trigger && trigger_price.is_none() {
        return Err(OrderRequestError::MissingTriggerPrice(order_type));
    }
    let requires_tif = matches!(
        order_type,
        OrderType::Limit | OrderType::StopLimit | OrderType::LimitIfTouched
    );
    let qty_str = quantity.to_decimal_string();
    let price_str = if price_match.is_some() {
        None
    } else {
        opt_decimal_string(price)
    };
    let stop_price_str = opt_decimal_string(trigger_price);
    let params = AsterNewOrderParams {
        symbol,
        side: aster_side,
        order_type: aster_order_type,
        time_in_force: if requires_tif {
            Some(aster_tif)
        } else {
            None
        },
        quantity: Some(qty_str),
        price: price_str,
        new_client_order_id: Some(client_order_id),
        stop_price: stop_price_str,
        reduce_only: if reduce_only {
            Some(true)
        } else {
            None
        },
        position_side,
        close_position: None,
        activation_price: opt_decimal_string(activation_price),
        callback_rate,
        working_type,
        price_protect: None,
        new_order_resp_type: None,
        good_till_date: None,
        recv_window: None,
        price_match,
        self_trade_prevention_mode: None,
    };
    Ok(NewOrderRequest { params, size_precision })
}

/// Parameters of a new algo (conditional) order.
#[derive(Clone, Debug, PartialEq, Eq)]
pub struct AsterNewAlgoOrderParams {
    /// Symbol.
    pub symbol: String,
    /// Order side.
    pub side: AsterSide,
    /// Order type.
    pub order_type: AsterFuturesOrderType,
    /// Algo type.
    pub algo_type: AsterAlgoType,
    /// Position side.
    pub position_side: Option<AsterPositionSide>,
    /// Quantity.
    pub quantity: Option<String>,
    /// Limit price.
    pub price: Option<String>,
    /// Trigger price.
    pub trigger_price: Option<String>,
    /// Time in force.
    pub time_in_force: Option<AsterTimeInForce>,
    /// Trigger price working type.
    pub working_type: Option<AsterWorkingType>,
    /// Close-position flag.
    pub close_position: Option<bool>,
    /// Price protection flag.
    pub price_protect: Option<bool>,
    /// Reduce-only flag.
    pub reduce_only: Option<bool>,
    /// Trailing stop activation price.
    pub activation_price: Option<String>,
    /// Trailing stop callback rate.
    pub callback_rate: Option<String>,
    /// Client algo ID (broker-encoded).
    pub client_algo_id: Option<String>,
    /// Good-till date (milliseconds).
    pub good_till_date: Option<i64>,
    /// Receive window.
    pub recv_window: Option<u64>,
}

/// An algo order request ready to send, with the size precision of its reports.
#[derive(Clone, Debug, PartialEq, Eq)]
pub struct NewAlgoOrderRequest {
    /// The request parameters.
    pub params: AsterNewAlgoOrderParams,
    /// The size precision of the instrument.
    pub size_precision: u8,
}

/// The Aster terms of an algo order, or why there are none: the side, order
/// type and time in force must convert, and a trigger price is required.
pub open spec fn algo_order_terms(
    side: OrderSide,
    order_type: OrderType,
    time_in_force: TimeInForce,
    has_trigger_price: bool,
) -> Result<(AsterSide, AsterFuturesOrderType, AsterTimeInForce), OrderRequestError> {
    match aster_side_of(side) {
        Err(e) => Err(OrderRequestError::Conversion(e)),
        Ok(s) => match aster_futures_order_type_of(order_type) {
            Err(e) => Err(OrderRequestError::Conversion(e)),
            Ok(t) => match aster_time_in_force_of(time_in_force) {
                Err(e) => Err(OrderRequestError::Conversion(e)),
                Ok(tif) => if !has_trigger_price {
                    Err(OrderRequestError::MissingAlgoTriggerPrice(order_type))
                } else {
                    Ok((s, t, tif))
                },
            },
        },
    }
}

/// Builds an algo (conditional) order request for the Algo Service.
///
/// The instrument must be cached and a trigger price given. A close-position
/// order carries no quantity and no reduce-only flag; stop-limit and
/// limit-if-touched orders carry the time in force.
///
/// `client_order_id` is the client order ID as the venue receives it (the
/// broker-tagged ID); it is sent unchanged.
pub fn build_algo_order(
    instrument_id: &InstrumentId,
    cached: Option<&AsterFuturesInstrument>,
    client_order_id: String,
    order_side: OrderSide,
    order_type: OrderType,
    quantity: Quantity,
    time_in_force: TimeInForce,
    price: Option<Price>,
    trigger_price: Option<Price>,
    reduce_only: bool,
    close_position: bool,
    position_side: Option<AsterPositionSide>,
    activation_price: Option<Price>,
    callback_rate: Option<String>,
    working_type: Option<AsterWorkingType>,
) -> (r: Result<NewAlgoOrderRequest, OrderRequestError>)
    ensures
        cached is None ==> r is Err && r->Err_0 is InstrumentNotCached && r->Err_0->symbol@
            == trim_perp(instrument_id.symbol@),
        cached is Some ==> match algo_order_terms(
            order_side,
            order_type,
            time_in_force,
            trigger_price is Some,
        ) {
            Err(e) => r == Err::<NewAlgoOrderRequest, OrderRequestError>(e),
            Ok((side, t, tif)) => r is Ok && ({
                let p = r->Ok_0.params;
                &&& r->Ok_0.size_precision == entry_size_precision(*cached->Some_0)
                &&& p.symbol@ == trim_perp(instrument_id.symbol@)
                &&& p.side == side
                &&& p.order_type == t
                &&& p.algo_type == AsterAlgoType::Conditional
                &&& p.position_side == position_side
                &&& opt_view(p.quantity) == (if close_position {
                    None
                } else {
                    Some(decimal_text(quantity))
                })
                &&& opt_view(p.price) == opt_text(price)
                &&& opt_view(p.trigger_price) == opt_text(trigger_price)
                &&& p.time_in_force == (if algo_requires_time_in_force(order_type) {
                    Some(tif)
                } else {
                    None
                })
                &&& p.working_type == working_type
                &&& p.close_position == (if close_position {
                    Some(true)
                } else {
                    None
                })
                &&& p.price_protect is None
                &&& p.reduce_only == (if !close_position && reduce_only {
                    Some(true)
                } else {
                    None
                })
                &&& opt_view(p.activation_price) == opt_text(activation_price)
                &&& opt_view(p.callback_rate) == opt_view(callback_rate)
                &&& opt_view(p.client_algo_id) == Some(client_order_id@)
                &&& p.good_till_date is None
                &&& p.recv_window is None
            }),
        },
{
    let symbol = format_aster_symbol(instrument_id);
    let size_precision = get_size_precision(cached, &symbol)?;
    let aster_side = match AsterSide::try_from(order_side) {
        Ok(s) => s,
        Err(e) => return Err(OrderRequestError::Conversion(e)),
    };
    let aster_order_type = match order_type_to_aster_futures(order_type) {
        Ok(t) => t,
        Err(e) => return Err(OrderRequestError::Conversion(e)),
    };
    let aster_tif = match AsterTimeInForce::try_from(time_in_force) {
        Ok(t) => t,
        Err(e) => return Err(OrderRequestError::Conversion(e)),
    };
    if trigger_price.is_none() {
        return Err(OrderRequestError::MissingAlgoTriggerPrice(order_type));
    }
    let requires_tif = matches!(order_type, OrderType::StopLimit | OrderType::LimitIfTouched);
    let price_str = opt_decimal_string(price);
    let trigger_price_str = opt_decimal_string(trigger_price);
    let time_in_force = if requires_tif {
        Some(aster_tif)
    } else {
        None
    };
    let params = if close_position {
        AsterNewAlgoOrderParams {
            symbol,
            side: aster_side,
            order_type: aster_order_type,
            algo_type: AsterAlgoType::Conditional,
            position_side,
            quantity: None,
            price: price_str,
            trigger_price: trigger_price_str,
            time_in_force,
            working_type,
            close_position: Some(true),
            price_protect: None,
            reduce_only: None,
            activation_price: opt_decimal_string(activation_price),
            callback_rate,
            client_algo_id: Some(client_order_id),
            good_till_date: None,
            recv_window: None,
        }
    } else {
        let qty_str = quantity.to_decimal_string();
        AsterNewAlgoOrderParams {
            symbol,
            side: aster_side,
            order_type: aster_order_type,
            algo_type: AsterAlgoType::Conditional,
            position_side,
            quantity: Some(qty_str),
            price: price_str,
            trigger_price: trigger_price_str,
            time_in_force,
            working_type,
            close_position: None,
            price_protect: None,
            reduce_only: if reduce_only {
                Some(true)
            } else {
                None
            },
            activation_price: opt_decimal_string(activation_price),
            callback_rate,
            client_algo_id: Some(client_order_id),
            good_till_date: None,
            recv_window: None,
        }
    };
    Ok(NewAlgoOrderRequest { params, size_precision })
}

/// The venue order ID a request carries: the parsed ID when one is given.
pub open spec fn venue_order_id_param(venue_order_id: Option<String>) -> Result<Option<i64>, OrderRequestError> {
    match venue_order_id {
        None => Ok(None),
        Some(id) => match spec_parse_i64(id@) {
            Some(v) => Ok(Some(v)),
            None => Err(OrderRequestError::InvalidVenueOrderId),
        },
    }
}

/// Parses an optional venue order ID into the integer order ID of a request.
pub fn parse_venue_order_id(venue_order_id: &Option<String>) -> (r: Result<Option<i64>, OrderRequestError>)
    ensures
        r == venue_order_id_param(*venue_order_id),
{
    match venue_order_id {
        None => Ok(None),
        Some(id) => match parse_i64(id.as_str()) {
            Some(v) => Ok(Some(v)),
            None => Err(OrderRequestError::InvalidVenueOrderId),
        },
    }
}

/// Parameters of an order modification.
#[derive(Clone, Debug, PartialEq, Eq)]
pub struct AsterModifyOrderParams {
    /// Symbol.
    pub symbol: String,
    /// Venue order ID.
    pub order_id: Option<i64>,
    /// Client order ID (broker-encoded).
    pub orig_client_order_id: Option<String>,
    /// Order side.
    pub side: AsterSide,
    /// New quantity.
    pub quantity: String,
    /// New price.
    pub price: String,
    /// Receive window.
    pub recv_window: Option<u64>,
}

/// An order modification ready to send, with the size precision of its reports.
#[derive(Clone, Debug, PartialEq, Eq)]
pub struct ModifyOrderRequest {
    /// The request parameters.
    pub params: AsterModifyOrderParams,
    /// The size precision of the instrument.
    pub size_precision: u8,
}

/// Builds an order modification (price and quantity only).
///
/// A venue order ID or a client order ID must be given, the instrument must be
/// cached, the side must convert, and a venue order ID must be an integer.
///
/// `client_order_id` is the client order ID as the venue receives it (the
/// broker-tagged ID); it is sent unchanged.
pub fn build_modify_order(
    instrument_id: &InstrumentId,
    cached: Option<&AsterFuturesInstrument>,
    venue_order_id: Option<String>,
    client_order_id: Option<String>,
    order_side: OrderSide,
    quantity: Quantity,
    price: Price,
) -> (r: Result<ModifyOrderRequest, OrderRequestError>)
    ensures
        venue_order_id is None && client_order_id is None ==> r == Err::<
            ModifyOrderRequest,
            OrderRequestError,
        >(OrderRequestError::MissingOrderId),
        !(venue_order_id is None && client_order_id is None) ==> {
            if cached is None {
                r is Err && r->Err_0 is InstrumentNotCached && r->Err_0->symbol@ == trim_perp(
                    instrument_id.symbol@,
                )
            } else if aster_side_of(order_side) is Err {
                r == Err::<ModifyOrderRequest, OrderRequestError>(
                    OrderRequestError::Conversion(aster_side_of(order_side)->Err_0),
                )
            } else if venue_order_id_param(venue_order_id) is Err {
                r == Err::<ModifyOrderRequest, OrderRequestError>(OrderRequestError::InvalidVenueOrderId)
            } else {
                r is Ok && ({
                    let p = r->Ok_0.params;
                    &&& r->Ok_0.size_precision == entry_size_precision(*cached->Some_0)
                    &&& p.symbol@ == trim_perp(instrument_id.symbol@)
                    &&& p.order_id == venue_order_id_param(venue_order_id)->Ok_0
                    &&& opt_view(p.orig_client_order_id) == opt_view(client_order_id)
                    &&& p.side == aster_side_of(order_side)->Ok_0
                    &&& p.quantity@ == decimal_text(quantity)
                    &&& p.price@ == decimal_text(price)
                    &&& p.recv_window is None
                })
            }
        },
{
    if venue_order_id.is_none() && client_order_id.is_none() {
        return Err(OrderRequestError::MissingOrderId);
    }
    let symbol = format_aster_symbol(instrument_id);
    let size_precision = get_size_precision(cached, &symbol)?;
    let aster_side = match AsterSide::try_from(order_side) {
        Ok(s) => s,
        Err(e) => return Err(OrderRequestError::Conversion(e)),
    };
    let order_id = parse_venue_order_id(&venue_order_id)?;
    let params = AsterModifyOrderParams {
        symbol,
        order_id,
        orig_client_order_id: client_order_id,
        side: aster_side,
        quantity: quantity.to_decimal_string(),
        price: price.to_decimal_string(),
        recv_window: None,
    };
    Ok(ModifyOrderRequest { params, size_precision })
}

/// Parameters of an order cancellation (and of a single-order query).
#[derive(Clone, Debug, PartialEq, Eq)]
pub struct AsterCancelOrderParams {
    /// Symbol.
    pub symbol: String,
    /// Venue order ID.
    pub order_id: Option<i64>,
    /// Client order ID (broker-encoded).
    pub orig_client_order_id: Option<String>,
    /// Receive window.
    pub recv_window: Option<u64>,
}

/// Builds the parameters that identify one order: a venue order ID or a client
/// order ID must be given, and a venue order ID must be an integer.
///
/// `client_order_id` is the client order ID as the venue receives it (the
/// broker-tagged ID); it is sent unchanged.
pub fn build_order_id_params(
    instrument_id: &InstrumentId,
    venue_order_id: Option<String>,
    client_order_id: Option<String>,
) -> (r: Result<AsterCancelOrderParams, OrderRequestError>)
    ensures
        venue_order_id is None && client_order_id is None ==> r == Err::<
            AsterCancelOrderParams,
            OrderRequestError,
        >(OrderRequestError::MissingOrderId),
        !(venue_order_id is None && client_order_id is None) ==> match venue_order_id_param(
            venue_order_id,
        ) {
            Err(e) => r == Err::<AsterCancelOrderParams, OrderRequestError>(e),
            Ok(order_id) => r is Ok && r->Ok_0.symbol@ == trim_perp(instrument_id.symbol@)
                && r->Ok_0.order_id == order_id && opt_view(r->Ok_0.orig_client_order_id)
                == opt_view(client_order_id) && r->Ok_0.recv_window is None,
        },
{
    if venue_order_id.is_none() && client_order_id.is_none() {
        return Err(OrderRequestError::MissingOrderId);
    }
    let symbol = format_aster_symbol(instrument_id);
    let order_id = parse_venue_order_id(&venue_order_id)?;
    Ok(AsterCancelOrderParams { symbol, order_id, orig_client_order_id: client_order_id, recv_window: None })
}

/// Builds a single-order status query: the order-identifying parameters, and
/// the size precision of the (cached) instrument.
///
/// `client_order_id` is the client order ID as the venue receives it (the
/// broker-tagged ID); it is sent unchanged.
pub fn build_order_status_query(
    instrument_id: &InstrumentId,
    cached: Option<&AsterFuturesInstrument>,
    venue_order_id: Option<String>,
    client_order_id: Option<String>,
) -> (r: Result<(AsterCancelOrderParams, u8), OrderRequestError>)
    ensures
        venue_order_id is None && client_order_id is None ==> r == Err::<
            (AsterCancelOrderParams, u8),
            OrderRequestError,
        >(OrderRequestError::MissingOrderId),
        !(venue_order_id is None && client_order_id is None) ==> {
            if cached is None {
                r is Err && r->Err_0 is InstrumentNotCached && r->Err_0->symbol@ == trim_perp(
                    instrument_id.symbol@,
                )
            } else {
                match venue_order_id_param(venue_order_id) {
                    Err(e) => r == Err::<(AsterCancelOrderParams, u8), OrderRequestError>(e),
                    Ok(order_id) => r is Ok && r->Ok_0.0.symbol@ == trim_perp(instrument_id.symbol@)
                        && r->Ok_0.0.order_id == order_id && opt_view(r->Ok_0.0.orig_client_order_id)
                        == opt_view(client_order_id) && r->Ok_0.0.recv_window is None && r->Ok_0.1
                        == entry_size_precision(*cached->Some_0),
                }
            }
        },
{
    if venue_order_id.is_none() && client_order_id.is_none() {
        return Err(OrderRequestError::MissingOrderId);
    }
    let symbol = format_aster_symbol(instrument_id);
    let size_precision = get_size_precision(cached, &symbol)?;
    let order_id = parse_venue_order_id(&venue_order_id)?;
    Ok(
        (
            AsterCancelOrderParams {
                symbol,
                order_id,
                orig_client_order_id: client_order_id,
                recv_window: None,
            },
            size_precision,
        ),
    )
}

/// Parameters that identify an algo order.
#[derive(Clone, Debug, PartialEq, Eq)]
pub struct AsterAlgoOrderQueryParams {
    /// Venue algo ID.
    pub algo_id: Option<i64>,
    /// Client algo ID (broker-encoded).
    pub client_algo_id: Option<String>,
    /// Receive window.
    pub recv_window: Option<u64>,
}

/// Builds the parameters of an algo order by client order ID.
///
/// `client_order_id` is the client order ID as the venue receives it (the
/// broker-tagged ID); it is sent unchanged.
pub fn build_algo_order_query(client_order_id: String) -> (p: AsterAlgoOrderQueryParams)
    ensures
        p.algo_id is None,
        opt_view(p.client_algo_id) == Some(client_order_id@),
        p.recv_window is None,
{
    AsterAlgoOrderQueryParams { algo_id: None, client_algo_id: Some(client_order_id), recv_window: None }
}

/// Parameters that select a symbol's orders.
#[derive(Clone, Debug, PartialEq, Eq)]
pub struct AsterSymbolParams {
    /// Symbol.
    pub symbol: String,
    /// Receive window.
    pub recv_window: Option<u64>,
}

/// Builds the parameters that select all (algo) orders of an instrument.
pub fn build_symbol_params(instrument_id: &InstrumentId) -> (p: AsterSymbolParams)
    ensures
        p.symbol@ == trim_perp(instrument_id.symbol@),
        p.recv_window is None,
{
    AsterSymbolParams { symbol: format_aster_symbol(instrument_id), recv_window: None }
}

/// Parameters that optionally select a symbol.
#[derive(Clone, Debug, PartialEq, Eq)]
pub struct AsterOptionalSymbolParams {
    /// Symbol, when the query is limited to one.
    pub symbol: Option<String>,
    /// Receive window.
    pub recv_window: Option<u64>,
}

/// The Aster symbol of an optional instrument.
pub open spec fn opt_symbol(instrument_id: Option<InstrumentId>) -> Option<Seq<char>> {
    match instrument_id {
        Some(id) => Some(trim_perp(id.symbol@)),
        None => None,
    }
}

fn format_opt_symbol(instrument_id: &Option<InstrumentId>) -> (r: Option<String>)
    ensures
        opt_view(r) == opt_symbol(*instrument_id),
{
    match instrument_id {
        Some(id) => Some(format_aster_symbol(id)),
        None => None,
    }
}

/// Builds the parameters of a query of open (algo) orders, for all symbols or for one.
pub fn build_open_orders_params(instrument_id: &Option<InstrumentId>) -> (p: AsterOptionalSymbolParams)
    ensures
        opt_view(p.symbol) == opt_symbol(*instrument_id),
        p.recv_window is None,
{
    AsterOptionalSymbolParams { symbol: format_opt_symbol(instrument_id), recv_window: None }
}

/// Parameters of a query of all (historical) orders.
#[derive(Clone, Debug, PartialEq, Eq)]
pub struct AsterAllOrdersParams {
    /// Symbol.
    pub symbol: String,
    /// Start from this venue order ID.
    pub order_id: Option<i64>,
    /// Start time (milliseconds).
    pub start_time: Option<i64>,
    /// End time (milliseconds).
    pub end_time: Option<i64>,
    /// Maximum number of orders.
    pub limit: Option<u32>,
    /// Receive window.
    pub recv_window: Option<u64>,
}

/// The query behind a request for order status reports.
#[derive(Clone, Debug, PartialEq, Eq)]
pub enum OrderStatusQuery {
    /// Open orders, for all symbols or for one.
    Open(AsterOptionalSymbolParams),
    /// All orders of one symbol.
    All(AsterAllOrdersParams),
}

/// Plans the query of a request for order status reports: open orders (for all
/// symbols or one), or all orders of an instrument, which historical orders need.
pub fn plan_order_status_reports(instrument_id: &Option<InstrumentId>, open_only: bool) -> (r: Result<
    OrderStatusQuery,
    OrderRequestError,
>)
    ensures
        open_only ==> r is Ok && r->Ok_0 is Open && opt_view(r->Ok_0->Open_0.symbol) == opt_symbol(
            *instrument_id,
        ) && r->Ok_0->Open_0.recv_window is None,
        !open_only && instrument_id is None ==> r == Err::<OrderStatusQuery, OrderRequestError>(
            OrderRequestError::InstrumentRequired,
        ),
        !open_only && instrument_id is Some ==> r is Ok && r->Ok_0 is All && ({
            let p = r->Ok_0->All_0;
            &&& Some(p.symbol@) == opt_symbol(*instrument_id)
            &&& p.order_id is None
            &&& p.start_time is None
            &&& p.end_time is None
            &&& p.limit is None
            &&& p.recv_window is None
        }),
{
    let symbol = format_opt_symbol(instrument_id);
    if open_only {
        Ok(OrderStatusQuery::Open(AsterOptionalSymbolParams { symbol, recv_window: None }))
    } else {
        match symbol {
            None => Err(OrderRequestError::InstrumentRequired),
            Some(symbol) => Ok(
                OrderStatusQuery::All(
                    AsterAllOrdersParams {
                        symbol,
                        order_id: None,
                        start_time: None,
                        end_time: None,
                        limit: None,
                        recv_window: None,
                    },
                ),
            ),
        }
    }
}

/// The instrument ID of an order's report: the requested instrument, or one
/// built from the order's symbol, the product type's suffix and the Aster venue.
pub fn report_instrument_id(
    requested: &Option<InstrumentId>,
    order_symbol: &str,
    product_type: AsterProductType,
) -> (id: InstrumentId)
    ensures
        match requested {
            Some(r) => id == *r,
            None => id.symbol@ == order_symbol@ + product_type_suffix(product_type) && id.venue@
                == "ASTER"@,
        },
{
    match requested {
        Some(r) => InstrumentId::new(r.symbol.clone(), r.venue.clone()),
        None => {
            let mut symbol = order_symbol.to_owned();
            push_str(&mut symbol, product_type.suffix());
            InstrumentId::new(symbol, ASTER.to_owned())
        },
    }
}

/// The size precision of an order's report: the cached precision, or 8 when the
/// symbol is not cached.
pub fn report_size_precision(cached: Option<&AsterFuturesInstrument>) -> (p: u8)
    ensures
        p == match cached {
            Some(e) => entry_size_precision(*e),
            None => 8,
        },
{
    match cached {
        Some(e) => e.quantity_precision() as u8,
        None => 8,
    }
}

/// Parameters of a query of a symbol's trades of the account.
#[derive(Clone, Debug, PartialEq, Eq)]
pub struct AsterUserTradesParams {
    /// Symbol.
    pub symbol: String,
    /// Venue order ID.
    pub order_id: Option<i64>,
    /// Start time (milliseconds).
    pub start_time: Option<i64>,
    /// End time (milliseconds).
    pub end_time: Option<i64>,
    /// Start from this trade ID.
    pub from_id: Option<i64>,
    /// Maximum number of trades.
    pub limit: Option<u32>,
    /// Receive window.
    pub recv_window: Option<u64>,
}

/// A fill report query ready to send, with the precisions of its reports.
#[derive(Clone, Debug, PartialEq, Eq)]
pub struct FillReportsQuery {
    /// The request parameters.
    pub params: AsterUserTradesParams,
    /// The size precision of the instrument.
    pub size_precision: u8,
    /// The price precision of the instrument.
    pub price_precision: u8,
}

/// Builds a fill report query: the instrument must be cached and a venue order
/// ID must be an integer.
pub fn build_fill_reports_query(
    instrument_id: &InstrumentId,
    cached: Option<&AsterFuturesInstrument>,
    venue_order_id: Option<String>,
    start: Option<i64>,
    end: Option<i64>,
    limit: Option<u32>,
) -> (r: Result<FillReportsQuery, OrderRequestError>)
    ensures
        cached is None ==> r is Err && r->Err_0 is InstrumentNotCached && r->Err_0->symbol@
            == trim_perp(instrument_id.symbol@),
        cached is Some ==> match venue_order_id_param(venue_order_id) {
            Err(e) => r == Err::<FillReportsQuery, OrderRequestError>(e),
            Ok(order_id) => r is Ok && ({
                let q = r->Ok_0;
                &&& q.size_precision == entry_size_precision(*cached->Some_0)
                &&& q.price_precision == entry_price_precision(*cached->Some_0)
                &&& q.params.symbol@ == trim_perp(instrument_id.symbol@)
                &&& q.params.order_id == order_id
                &&& q.params.start_time == start
                &&& q.params.end_time == end
                &&& q.params.from_id is None
                &&& q.params.limit == limit
                &&& q.params.recv_window is None
            }),
        },
{
    let symbol = format_aster_symbol(instrument_id);
    let size_precision = get_size_precision(cached, &symbol)?;
    let price_precision = get_price_precision(cached, &symbol)?;
    let order_id = parse_venue_order_id(&venue_order_id)?;
    let params = AsterUserTradesParams {
        symbol,
        order_id,
        start_time: start,
        end_time: end,
        from_id: None,
        limit,
        recv_window: None,
    };
    Ok(FillReportsQuery { params, size_precision, price_precision })
}

/// Parameters of a query of recent public trades.
#[derive(Clone, Debug, PartialEq, Eq)]
pub struct AsterTradesParams {
    /// Symbol.
    pub symbol: String,
    /// Maximum number of trades.
    pub limit: Option<u32>,
}

/// A public trades query ready to send, with the precisions of its ticks.
#[derive(Clone, Debug, PartialEq, Eq)]
pub struct TradesQuery {
    /// The request parameters.
    pub params: AsterTradesParams,
    /// The size precision of the instrument.
    pub size_precision: u8,
    /// The price precision of the instrument.
    pub price_precision: u8,
}

/// Builds a public trades query; the instrument must be cached.
pub fn build_trades_query(
    instrument_id: &InstrumentId,
    cached: Option<&AsterFuturesInstrument>,
    limit: Option<u32>,
) -> (r: Result<TradesQuery, OrderRequestError>)
    ensures
        cached is None ==> r is Err && r->Err_0 is InstrumentNotCached && r->Err_0->symbol@
            == trim_perp(instrument_id.symbol@),
        cached is Some ==> r is Ok && r->Ok_0.size_precision == entry_size_precision(
            *cached->Some_0,
        ) && r->Ok_0.price_precision == entry_price_precision(*cached->Some_0)
            && r->Ok_0.params.symbol@ == trim_perp(instrument_id.symbol@) && r->Ok_0.params.limit
            == limit,
{
    let symbol = format_aster_symbol(instrument_id);
    let size_precision = get_size_precision(cached, &symbol)?;
    let price_precision = get_price_precision(cached, &symbol)?;
    Ok(TradesQuery { params: AsterTradesParams { symbol, limit }, size_precision, price_precision })
}

/// The aggressor side of a trade.
#[derive(Copy, Clone, Debug, PartialEq, Eq, Structural)]
pub enum AggressorSide {
    /// No aggressor.
    NoAggressor,
    /// The buyer was the aggressor.
    Buyer,
    /// The seller was the aggressor.
    Seller,
}

/// The aggressor of a public trade: the seller when the buyer was the maker.
pub fn aggressor_side(is_buyer_maker: bool) -> (s: AggressorSide)
    ensures
        s == (if is_buyer_maker {
            AggressorSide::Seller
        } else {
            AggressorSide::Buyer
        }),
{
    if is_buyer_maker {
        AggressorSide::Seller
    } else {
        AggressorSide::Buyer
    }
}

/// A bar type: the instrument, the bar specification and the aggregation source.
#[derive(Clone, Debug, PartialEq, Eq)]
pub struct BarType {
    /// The instrument.
    pub instrument_id: InstrumentId,
    /// The bar specification.
    pub spec: BarSpecification,
    /// The aggregation source.
    pub aggregation_source: AggregationSource,
}

/// The unit letter of a time-based aggregation in a kline interval.
pub open spec fn interval_unit(agg: BarAggregation) -> Option<char> {
    match agg {
        BarAggregation::Minute => Some('m'),
        BarAggregation::Hour => Some('h'),
        BarAggregation::Day => Some('d'),
        BarAggregation::Week => Some('w'),
        BarAggregation::Month => Some('M'),
        _ => None,
    }
}

/// The kline interval parameter of a bar specification: the step and the unit
/// letter, or why there is none.
pub open spec fn kline_interval_param(spec: BarSpecification) -> Result<Seq<char>, OrderRequestError> {
    if spec.aggregation == BarAggregation::Second {
        Err(OrderRequestError::SecondsUnsupported)
    } else {
        match interval_unit(spec.aggregation) {
            Some(u) => Ok(decimal(spec.step as nat).push(u)),
            None => Err(OrderRequestError::UnsupportedAggregation(spec.aggregation)),
        }
    }
}

proof fn lemma_small_decimals()
    ensures
        decimal(1) == seq!['1'],
        decimal(2) == seq!['2'],
        decimal(3) == seq!['3'],
        decimal(4) == seq!['4'],
        decimal(5) == seq!['5'],
        decimal(6) == seq!['6'],
        decimal(8) == seq!['8'],
        decimal(12) == seq!['1', '2'],
        decimal(15) == seq!['1', '5'],
        decimal(30) == seq!['3', '0'],
{
    assert(decimal(1) == seq!['1']);
    assert(decimal(3) == seq!['3']);
    assert(decimal(0) == seq!['0']);
    assert(decimal(2) == seq!['2']);
    assert(decimal(5) == seq!['5']);
    assert(decimal(12) =~= seq!['1', '2']);
    assert(decimal(15) =~= seq!['1', '5']);
    assert(decimal(30) =~= seq!['3', '0']);
}

/// The kline interval parameter of a bar specification that has an Aster kline
/// interval is that interval's API text: the step and the unit letter of the
/// same aggregation (`m` minutes, `h` hours, `d` days, `w` weeks, `M` months).
pub proof fn kline_param_is_interval_text(spec: BarSpecification)
    ensures
        spec_bar_interval(spec) is Ok ==> kline_interval_param(spec) == Ok::<
            Seq<char>,
            OrderRequestError,
        >(kline_interval_str(spec_bar_interval(spec)->Ok_0)),
{
    lemma_small_decimals();
    reveal_strlit("1m");
    reveal_strlit("3m");
    reveal_strlit("5m");
    reveal_strlit("15m");
    reveal_strlit("30m");
    reveal_strlit("1h");
    reveal_strlit("2h");
    reveal_strlit("4h");
    reveal_strlit("6h");
    reveal_strlit("8h");
    reveal_strlit("12h");
    reveal_strlit("1d");
    reveal_strlit("3d");
    reveal_strlit("1w");
    reveal_strlit("1M");
    if spec_bar_interval(spec) is Ok {
        let text = kline_interval_str(spec_bar_interval(spec)->Ok_0);
        let u = interval_unit(spec.aggregation)->Some_0;
        assert(decimal(spec.step as nat).push(u) =~= text);
    }
}

/// Parameters of a kline query.
#[derive(Clone, Debug, PartialEq, Eq)]
pub struct AsterKlinesParams {
    /// Symbol.
    pub symbol: String,
    /// Interval (e.g. `1m`, `4h`).
    pub interval: String,
    /// Start time (milliseconds).
    pub start_time: Option<i64>,
    /// End time (milliseconds).
    pub end_time: Option<i64>,
    /// Maximum number of klines.
    pub limit: Option<u32>,
}

/// A kline query ready to send, with the precisions of its bars.
#[derive(Clone, Debug, PartialEq, Eq)]
pub struct BarsQuery {
    /// The request parameters.
    pub params: AsterKlinesParams,
    /// The price precision of the instrument.
    pub price_precision: u8,
    /// The size precision of the instrument.
    pub size_precision: u8,
}

/// Builds a kline query for a bar type: only venue-aggregated bars of a time
/// aggregation other than seconds can be requested, and the instrument must be
/// cached.
pub fn build_bars_query(
    bar_type: &BarType,
    cached: Option<&AsterFuturesInstrument>,
    start_ms: Option<i64>,
    end_ms: Option<i64>,
    limit: Option<u32>,
) -> (r: Result<BarsQuery, OrderRequestError>)
    ensures
        bar_type.aggregation_source != AggregationSource::External ==> r == Err::<
            BarsQuery,
            OrderRequestError,
        >(OrderRequestError::ExternalAggregationOnly),
        bar_type.aggregation_source == AggregationSource::External ==> match kline_interval_param(
            bar_type.spec,
        ) {
            Err(e) => r == Err::<BarsQuery, OrderRequestError>(e),
            Ok(interval) => if cached is None {
                r is Err && r->Err_0 is InstrumentNotCached && r->Err_0->symbol@ == trim_perp(
                    bar_type.instrument_id.symbol@,
                )
            } else {
                r is Ok && ({
                    let q = r->Ok_0;
                    &&& q.price_precision == entry_price_precision(*cached->Some_0)
                    &&& q.size_precision == entry_size_precision(*cached->Some_0)
                    &&& q.params.symbol@ == trim_perp(bar_type.instrument_id.symbol@)
                    &&& q.params.interval@ == interval
                    &&& spec_bar_interval(bar_type.spec) is Ok ==> q.params.interval@
                        == kline_interval_str(spec_bar_interval(bar_type.spec)->Ok_0)
                    &&& q.params.start_time == start_ms
                    &&& q.params.end_time == end_ms
                    &&& q.params.limit == limit
                })
            },
        },
{
    if bar_type.aggregation_source != AggregationSource::External {
        return Err(OrderRequestError::ExternalAggregationOnly);
    }
    let spec = bar_type.spec;
    let unit = match spec.aggregation {
        BarAggregation::Second => return Err(OrderRequestError::SecondsUnsupported),
        BarAggregation::Minute => 'm',
        BarAggregation::Hour => 'h',
        BarAggregation::Day => 'd',
        BarAggregation::Week => 'w',
        BarAggregation::Month => 'M',
        a => return Err(OrderRequestError::UnsupportedAggregation(a)),
    };
    let mut interval = String::new();
    push_decimal(&mut interval, spec.step as u64);
    push_char(&mut interval, unit);
    assert(interval@ =~= decimal(spec.step as nat).push(unit));
    proof {
        kline_param_is_interval_text(spec);
    }
    let symbol = format_aster_symbol(&bar_type.instrument_id);
    let price_precision = get_price_precision(cached, &symbol)?;
    let size_precision = get_size_precision(cached, &symbol)?;
    let params = AsterKlinesParams { symbol, interval, start_time: start_ms, end_time: end_ms, limit };
    Ok(BarsQuery { params, price_precision, size_precision })
}

} // verus!
