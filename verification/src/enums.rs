//! Aster enumerations: product types, environments and wire-level codes,
//! with the conversions to and from the trading-domain values.

use vstd::prelude::*;
use vstd::std_specs::convert::FromSpecImpl;
use vstd::std_specs::convert::TryFromSpecImpl;

use crate::model::{
    order_side_debug, order_type_debug, time_in_force_debug, MarketStatusAction, OrderSide,
    OrderType, TimeInForce,
};
use crate::text::{push_str, str_eq, to_uppercase, uppercase_of};

verus! {

/// Aster product type identifier.
///
/// Each product type corresponds to a different Aster API domain and
/// has distinct trading rules and instrument specifications.
#[derive(Copy, Clone, Debug, PartialEq, Eq, Structural, Hash)]
pub enum AsterProductType {
    /// Spot trading (api.asterdex.com).
    Spot,
    /// Spot Margin trading (uses Spot API with margin endpoints).
    Margin,
    /// USD-M Futures - linear perpetuals and delivery futures (fapi.asterdex.com).
    UsdM,
    /// COIN-M Futures - inverse perpetuals and delivery futures (dapi.asterdex.com).
    CoinM,
    /// European Options (eapi.asterdex.com).
    Options,
}

impl Default for AsterProductType {
    fn default() -> (p: Self)
        ensures
            p == AsterProductType::Spot,
    {
        AsterProductType::Spot
    }
}

/// The string an Aster API request uses for a product type.
pub open spec fn product_type_str(p: AsterProductType) -> Seq<char> {
    match p {
        AsterProductType::Spot => "SPOT"@,
        AsterProductType::Margin => "MARGIN"@,
        AsterProductType::UsdM => "USD_M"@,
        AsterProductType::CoinM => "COIN_M"@,
        AsterProductType::Options => "OPTIONS"@,
    }
}

/// The instrument ID suffix of a product type.
pub open spec fn product_type_suffix(p: AsterProductType) -> Seq<char> {
    match p {
        AsterProductType::Spot => "-SPOT"@,
        AsterProductType::Margin => "-MARGIN"@,
        AsterProductType::UsdM => "-LINEAR"@,
        AsterProductType::CoinM => "-INVERSE"@,
        AsterProductType::Options => "-OPTION"@,
    }
}

impl AsterProductType {
    /// Returns the string representation used in API requests.
    pub fn as_str(self) -> (s: &'static str)
        ensures
            s@ == product_type_str(self),
    {
        match self {
            Self::Spot => "SPOT",
            Self::Margin => "MARGIN",
            Self::UsdM => "USD_M",
            Self::CoinM => "COIN_M",
            Self::Options => "OPTIONS",
        }
    }

    /// Returns the instrument ID suffix for this product type.
    pub fn suffix(self) -> (s: &'static str)
        ensures
            s@ == product_type_suffix(self),
    {
        match self {
            Self::Spot => "-SPOT",
            Self::Margin => "-MARGIN",
            Self::UsdM => "-LINEAR",
            Self::CoinM => "-INVERSE",
            Self::Options => "-OPTION",
        }
    }

    /// Returns true if this is a spot product (Spot or Margin).
    pub fn is_spot(self) -> (b: bool)
        ensures
            b <==> (self == AsterProductType::Spot || self == AsterProductType::Margin),
    {
        matches!(self, Self::Spot | Self::Margin)
    }

    /// Returns true if this is a futures product (USD-M or COIN-M).
    pub fn is_futures(self) -> (b: bool)
        ensures
            b <==> (self == AsterProductType::UsdM || self == AsterProductType::CoinM),
    {
        matches!(self, Self::UsdM | Self::CoinM)
    }

    /// Returns true if this is a linear product (Spot, Margin, or USD-M).
    pub fn is_linear(self) -> (b: bool)
        ensures
            b <==> (self == AsterProductType::Spot || self == AsterProductType::Margin
                || self == AsterProductType::UsdM),
    {
        matches!(self, Self::Spot | Self::Margin | Self::UsdM)
    }

    /// Returns true if this is an inverse product (COIN-M).
    pub fn is_inverse(self) -> (b: bool)
        ensures
            b <==> self == AsterProductType::CoinM,
    {
        matches!(self, Self::CoinM)
    }

    /// Returns true if this is an options product.
    pub fn is_options(self) -> (b: bool)
        ensures
            b <==> self == AsterProductType::Options,
    {
        matches!(self, Self::Options)
    }
}

/// Every product type is exactly one of spot, futures or options, and it is
/// linear exactly when it is not inverse and not options.
pub proof fn product_type_classification(p: AsterProductType)
    ensures
        (p == AsterProductType::Spot || p == AsterProductType::Margin)
            || (p == AsterProductType::UsdM || p == AsterProductType::CoinM)
            || p == AsterProductType::Options,
        !((p == AsterProductType::Spot || p == AsterProductType::Margin) && (p
            == AsterProductType::UsdM || p == AsterProductType::CoinM)),
        (p == AsterProductType::Spot || p == AsterProductType::Margin || p
            == AsterProductType::UsdM) <==> !(p == AsterProductType::CoinM || p
            == AsterProductType::Options),
{
}

/// Aster environment type.
#[derive(Copy, Clone, Debug, PartialEq, Eq, Structural, Hash)]
pub enum AsterEnvironment {
    /// Production/mainnet environment.
    Mainnet,
    /// Testnet environment.
    Testnet,
    /// Demo trading environment.
    Demo,
}

impl Default for AsterEnvironment {
    fn default() -> (e: Self)
        ensures
            e == AsterEnvironment::Mainnet,
    {
        AsterEnvironment::Mainnet
    }
}

/// The display name of an environment.
pub open spec fn environment_display(e: AsterEnvironment) -> Seq<char> {
    match e {
        AsterEnvironment::Mainnet => "Mainnet"@,
        AsterEnvironment::Testnet => "Testnet"@,
        AsterEnvironment::Demo => "Demo"@,
    }
}

impl AsterEnvironment {
    /// Returns true if this is the testnet environment.
    pub fn is_testnet(self) -> (b: bool)
        ensures
            b <==> self == AsterEnvironment::Testnet,
    {
        matches!(self, Self::Testnet)
    }

    /// Returns true for any non-production environment.
    pub fn is_sandbox(self) -> (b: bool)
        ensures
            b <==> self != AsterEnvironment::Mainnet,
    {
        matches!(self, Self::Testnet | Self::Demo)
    }

    /// Returns the display name of the environment (`Mainnet`, `Testnet` or `Demo`).
    pub fn display_name(self) -> (s: &'static str)
        ensures
            s@ == environment_display(self),
    {
        match self {
            Self::Mainnet => "Mainnet",
            Self::Testnet => "Testnet",
            Self::Demo => "Demo",
        }
    }
}

/// A value that Aster cannot represent was handed to a conversion.
#[derive(Copy, Clone, Debug, PartialEq, Eq, Structural)]
pub enum AsterConversionError {
    /// The order side has no Aster equivalent.
    UnsupportedOrderSide(OrderSide),
    /// The time in force has no Aster equivalent.
    UnsupportedTimeInForce(TimeInForce),
    /// The order type has no Aster Futures equivalent.
    UnsupportedOrderType(OrderType),
}

/// The message of a conversion error.
pub open spec fn conversion_error_message(e: AsterConversionError) -> Seq<char> {
    match e {
        AsterConversionError::UnsupportedOrderSide(v) => "Unsupported `OrderSide` for Aster: "@
            + order_side_debug(v),
        AsterConversionError::UnsupportedTimeInForce(v) => "Unsupported `TimeInForce` for Aster: "@
            + time_in_force_debug(v),
        AsterConversionError::UnsupportedOrderType(v) => "Unsupported order type for Aster Futures: "@
            + order_type_debug(v),
    }
}

impl AsterConversionError {
    /// Returns the human-readable message of the error, e.g.
    /// `Unsupported order type for Aster Futures: MarketToLimit`.
    pub fn message(&self) -> (s: String)
        ensures
            s@ == conversion_error_message(*self),
    {
        let mut s = String::new();
        match self {
            AsterConversionError::UnsupportedOrderSide(v) => {
                push_str(&mut s, "Unsupported `OrderSide` for Aster: ");
                push_str(&mut s, v.debug_name());
            },
            AsterConversionError::UnsupportedTimeInForce(v) => {
                push_str(&mut s, "Unsupported `TimeInForce` for Aster: ");
                push_str(&mut s, v.debug_name());
            },
            AsterConversionError::UnsupportedOrderType(v) => {
                push_str(&mut s, "Unsupported order type for Aster Futures: ");
                push_str(&mut s, v.debug_name());
            },
        }
        s
    }
}

/// Order side for Aster orders and trades.
#[derive(Copy, Clone, Debug, PartialEq, Eq, Structural, Hash)]
pub enum AsterSide {
    /// Buy side.
    Buy,
    /// Sell side.
    Sell,
}

/// The Aster side of an order side, where there is one.
pub open spec fn aster_side_of(value: OrderSide) -> Result<AsterSide, AsterConversionError> {
    match value {
        OrderSide::Buy => Ok(AsterSide::Buy),
        OrderSide::Sell => Ok(AsterSide::Sell),
        _ => Err(AsterConversionError::UnsupportedOrderSide(value)),
    }
}

/// The order side of an Aster side.
pub open spec fn order_side_of(value: AsterSide) -> OrderSide {
    match value {
        AsterSide::Buy => OrderSide::Buy,
        AsterSide::Sell => OrderSide::Sell,
    }
}

impl TryFrom<OrderSide> for AsterSide {
    type Error = AsterConversionError;

    fn try_from(value: OrderSide) -> (r: Result<Self, Self::Error>) {
        match value {
            OrderSide::Buy => Ok(Self::Buy),
            OrderSide::Sell => Ok(Self::Sell),
            _ => Err(AsterConversionError::UnsupportedOrderSide(value)),
        }
    }
}

impl TryFromSpecImpl<OrderSide> for AsterSide {
    open spec fn obeys_try_from_spec() -> bool {
        true
    }

    open spec fn try_from_spec(v: OrderSide) -> Result<Self, Self::Error> {
        aster_side_of(v)
    }
}

impl From<AsterSide> for OrderSide {
    fn from(value: AsterSide) -> (r: Self) {
        match value {
            AsterSide::Buy => Self::Buy,
            AsterSide::Sell => Self::Sell,
        }
    }
}

impl FromSpecImpl<AsterSide> for OrderSide {
    open spec fn obeys_from_spec() -> bool {
        true
    }

    open spec fn from_spec(v: AsterSide) -> Self {
        order_side_of(v)
    }
}

/// Converting an Aster side to an order side and back gives the same side,
/// and an order side that converts to an Aster side converts back to itself.
pub proof fn side_round_trip(side: AsterSide, order_side: OrderSide)
    ensures
        aster_side_of(order_side_of(side)) == Ok::<AsterSide, AsterConversionError>(side),
        aster_side_of(order_side) is Ok ==> order_side_of(aster_side_of(order_side)->Ok_0)
            == order_side,
        aster_side_of(order_side) is Err <==> order_side == OrderSide::NoOrderSide,
{
}

/// Position side for dual-side position mode.
#[derive(Copy, Clone, Debug, PartialEq, Eq, Structural, Hash)]
pub enum AsterPositionSide {
    /// Single position mode (both).
    Both,
    /// Long position.
    Long,
    /// Short position.
    Short,
    /// Unknown or undocumented value.
    Unknown,
}

/// Margin type applied to a position.
#[derive(Copy, Clone, Debug, PartialEq, Eq, Structural, Hash)]
pub enum AsterMarginType {
    /// Cross margin.
    Cross,
    /// Isolated margin.
    Isolated,
    /// Unknown or undocumented value.
    Unknown,
}

impl Default for AsterMarginType {
    fn default() -> (m: Self)
        ensures
            m == AsterMarginType::Unknown,
    {
        AsterMarginType::Unknown
    }
}

/// Working type for trigger price evaluation.
#[derive(Copy, Clone, Debug, PartialEq, Eq, Structural, Hash)]
pub enum AsterWorkingType {
    /// Use the contract price.
    ContractPrice,
    /// Use the mark price.
    MarkPrice,
    /// Unknown or undocumented value.
    Unknown,
}

/// Order status lifecycle values.
#[derive(Copy, Clone, Debug, PartialEq, Eq, Structural, Hash)]
pub enum AsterOrderStatus {
    /// Order accepted and working.
    New,
    /// Pending new (order list accepted but not yet on book).
    PendingNew,
    /// Partially filled.
    PartiallyFilled,
    /// Fully filled.
    Filled,
    /// Canceled by user or system.
    Canceled,
    /// Pending cancel (not commonly used).
    PendingCancel,
    /// Rejected by exchange.
    Rejected,
    /// Expired.
    Expired,
    /// Expired in match (IOC/FOK not executed).
    ExpiredInMatch,
    /// Liquidation with insurance fund.
    NewInsurance,
    /// Counterparty liquidation (Auto-Deleveraging).
    NewAdl,
    /// Unknown or undocumented value.
    Unknown,
}

/// Algo order status lifecycle values (Aster Futures Algo Service).
#[derive(Copy, Clone, Debug, PartialEq, Eq, Structural, Hash)]
pub enum AsterAlgoStatus {
    /// Algo order accepted and waiting for trigger condition.
    New,
    /// Algo order trigger condition met, forwarding to matching engine.
    Triggering,
    /// Algo order successfully placed in matching engine.
    Triggered,
    /// Algo order lifecycle completed (check executed qty for fill status).
    Finished,
    /// Algo order canceled by user.
    Canceled,
    /// Algo order expired (GTD expiration).
    Expired,
    /// Algo order rejected by exchange.
    Rejected,
    /// Unknown or undocumented value.
    Unknown,
}

/// Algo order type for Aster Futures Algo Service.
#[derive(Copy, Clone, Debug, PartialEq, Eq, Structural, Hash)]
pub enum AsterAlgoType {
    /// Conditional algo order (stop, take-profit, trailing stop).
    Conditional,
    /// Unknown or undocumented value.
    Unknown,
}

impl Default for AsterAlgoType {
    fn default() -> (a: Self)
        ensures
            a == AsterAlgoType::Conditional,
    {
        AsterAlgoType::Conditional
    }
}

/// Futures order type enumeration.
#[derive(Copy, Clone, Debug, PartialEq, Eq, Structural, Hash)]
pub enum AsterFuturesOrderType {
    /// Limit order.
    Limit,
    /// Market order.
    Market,
    /// Stop (stop-limit) order.
    Stop,
    /// Stop market order.
    StopMarket,
    /// Take profit (limit) order.
    TakeProfit,
    /// Take profit market order.
    TakeProfitMarket,
    /// Trailing stop market order.
    TrailingStopMarket,
    /// Liquidation order created by exchange.
    Liquidation,
    /// Auto-deleveraging order created by exchange.
    Adl,
    /// Unknown or undocumented value.
    Unknown,
}

/// The order type of an Aster Futures order type; exchange-generated orders are market orders.
pub open spec fn order_type_of(value: AsterFuturesOrderType) -> OrderType {
    match value {
        AsterFuturesOrderType::Limit => OrderType::Limit,
        AsterFuturesOrderType::Market => OrderType::Market,
        AsterFuturesOrderType::Stop => OrderType::StopLimit,
        AsterFuturesOrderType::StopMarket => OrderType::StopMarket,
        AsterFuturesOrderType::TakeProfit => OrderType::LimitIfTouched,
        AsterFuturesOrderType::TakeProfitMarket => OrderType::MarketIfTouched,
        AsterFuturesOrderType::TrailingStopMarket => OrderType::TrailingStopMarket,
        AsterFuturesOrderType::Liquidation
        | AsterFuturesOrderType::Adl
        | AsterFuturesOrderType::Unknown => OrderType::Market,
    }
}

/// The Aster Futures order type of an order type, where there is one.
pub open spec fn aster_futures_order_type_of(order_type: OrderType) -> Result<
    AsterFuturesOrderType,
    AsterConversionError,
> {
    match order_type {
        OrderType::Market => Ok(AsterFuturesOrderType::Market),
        OrderType::Limit => Ok(AsterFuturesOrderType::Limit),
        OrderType::StopMarket => Ok(AsterFuturesOrderType::StopMarket),
        OrderType::StopLimit => Ok(AsterFuturesOrderType::Stop),
        OrderType::MarketIfTouched => Ok(AsterFuturesOrderType::TakeProfitMarket),
        OrderType::LimitIfTouched => Ok(AsterFuturesOrderType::TakeProfit),
        OrderType::TrailingStopMarket => Ok(AsterFuturesOrderType::TrailingStopMarket),
        _ => Err(AsterConversionError::UnsupportedOrderType(order_type)),
    }
}

impl From<AsterFuturesOrderType> for OrderType {
    fn from(value: AsterFuturesOrderType) -> (r: Self) {
        match value {
            AsterFuturesOrderType::Limit => Self::Limit,
            AsterFuturesOrderType::Market => Self::Market,
            AsterFuturesOrderType::Stop => Self::StopLimit,
            AsterFuturesOrderType::StopMarket => Self::StopMarket,
            AsterFuturesOrderType::TakeProfit => Self::LimitIfTouched,
            AsterFuturesOrderType::TakeProfitMarket => Self::MarketIfTouched,
            AsterFuturesOrderType::TrailingStopMarket => Self::TrailingStopMarket,
            AsterFuturesOrderType::Liquidation
            | AsterFuturesOrderType::Adl
            | AsterFuturesOrderType::Unknown => Self::Market,
        }
    }
}

impl FromSpecImpl<AsterFuturesOrderType> for OrderType {
    open spec fn obeys_from_spec() -> bool {
        true
    }

    open spec fn from_spec(v: AsterFuturesOrderType) -> Self {
        order_type_of(v)
    }
}

/// Converts an order type to an Aster Futures order type.
pub fn order_type_to_aster_futures(order_type: OrderType) -> (r: Result<
    AsterFuturesOrderType,
    AsterConversionError,
>)
    ensures
        r == aster_futures_order_type_of(order_type),
{
    match order_type {
        OrderType::Market => Ok(AsterFuturesOrderType::Market),
        OrderType::Limit => Ok(AsterFuturesOrderType::Limit),
        OrderType::StopMarket => Ok(AsterFuturesOrderType::StopMarket),
        OrderType::StopLimit => Ok(AsterFuturesOrderType::Stop),
        OrderType::MarketIfTouched => Ok(AsterFuturesOrderType::TakeProfitMarket),
        OrderType::LimitIfTouched => Ok(AsterFuturesOrderType::TakeProfit),
        OrderType::TrailingStopMarket => Ok(AsterFuturesOrderType::TrailingStopMarket),
        _ => Err(AsterConversionError::UnsupportedOrderType(order_type)),
    }
}

/// Every order type that has an Aster Futures order type converts back to itself.
pub proof fn order_type_round_trip(order_type: OrderType)
    ensures
        aster_futures_order_type_of(order_type) is Ok ==> order_type_of(
            aster_futures_order_type_of(order_type)->Ok_0,
        ) == order_type,
        aster_futures_order_type_of(order_type) is Err <==> (order_type == OrderType::MarketToLimit
            || order_type == OrderType::TrailingStopLimit),
{
}

/// Time in force options.
#[derive(Copy, Clone, Debug, PartialEq, Eq, Structural, Hash)]
pub enum AsterTimeInForce {
    /// Good till canceled.
    Gtc,
    /// Immediate or cancel.
    Ioc,
    /// Fill or kill.
    Fok,
    /// Good till crossing (post-only).
    Gtx,
    /// Good till date (kept for compatibility; Aster does not accept it for submission).
    Gtd,
    /// Request-for-quote interactive (USD-M Futures).
    Rpi,
    /// Aster-specific: order not visible in order book.
    Hidden,
    /// Unknown or undocumented value.
    Unknown,
}

/// The debug name of an Aster time in force (its variant name).
pub open spec fn aster_time_in_force_debug(v: AsterTimeInForce) -> Seq<char> {
    match v {
        AsterTimeInForce::Gtc => "Gtc"@,
        AsterTimeInForce::Ioc => "Ioc"@,
        AsterTimeInForce::Fok => "Fok"@,
        AsterTimeInForce::Gtx => "Gtx"@,
        AsterTimeInForce::Gtd => "Gtd"@,
        AsterTimeInForce::Rpi => "Rpi"@,
        AsterTimeInForce::Hidden => "Hidden"@,
        AsterTimeInForce::Unknown => "Unknown"@,
    }
}

/// The Aster time in force of a time in force, where there is one.
pub open spec fn aster_time_in_force_of(value: TimeInForce) -> Result<
    AsterTimeInForce,
    AsterConversionError,
> {
    match value {
        TimeInForce::Gtc => Ok(AsterTimeInForce::Gtc),
        TimeInForce::Ioc => Ok(AsterTimeInForce::Ioc),
        TimeInForce::Fok => Ok(AsterTimeInForce::Fok),
        TimeInForce::Gtd => Ok(AsterTimeInForce::Gtd),
        _ => Err(AsterConversionError::UnsupportedTimeInForce(value)),
    }
}

impl TryFrom<TimeInForce> for AsterTimeInForce {
    type Error = AsterConversionError;

    fn try_from(value: TimeInForce) -> (r: Result<Self, Self::Error>) {
        match value {
            TimeInForce::Gtc => Ok(Self::Gtc),
            TimeInForce::Ioc => Ok(Self::Ioc),
            TimeInForce::Fok => Ok(Self::Fok),
            TimeInForce::Gtd => Ok(Self::Gtd),
            _ => Err(AsterConversionError::UnsupportedTimeInForce(value)),
        }
    }
}

impl TryFromSpecImpl<TimeInForce> for AsterTimeInForce {
    open spec fn obeys_try_from_spec() -> bool {
        true
    }

    open spec fn try_from_spec(v: TimeInForce) -> Result<Self, Self::Error> {
        aster_time_in_force_of(v)
    }
}

/// A time in force converts to the Aster time in force of the same meaning:
/// good till canceled, immediate or cancel, fill or kill and good till date each
/// keep their name, so no two of them share an Aster value; day, at the open and
/// at the close have none.
pub proof fn aster_time_in_force_keeps_meaning(t: TimeInForce, u: TimeInForce)
    ensures
        aster_time_in_force_of(t) is Ok <==> (t == TimeInForce::Gtc || t == TimeInForce::Ioc || t
            == TimeInForce::Fok || t == TimeInForce::Gtd),
        aster_time_in_force_of(t) is Ok ==> aster_time_in_force_debug(
            aster_time_in_force_of(t)->Ok_0,
        ) == time_in_force_debug(t),
        aster_time_in_force_of(t) is Err ==> aster_time_in_force_of(t) == Err::<
            AsterTimeInForce,
            AsterConversionError,
        >(AsterConversionError::UnsupportedTimeInForce(t)),
        aster_time_in_force_of(t) is Ok && aster_time_in_force_of(t) == aster_time_in_force_of(u)
            ==> t == u,
{
}

/// Income type for account income history.
#[derive(Copy, Clone, Debug, PartialEq, Eq, Structural, Hash)]
pub enum AsterIncomeType {
    /// Internal transfers.
    Transfer,
    /// Welcome bonus.
    WelcomeBonus,
    /// Realized profit and loss.
    RealizedPnl,
    /// Funding fee payments/receipts.
    FundingFee,
    /// Trading commission.
    Commission,
    /// Commission rebate.
    CommissionRebate,
    /// API rebate.
    ApiRebate,
    /// Insurance clear.
    InsuranceClear,
    /// Referral kickback.
    ReferralKickback,
    /// Contest reward.
    ContestReward,
    /// Cross collateral transfer.
    CrossCollateralTransfer,
    /// Options premium fee.
    OptionsPremiumFee,
    /// Options settle profit.
    OptionsSettleProfit,
    /// Internal transfer.
    InternalTransfer,
    /// Auto exchange.
    AutoExchange,
    /// Delivered settlement.
    DeliveredSettlement,
    /// Coin swap deposit.
    CoinSwapDeposit,
    /// Coin swap withdraw.
    CoinSwapWithdraw,
    /// Position limit increase fee.
    PositionLimitIncreaseFee,
    /// Strategy UM futures transfer.
    StrategyUmfuturesTransfer,
    /// Fee return.
    FeeReturn,
    /// BFUSD reward.
    BfusdReward,
    /// Unknown or undocumented value.
    Unknown,
}

/// Price match mode for futures maker orders.
#[derive(Copy, Clone, Debug, PartialEq, Eq, Structural, Hash)]
pub enum AsterPriceMatch {
    /// No price match (the wire value `NONE`, the default).
    NoPriceMatch,
    /// Match opposing side.
    Opponent,
    /// Match opposing side with 5 tick offset.
    Opponent5,
    /// Match opposing side with 10 tick offset.
    Opponent10,
    /// Match opposing side with 20 tick offset.
    Opponent20,
    /// Join current queue on same side.
    Queue,
    /// Join queue with 5 tick offset.
    Queue5,
    /// Join queue with 10 tick offset.
    Queue10,
    /// Join queue with 20 tick offset.
    Queue20,
    /// Unknown or undocumented value.
    Unknown,
}

/// The price match mode that an upper-case request parameter selects, if any.
/// `NONE` and undocumented values select none.
pub open spec fn price_match_param(upper: Seq<char>) -> Option<AsterPriceMatch> {
    if upper == "OPPONENT"@ {
        Some(AsterPriceMatch::Opponent)
    } else if upper == "OPPONENT_5"@ {
        Some(AsterPriceMatch::Opponent5)
    } else if upper == "OPPONENT_10"@ {
        Some(AsterPriceMatch::Opponent10)
    } else if upper == "OPPONENT_20"@ {
        Some(AsterPriceMatch::Opponent20)
    } else if upper == "QUEUE"@ {
        Some(AsterPriceMatch::Queue)
    } else if upper == "QUEUE_5"@ {
        Some(AsterPriceMatch::Queue5)
    } else if upper == "QUEUE_10"@ {
        Some(AsterPriceMatch::Queue10)
    } else if upper == "QUEUE_20"@ {
        Some(AsterPriceMatch::Queue20)
    } else {
        None
    }
}

/// A request parameter names no price match mode that can be requested.
#[derive(Clone, Debug, PartialEq, Eq)]
pub struct InvalidPriceMatch {
    /// The value that was given.
    pub value: String,
}

impl AsterPriceMatch {
    /// Parses a price match mode from a string param value.
    ///
    /// Accepts the Aster API values like `"OPPONENT"`, `"OPPONENT_5"`, `"QUEUE_10"`
    /// in any letter case. `NONE` and unrecognized values are errors.
    pub fn from_param(s: &str) -> (r: Result<Self, InvalidPriceMatch>)
        ensures
            match price_match_param(uppercase_of(s@)) {
                Some(pm) => r == Ok::<AsterPriceMatch, InvalidPriceMatch>(pm),
                None => r is Err && r->Err_0.value@ == s@,
            },
    {
        let upper = to_uppercase(s);
        match Self::from_upper_param(upper.as_str()) {
            Some(pm) => Ok(pm),
            None => Err(InvalidPriceMatch { value: s.to_owned() }),
        }
    }

    /// The price match mode that an upper-case parameter value selects:
    /// `"OPPONENT"`, `"OPPONENT_5"`, ..., `"QUEUE_20"`; `None` for `"NONE"` and
    /// any other value.
    pub fn from_upper_param(u: &str) -> (r: Option<Self>)
        ensures
            r == price_match_param(u@),
    {
        if str_eq(u, "OPPONENT") {
            Some(Self::Opponent)
        } else if str_eq(u, "OPPONENT_5") {
            Some(Self::Opponent5)
        } else if str_eq(u, "OPPONENT_10") {
            Some(Self::Opponent10)
        } else if str_eq(u, "OPPONENT_20") {
            Some(Self::Opponent20)
        } else if str_eq(u, "QUEUE") {
            Some(Self::Queue)
        } else if str_eq(u, "QUEUE_5") {
            Some(Self::Queue5)
        } else if str_eq(u, "QUEUE_10") {
            Some(Self::Queue10)
        } else if str_eq(u, "QUEUE_20") {
            Some(Self::Queue20)
        } else {
            None
        }
    }
}

/// Self-trade prevention mode.
#[derive(Copy, Clone, Debug, PartialEq, Eq, Structural, Hash)]
pub enum AsterSelfTradePreventionMode {
    /// No self-trade prevention (the wire value `NONE`).
    NoPrevention,
    /// Expire maker orders on self-trade.
    ExpireMaker,
    /// Expire taker orders on self-trade.
    ExpireTaker,
    /// Expire both sides on self-trade.
    ExpireBoth,
    /// Decrement and cancel (spot).
    Decrement,
    /// Transfer to sub-account (spot).
    Transfer,
    /// Unknown or undocumented value.
    Unknown,
}

/// Trading status for symbols.
#[derive(Copy, Clone, Debug, PartialEq, Eq, Structural, Hash)]
pub enum AsterTradingStatus {
    /// Trading is active.
    Trading,
    /// Pending activation.
    PendingTrading,
    /// Pre-trading session.
    PreTrading,
    /// Post-trading session.
    PostTrading,
    /// End of day.
    EndOfDay,
    /// Trading halted.
    Halt,
    /// Auction match.
    AuctionMatch,
    /// Break period.
    Break,
    /// Unknown or undocumented value.
    Unknown,
}

/// The market status action of a symbol trading status.
pub open spec fn trading_status_action(status: AsterTradingStatus) -> MarketStatusAction {
    match status {
        AsterTradingStatus::Trading => MarketStatusAction::Trading,
        AsterTradingStatus::PendingTrading | AsterTradingStatus::PreTrading => MarketStatusAction::PreOpen,
        AsterTradingStatus::PostTrading => MarketStatusAction::PostClose,
        AsterTradingStatus::EndOfDay => MarketStatusAction::Close,
        AsterTradingStatus::Halt => MarketStatusAction::Halt,
        AsterTradingStatus::AuctionMatch => MarketStatusAction::Cross,
        AsterTradingStatus::Break => MarketStatusAction::Pause,
        AsterTradingStatus::Unknown => MarketStatusAction::NotAvailableForTrading,
    }
}

impl From<AsterTradingStatus> for MarketStatusAction {
    fn from(status: AsterTradingStatus) -> (r: Self) {
        match status {
            AsterTradingStatus::Trading => Self::Trading,
            AsterTradingStatus::PendingTrading | AsterTradingStatus::PreTrading => Self::PreOpen,
            AsterTradingStatus::PostTrading => Self::PostClose,
            AsterTradingStatus::EndOfDay => Self::Close,
            AsterTradingStatus::Halt => Self::Halt,
            AsterTradingStatus::AuctionMatch => Self::Cross,
            AsterTradingStatus::Break => Self::Pause,
            AsterTradingStatus::Unknown => Self::NotAvailableForTrading,
        }
    }
}

impl FromSpecImpl<AsterTradingStatus> for MarketStatusAction {
    open spec fn obeys_from_spec() -> bool {
        true
    }

    open spec fn from_spec(v: AsterTradingStatus) -> Self {
        trading_status_action(v)
    }
}

/// Contract status for coin-margined futures.
#[derive(Copy, Clone, Debug, PartialEq, Eq, Structural, Hash)]
pub enum AsterContractStatus {
    /// Trading is active.
    Trading,
    /// Pending trading.
    PendingTrading,
    /// Pre-delivering.
    PreDelivering,
    /// Delivering.
    Delivering,
    /// Delivered.
    Delivered,
    /// Pre-settle.
    PreSettle,
    /// Settling.
    Settling,
    /// Closed.
    Close,
    /// Pre-delist.
    PreDelisting,
    /// Delisting in progress.
    Delisting,
    /// Contract down.
    Down,
    /// Unknown or undocumented value.
    Unknown,
}

/// The market status action of a contract status.
pub open spec fn contract_status_action(status: AsterContractStatus) -> MarketStatusAction {
    match status {
        AsterContractStatus::Trading => MarketStatusAction::Trading,
        AsterContractStatus::PendingTrading => MarketStatusAction::PreOpen,
        AsterContractStatus::PreDelivering
        | AsterContractStatus::PreDelisting
        | AsterContractStatus::PreSettle => MarketStatusAction::PreClose,
        AsterContractStatus::Delivering
        | AsterContractStatus::Delivered
        | AsterContractStatus::Settling
        | AsterContractStatus::Close => MarketStatusAction::Close,
        AsterContractStatus::Delisting => MarketStatusAction::Suspend,
        AsterContractStatus::Down | AsterContractStatus::Unknown => MarketStatusAction::NotAvailableForTrading,
    }
}

impl From<AsterContractStatus> for MarketStatusAction {
    fn from(status: AsterContractStatus) -> (r: Self) {
        match status {
            AsterContractStatus::Trading => Self::Trading,
            AsterContractStatus::PendingTrading => Self::PreOpen,
            AsterContractStatus::PreDelivering
            | AsterContractStatus::PreDelisting
            | AsterContractStatus::PreSettle => Self::PreClose,
            AsterContractStatus::Delivering
            | AsterContractStatus::Delivered
            | AsterContractStatus::Settling
            | AsterContractStatus::Close => Self::Close,
            AsterContractStatus::Delisting => Self::Suspend,
            AsterContractStatus::Down | AsterContractStatus::Unknown => Self::NotAvailableForTrading,
        }
    }
}

impl FromSpecImpl<AsterContractStatus> for MarketStatusAction {
    open spec fn obeys_from_spec() -> bool {
        true
    }

    open spec fn from_spec(v: AsterContractStatus) -> Self {
        contract_status_action(v)
    }
}

/// A symbol or contract maps to the trading action exactly when its status is trading.
pub proof fn status_trading_iff(t: AsterTradingStatus, c: AsterContractStatus)
    ensures
        trading_status_action(t) == MarketStatusAction::Trading <==> t == AsterTradingStatus::Trading,
        contract_status_action(c) == MarketStatusAction::Trading <==> c == AsterContractStatus::Trading,
{
}

/// The debug name of a trading status (its variant name).
pub open spec fn trading_status_debug(v: AsterTradingStatus) -> Seq<char> {
    match v {
        AsterTradingStatus::Trading => "Trading"@,
        AsterTradingStatus::PendingTrading => "PendingTrading"@,
        AsterTradingStatus::PreTrading => "PreTrading"@,
        AsterTradingStatus::PostTrading => "PostTrading"@,
        AsterTradingStatus::EndOfDay => "EndOfDay"@,
        AsterTradingStatus::Halt => "Halt"@,
        AsterTradingStatus::AuctionMatch => "AuctionMatch"@,
        AsterTradingStatus::Break => "Break"@,
        AsterTradingStatus::Unknown => "Unknown"@,
    }
}

impl AsterTradingStatus {
    /// Returns the debug name of the value (its variant name).
    pub fn debug_name(self) -> (s: &'static str)
        ensures
            s@ == trading_status_debug(self),
    {
        match self {
            AsterTradingStatus::Trading => "Trading",
            AsterTradingStatus::PendingTrading => "PendingTrading",
            AsterTradingStatus::PreTrading => "PreTrading",
            AsterTradingStatus::PostTrading => "PostTrading",
            AsterTradingStatus::EndOfDay => "EndOfDay",
            AsterTradingStatus::Halt => "Halt",
            AsterTradingStatus::AuctionMatch => "AuctionMatch",
            AsterTradingStatus::Break => "Break",
            AsterTradingStatus::Unknown => "Unknown",
        }
    }
}

/// The debug name of a contract status (its variant name).
pub open spec fn contract_status_debug(v: AsterContractStatus) -> Seq<char> {
    match v {
        AsterContractStatus::Trading => "Trading"@,
        AsterContractStatus::PendingTrading => "PendingTrading"@,
        AsterContractStatus::PreDelivering => "PreDelivering"@,
        AsterContractStatus::Delivering => "Delivering"@,
        AsterContractStatus::Delivered => "Delivered"@,
        AsterContractStatus::PreSettle => "PreSettle"@,
        AsterContractStatus::Settling => "Settling"@,
        AsterContractStatus::Close => "Close"@,
        AsterContractStatus::PreDelisting => "PreDelisting"@,
        AsterContractStatus::Delisting => "Delisting"@,
        AsterContractStatus::Down => "Down"@,
        AsterContractStatus::Unknown => "Unknown"@,
    }
}

impl AsterContractStatus {
    /// Returns the debug name of the value (its variant name).
    pub fn debug_name(self) -> (s: &'static str)
        ensures
            s@ == contract_status_debug(self),
    {
        match self {
            AsterContractStatus::Trading => "Trading",
            AsterContractStatus::PendingTrading => "PendingTrading",
            AsterContractStatus::PreDelivering => "PreDelivering",
            AsterContractStatus::Delivering => "Delivering",
            AsterContractStatus::Delivered => "Delivered",
            AsterContractStatus::PreSettle => "PreSettle",
            AsterContractStatus::Settling => "Settling",
            AsterContractStatus::Close => "Close",
            AsterContractStatus::PreDelisting => "PreDelisting",
            AsterContractStatus::Delisting => "Delisting",
            AsterContractStatus::Down => "Down",
            AsterContractStatus::Unknown => "Unknown",
        }
    }
}

/// WebSocket stream event types (the "e" field of WebSocket JSON messages).
#[derive(Copy, Clone, Debug, PartialEq, Eq, Structural, Hash)]
pub enum AsterWsEventType {
    /// Aggregate trade event.
    AggTrade,
    /// Individual trade event.
    Trade,
    /// Book ticker (best bid/ask) event.
    BookTicker,
    /// Depth update (order book delta) event.
    DepthUpdate,
    /// Mark price update event.
    MarkPriceUpdate,
    /// Kline/candlestick event.
    Kline,
    /// Forced liquidation order event.
    ForceOrder,
    /// 24-hour rolling ticker event.
    Ticker24Hr,
    /// 24-hour rolling mini ticker event.
    MiniTicker24Hr,
    /// Account update (balance and position changes).
    AccountUpdate,
    /// Order/trade update event.
    OrderTradeUpdate,
    /// Algo order update event (Aster Futures Algo Service).
    AlgoUpdate,
    /// Margin call warning event.
    MarginCall,
    /// Account configuration update (leverage change).
    AccountConfigUpdate,
    /// Listen key expired event.
    ListenKeyExpired,
    /// Unknown or undocumented event type.
    Unknown,
}

/// The wire string of a WebSocket event type.
pub open spec fn ws_event_type_str(e: AsterWsEventType) -> Seq<char> {
    match e {
        AsterWsEventType::AggTrade => "aggTrade"@,
        AsterWsEventType::Trade => "trade"@,
        AsterWsEventType::BookTicker => "bookTicker"@,
        AsterWsEventType::DepthUpdate => "depthUpdate"@,
        AsterWsEventType::MarkPriceUpdate => "markPriceUpdate"@,
        AsterWsEventType::Kline => "kline"@,
        AsterWsEventType::ForceOrder => "forceOrder"@,
        AsterWsEventType::Ticker24Hr => "24hrTicker"@,
        AsterWsEventType::MiniTicker24Hr => "24hrMiniTicker"@,
        AsterWsEventType::AccountUpdate => "ACCOUNT_UPDATE"@,
        AsterWsEventType::OrderTradeUpdate => "ORDER_TRADE_UPDATE"@,
        AsterWsEventType::AlgoUpdate => "ALGO_UPDATE"@,
        AsterWsEventType::MarginCall => "MARGIN_CALL"@,
        AsterWsEventType::AccountConfigUpdate => "ACCOUNT_CONFIG_UPDATE"@,
        AsterWsEventType::ListenKeyExpired => "listenKeyExpired"@,
        AsterWsEventType::Unknown => "unknown"@,
    }
}

impl AsterWsEventType {
    /// Returns the wire format string for this event type.
    pub fn as_str(self) -> (s: &'static str)
        ensures
            s@ == ws_event_type_str(self),
    {
        match self {
            Self::AggTrade => "aggTrade",
            Self::Trade => "trade",
            Self::BookTicker => "bookTicker",
            Self::DepthUpdate => "depthUpdate",
            Self::MarkPriceUpdate => "markPriceUpdate",
            Self::Kline => "kline",
            Self::ForceOrder => "forceOrder",
            Self::Ticker24Hr => "24hrTicker",
            Self::MiniTicker24Hr => "24hrMiniTicker",
            Self::AccountUpdate => "ACCOUNT_UPDATE",
            Self::OrderTradeUpdate => "ORDER_TRADE_UPDATE",
            Self::AlgoUpdate => "ALGO_UPDATE",
            Self::MarginCall => "MARGIN_CALL",
            Self::AccountConfigUpdate => "ACCOUNT_CONFIG_UPDATE",
            Self::ListenKeyExpired => "listenKeyExpired",
            Self::Unknown => "unknown",
        }
    }
}

/// The event type a wire string names: the event whose wire string it is, or
/// `Unknown` for any other string.
pub open spec fn ws_event_type_of_wire(s: Seq<char>) -> AsterWsEventType {
    if s == "aggTrade"@ {
        AsterWsEventType::AggTrade
    } else if s == "trade"@ {
        AsterWsEventType::Trade
    } else if s == "bookTicker"@ {
        AsterWsEventType::BookTicker
    } else if s == "depthUpdate"@ {
        AsterWsEventType::DepthUpdate
    } else if s == "markPriceUpdate"@ {
        AsterWsEventType::MarkPriceUpdate
    } else if s == "kline"@ {
        AsterWsEventType::Kline
    } else if s == "forceOrder"@ {
        AsterWsEventType::ForceOrder
    } else if s == "24hrTicker"@ {
        AsterWsEventType::Ticker24Hr
    } else if s == "24hrMiniTicker"@ {
        AsterWsEventType::MiniTicker24Hr
    } else if s == "ACCOUNT_UPDATE"@ {
        AsterWsEventType::AccountUpdate
    } else if s == "ORDER_TRADE_UPDATE"@ {
        AsterWsEventType::OrderTradeUpdate
    } else if s == "ALGO_UPDATE"@ {
        AsterWsEventType::AlgoUpdate
    } else if s == "MARGIN_CALL"@ {
        AsterWsEventType::MarginCall
    } else if s == "ACCOUNT_CONFIG_UPDATE"@ {
        AsterWsEventType::AccountConfigUpdate
    } else if s == "listenKeyExpired"@ {
        AsterWsEventType::ListenKeyExpired
    } else {
        AsterWsEventType::Unknown
    }
}

impl AsterWsEventType {
    /// Reads an event type from its wire string; strings that name no known
    /// event give `Unknown`.
    pub fn from_wire(s: &str) -> (e: Self)
        ensures
            e == ws_event_type_of_wire(s@),
    {
        if str_eq(s, "aggTrade") {
            Self::AggTrade
        } else if str_eq(s, "trade") {
            Self::Trade
        } else if str_eq(s, "bookTicker") {
            Self::BookTicker
        } else if str_eq(s, "depthUpdate") {
            Self::DepthUpdate
        } else if str_eq(s, "markPriceUpdate") {
            Self::MarkPriceUpdate
        } else if str_eq(s, "kline") {
            Self::Kline
        } else if str_eq(s, "forceOrder") {
            Self::ForceOrder
        } else if str_eq(s, "24hrTicker") {
            Self::Ticker24Hr
        } else if str_eq(s, "24hrMiniTicker") {
            Self::MiniTicker24Hr
        } else if str_eq(s, "ACCOUNT_UPDATE") {
            Self::AccountUpdate
        } else if str_eq(s, "ORDER_TRADE_UPDATE") {
            Self::OrderTradeUpdate
        } else if str_eq(s, "ALGO_UPDATE") {
            Self::AlgoUpdate
        } else if str_eq(s, "MARGIN_CALL") {
            Self::MarginCall
        } else if str_eq(s, "ACCOUNT_CONFIG_UPDATE") {
            Self::AccountConfigUpdate
        } else if str_eq(s, "listenKeyExpired") {
            Self::ListenKeyExpired
        } else {
            Self::Unknown
        }
    }
}

/// Reading the wire string of a known event type gives that event type back.
pub proof fn ws_event_type_wire_round_trip(e: AsterWsEventType)
    requires
        e != AsterWsEventType::Unknown,
    ensures
        ws_event_type_of_wire(ws_event_type_str(e)) == e,
{
    reveal_strlit("aggTrade");
    reveal_strlit("trade");
    reveal_strlit("bookTicker");
    reveal_strlit("depthUpdate");
    reveal_strlit("markPriceUpdate");
    reveal_strlit("kline");
    reveal_strlit("forceOrder");
    reveal_strlit("24hrTicker");
    reveal_strlit("24hrMiniTicker");
    reveal_strlit("ACCOUNT_UPDATE");
    reveal_strlit("ORDER_TRADE_UPDATE");
    reveal_strlit("ALGO_UPDATE");
    reveal_strlit("MARGIN_CALL");
    reveal_strlit("ACCOUNT_CONFIG_UPDATE");
    reveal_strlit("listenKeyExpired");
    let s = ws_event_type_str(e);
    if e != AsterWsEventType::AggTrade {
        assert(s.len() != "aggTrade"@.len() || s[0] != "aggTrade"@[0]);
    }
    if e != AsterWsEventType::Trade {
        assert(s.len() != "trade"@.len() || s[0] != "trade"@[0]);
    }
    if e != AsterWsEventType::BookTicker {
        assert(s.len() != "bookTicker"@.len() || s[0] != "bookTicker"@[0]);
    }
    if e != AsterWsEventType::DepthUpdate {
        assert(s.len() != "depthUpdate"@.len() || s[0] != "depthUpdate"@[0]);
    }
    if e != AsterWsEventType::MarkPriceUpdate {
        assert(s.len() != "markPriceUpdate"@.len() || s[0] != "markPriceUpdate"@[0]);
    }
    if e != AsterWsEventType::Kline {
        assert(s.len() != "kline"@.len() || s[0] != "kline"@[0]);
    }
    if e != AsterWsEventType::ForceOrder {
        assert(s.len() != "forceOrder"@.len() || s[0] != "forceOrder"@[0]);
    }
    if e != AsterWsEventType::Ticker24Hr {
        assert(s.len() != "24hrTicker"@.len() || s[0] != "24hrTicker"@[0]);
    }
    if e != AsterWsEventType::MiniTicker24Hr {
        assert(s.len() != "24hrMiniTicker"@.len() || s[0] != "24hrMiniTicker"@[0]);
    }
    if e != AsterWsEventType::AccountUpdate {
        assert(s.len() != "ACCOUNT_UPDATE"@.len() || s[0] != "ACCOUNT_UPDATE"@[0]);
    }
    if e != AsterWsEventType::OrderTradeUpdate {
        assert(s.len() != "ORDER_TRADE_UPDATE"@.len() || s[0] != "ORDER_TRADE_UPDATE"@[0]);
    }
    if e != AsterWsEventType::AlgoUpdate {
        assert(s.len() != "ALGO_UPDATE"@.len() || s[0] != "ALGO_UPDATE"@[0]);
    }
    if e != AsterWsEventType::MarginCall {
        assert(s.len() != "MARGIN_CALL"@.len() || s[0] != "MARGIN_CALL"@[0]);
    }
    if e != AsterWsEventType::AccountConfigUpdate {
        assert(s.len() != "ACCOUNT_CONFIG_UPDATE"@.len() || s[0] != "ACCOUNT_CONFIG_UPDATE"@[0]);
    }
    if e != AsterWsEventType::ListenKeyExpired {
        assert(s.len() != "listenKeyExpired"@.len() || s[0] != "listenKeyExpired"@[0]);
    }
}

/// WebSocket request method (operation type).
#[derive(Copy, Clone, Debug, PartialEq, Eq, Structural, Hash)]
pub enum AsterWsMethod {
    /// Subscribe to streams.
    Subscribe,
    /// Unsubscribe from streams.
    Unsubscribe,
}

/// Filter type identifiers returned in exchange info.
#[derive(Copy, Clone, Debug, PartialEq, Eq, Structural, Hash)]
pub enum AsterFilterType {
    /// Price filter.
    PriceFilter,
    /// Percent price filter.
    PercentPrice,
    /// Percent price by side filter (spot).
    PercentPriceBySide,
    /// Lot size filter.
    LotSize,
    /// Market lot size filter.
    MarketLotSize,
    /// Notional filter (spot).
    Notional,
    /// Min notional filter (futures).
    MinNotional,
    /// Iceberg parts filter (spot).
    IcebergParts,
    /// Maximum number of orders filter.
    MaxNumOrders,
    /// Maximum number of algo orders filter.
    MaxNumAlgoOrders,
    /// Maximum number of iceberg orders filter (spot).
    MaxNumIcebergOrders,
    /// Maximum position filter (spot).
    MaxPosition,
    /// Trailing delta filter (spot).
    TrailingDelta,
    /// Maximum number of order amends filter (spot).
    MaxNumOrderAmends,
    /// Maximum number of order lists filter (spot).
    MaxNumOrderLists,
    /// Maximum asset filter (spot).
    MaxAsset,
    /// Exchange-level maximum number of orders.
    ExchangeMaxNumOrders,
    /// Exchange-level maximum number of algo orders.
    ExchangeMaxNumAlgoOrders,
    /// Exchange-level maximum number of iceberg orders.
    ExchangeMaxNumIcebergOrders,
    /// Exchange-level maximum number of order lists.
    ExchangeMaxNumOrderLists,
    /// T+1 sell restriction filter (spot).
    TPlusSell,
    /// Unknown or undocumented value.
    Unknown,
}

/// Rate limit type for API request quotas.
#[derive(Copy, Clone, Debug, PartialEq, Eq, Structural, Hash)]
pub enum AsterRateLimitType {
    /// Weighted request limit.
    RequestWeight,
    /// Order placement limit.
    Orders,
    /// Raw request count limit (spot).
    RawRequests,
    /// Unknown or undocumented value.
    Unknown,
}

/// Rate limit time interval.
#[derive(Copy, Clone, Debug, PartialEq, Eq, Structural, Hash)]
pub enum AsterRateLimitInterval {
    /// One second interval.
    Second,
    /// One minute interval.
    Minute,
    /// One day interval.
    Day,
    /// Unknown or undocumented value.
    Unknown,
}

/// The name of a rate limit interval variant (its debug form).
pub open spec fn rate_limit_interval_name(i: AsterRateLimitInterval) -> Seq<char> {
    match i {
        AsterRateLimitInterval::Second => "Second"@,
        AsterRateLimitInterval::Minute => "Minute"@,
        AsterRateLimitInterval::Day => "Day"@,
        AsterRateLimitInterval::Unknown => "Unknown"@,
    }
}

impl AsterRateLimitInterval {
    /// Returns the variant name of the interval, as its debug form prints it.
    pub fn variant_name(self) -> (s: &'static str)
        ensures
            s@ == rate_limit_interval_name(self),
    {
        match self {
            Self::Second => "Second",
            Self::Minute => "Minute",
            Self::Day => "Day",
            Self::Unknown => "Unknown",
        }
    }
}

/// Kline (candlestick) interval.
#[derive(Copy, Clone, Debug, PartialEq, Eq, Structural, Hash)]
pub enum AsterKlineInterval {
    /// 1 second (only for spot).
    Second1,
    /// 1 minute.
    Minute1,
    /// 3 minutes.
    Minute3,
    /// 5 minutes.
    Minute5,
    /// 15 minutes.
    Minute15,
    /// 30 minutes.
    Minute30,
    /// 1 hour.
    Hour1,
    /// 2 hours.
    Hour2,
    /// 4 hours.
    Hour4,
    /// 6 hours.
    Hour6,
    /// 8 hours.
    Hour8,
    /// 12 hours.
    Hour12,
    /// 1 day.
    Day1,
    /// 3 days.
    Day3,
    /// 1 week.
    Week1,
    /// 1 month.
    Month1,
}

impl Default for AsterKlineInterval {
    fn default() -> (k: Self)
        ensures
            k == AsterKlineInterval::Minute1,
    {
        AsterKlineInterval::Minute1
    }
}

/// The Aster API string of a kline interval.
pub open spec fn kline_interval_str(k: AsterKlineInterval) -> Seq<char> {
    match k {
        AsterKlineInterval::Second1 => "1s"@,
        AsterKlineInterval::Minute1 => "1m"@,
        AsterKlineInterval::Minute3 => "3m"@,
        AsterKlineInterval::Minute5 => "5m"@,
        AsterKlineInterval::Minute15 => "15m"@,
        AsterKlineInterval::Minute30 => "30m"@,
        AsterKlineInterval::Hour1 => "1h"@,
        AsterKlineInterval::Hour2 => "2h"@,
        AsterKlineInterval::Hour4 => "4h"@,
        AsterKlineInterval::Hour6 => "6h"@,
        AsterKlineInterval::Hour8 => "8h"@,
        AsterKlineInterval::Hour12 => "12h"@,
        AsterKlineInterval::Day1 => "1d"@,
        AsterKlineInterval::Day3 => "3d"@,
        AsterKlineInterval::Week1 => "1w"@,
        AsterKlineInterval::Month1 => "1M"@,
    }
}

impl AsterKlineInterval {
    /// Returns the string representation used by Aster API.
    pub fn as_str(&self) -> (s: &'static str)
        ensures
            s@ == kline_interval_str(*self),
    {
        match self {
            Self::Second1 => "1s",
            Self::Minute1 => "1m",
            Self::Minute3 => "3m",
            Self::Minute5 => "5m",
            Self::Minute15 => "15m",
            Self::Minute30 => "30m",
            Self::Hour1 => "1h",
            Self::Hour2 => "2h",
            Self::Hour4 => "4h",
            Self::Hour6 => "6h",
            Self::Hour8 => "8h",
            Self::Hour12 => "12h",
            Self::Day1 => "1d",
            Self::Day3 => "3d",
            Self::Week1 => "1w",
            Self::Month1 => "1M",
        }
    }
}

} // verus!
