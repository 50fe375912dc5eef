//! Trading-domain values that the adapter logic reads: order sides, order types,
//! time-in-force, market status actions and bar specifications.

use vstd::prelude::*;
use vstd::string::StrSliceExecFns;

use crate::text::push_str;

verus! {

/// The side of an order.
#[derive(Copy, Clone, Debug, PartialEq, Eq, Structural, Hash)]
pub enum OrderSide {
    /// No order side is specified.
    NoOrderSide,
    /// The order is a BUY.
    Buy,
    /// The order is a SELL.
    Sell,
}

/// The type of an order.
#[derive(Copy, Clone, Debug, PartialEq, Eq, Structural, Hash)]
pub enum OrderType {
    /// A market order.
    Market,
    /// A limit order.
    Limit,
    /// A stop market order.
    StopMarket,
    /// A stop limit order.
    StopLimit,
    /// A market-to-limit order.
    MarketToLimit,
    /// A market-if-touched order.
    MarketIfTouched,
    /// A limit-if-touched order.
    LimitIfTouched,
    /// A trailing stop market order.
    TrailingStopMarket,
    /// A trailing stop limit order.
    TrailingStopLimit,
}

/// The time in force of an order.
#[derive(Copy, Clone, Debug, PartialEq, Eq, Structural, Hash)]
pub enum TimeInForce {
    /// Good till canceled.
    Gtc,
    /// Immediate or cancel.
    Ioc,
    /// Fill or kill.
    Fok,
    /// Good till date.
    Gtd,
    /// Good for the trading day.
    Day,
    /// Execute at the open.
    AtTheOpen,
    /// Execute at the close.
    AtTheClose,
}

/// The kind of account that an execution client trades through.
#[derive(Copy, Clone, Debug, PartialEq, Eq, Structural, Hash)]
pub enum AccountType {
    /// A cash account.
    Cash,
    /// A margin account.
    Margin,
    /// A betting account.
    Betting,
}

/// How orders are grouped into positions.
#[derive(Copy, Clone, Debug, PartialEq, Eq, Structural, Hash)]
pub enum OmsType {
    /// Left to the venue.
    Unspecified,
    /// One position per instrument.
    Netting,
    /// Several positions per instrument.
    Hedging,
}

/// A market status action for an instrument.
#[derive(Copy, Clone, Debug, PartialEq, Eq, Structural, Hash)]
pub enum MarketStatusAction {
    /// No change (the `NONE` action).
    NoChange,
    /// Pre-open session.
    PreOpen,
    /// Pre-cross session.
    PreCross,
    /// Quoting session.
    Quoting,
    /// Cross session.
    Cross,
    /// Rotation session.
    Rotation,
    /// New price indication.
    NewPriceIndication,
    /// Trading session.
    Trading,
    /// Trading halted.
    Halt,
    /// Trading paused.
    Pause,
    /// Trading suspended.
    Suspend,
    /// Pre-close session.
    PreClose,
    /// Closed.
    Close,
    /// Post-close session.
    PostClose,
    /// Short-sell restriction change.
    ShortSellRestrictionChange,
    /// Not available for trading.
    NotAvailableForTrading,
}

/// The method by which a bar is aggregated.
#[derive(Copy, Clone, Debug, PartialEq, Eq, Structural, Hash)]
pub enum BarAggregation {
    /// Ticks.
    Tick,
    /// Tick imbalance.
    TickImbalance,
    /// Tick runs.
    TickRuns,
    /// Volume.
    Volume,
    /// Volume imbalance.
    VolumeImbalance,
    /// Volume runs.
    VolumeRuns,
    /// Notional value.
    Value,
    /// Value imbalance.
    ValueImbalance,
    /// Value runs.
    ValueRuns,
    /// Milliseconds.
    Millisecond,
    /// Seconds.
    Second,
    /// Minutes.
    Minute,
    /// Hours.
    Hour,
    /// Days.
    Day,
    /// Weeks.
    Week,
    /// Months.
    Month,
    /// Years.
    Year,
    /// Renko bricks.
    Renko,
}

/// The source of a bar's aggregation.
#[derive(Copy, Clone, Debug, PartialEq, Eq, Structural, Hash)]
pub enum AggregationSource {
    /// Bars aggregated by the venue.
    External,
    /// Bars aggregated locally.
    Internal,
}

/// The price type a bar is built from.
#[derive(Copy, Clone, Debug, PartialEq, Eq, Structural, Hash)]
pub enum PriceType {
    /// Bid prices.
    Bid,
    /// Ask prices.
    Ask,
    /// Mid prices.
    Mid,
    /// Last traded prices.
    Last,
    /// Mark prices.
    Mark,
}

/// A bar specification: a step, an aggregation method and a price type.
#[derive(Copy, Clone, Debug, PartialEq, Eq, Structural, Hash)]
pub struct BarSpecification {
    /// The step of the aggregation (positive for every specification the venue accepts).
    pub step: usize,
    /// The aggregation method.
    pub aggregation: BarAggregation,
    /// The price type.
    pub price_type: PriceType,
}

/// The debug name of an order side (its variant name).
pub open spec fn order_side_debug(v: OrderSide) -> Seq<char> {
    match v {
        OrderSide::NoOrderSide => "NoOrderSide"@,
        OrderSide::Buy => "Buy"@,
        OrderSide::Sell => "Sell"@,
    }
}

impl OrderSide {
    /// Returns the debug name of the value (its variant name).
    pub fn debug_name(self) -> (s: &'static str)
        ensures
            s@ == order_side_debug(self),
    {
        match self {
            OrderSide::NoOrderSide => "NoOrderSide",
            OrderSide::Buy => "Buy",
            OrderSide::Sell => "Sell",
        }
    }
}

/// The debug name of an order type (its variant name).
pub open spec fn order_type_debug(v: OrderType) -> Seq<char> {
    match v {
        OrderType::Market => "Market"@,
        OrderType::Limit => "Limit"@,
        OrderType::StopMarket => "StopMarket"@,
        OrderType::StopLimit => "StopLimit"@,
        OrderType::MarketToLimit => "MarketToLimit"@,
        OrderType::MarketIfTouched => "MarketIfTouched"@,
        OrderType::LimitIfTouched => "LimitIfTouched"@,
        OrderType::TrailingStopMarket => "TrailingStopMarket"@,
        OrderType::TrailingStopLimit => "TrailingStopLimit"@,
    }
}

impl OrderType {
    /// Returns the debug name of the value (its variant name).
    pub fn debug_name(self) -> (s: &'static str)
        ensures
            s@ == order_type_debug(self),
    {
        match self {
            OrderType::Market => "Market",
            OrderType::Limit => "Limit",
            OrderType::StopMarket => "StopMarket",
            OrderType::StopLimit => "StopLimit",
            OrderType::MarketToLimit => "MarketToLimit",
            OrderType::MarketIfTouched => "MarketIfTouched",
            OrderType::LimitIfTouched => "LimitIfTouched",
            OrderType::TrailingStopMarket => "TrailingStopMarket",
            OrderType::TrailingStopLimit => "TrailingStopLimit",
        }
    }
}

/// The debug name of a time in force (its variant name).
pub open spec fn time_in_force_debug(v: TimeInForce) -> Seq<char> {
    match v {
        TimeInForce::Gtc => "Gtc"@,
        TimeInForce::Ioc => "Ioc"@,
        TimeInForce::Fok => "Fok"@,
        TimeInForce::Gtd => "Gtd"@,
        TimeInForce::Day => "Day"@,
        TimeInForce::AtTheOpen => "AtTheOpen"@,
        TimeInForce::AtTheClose => "AtTheClose"@,
    }
}

impl TimeInForce {
    /// Returns the debug name of the value (its variant name).
    pub fn debug_name(self) -> (s: &'static str)
        ensures
            s@ == time_in_force_debug(self),
    {
        match self {
            TimeInForce::Gtc => "Gtc",
            TimeInForce::Ioc => "Ioc",
            TimeInForce::Fok => "Fok",
            TimeInForce::Gtd => "Gtd",
            TimeInForce::Day => "Day",
            TimeInForce::AtTheOpen => "AtTheOpen",
            TimeInForce::AtTheClose => "AtTheClose",
        }
    }
}

/// The debug name of a bar aggregation (its variant name).
pub open spec fn bar_aggregation_debug(v: BarAggregation) -> Seq<char> {
    match v {
        BarAggregation::Tick => "Tick"@,
        BarAggregation::TickImbalance => "TickImbalance"@,
        BarAggregation::TickRuns => "TickRuns"@,
        BarAggregation::Volume => "Volume"@,
        BarAggregation::VolumeImbalance => "VolumeImbalance"@,
        BarAggregation::VolumeRuns => "VolumeRuns"@,
        BarAggregation::Value => "Value"@,
        BarAggregation::ValueImbalance => "ValueImbalance"@,
        BarAggregation::ValueRuns => "ValueRuns"@,
        BarAggregation::Millisecond => "Millisecond"@,
        BarAggregation::Second => "Second"@,
        BarAggregation::Minute => "Minute"@,
        BarAggregation::Hour => "Hour"@,
        BarAggregation::Day => "Day"@,
        BarAggregation::Week => "Week"@,
        BarAggregation::Month => "Month"@,
        BarAggregation::Year => "Year"@,
        BarAggregation::Renko => "Renko"@,
    }
}

impl BarAggregation {
    /// Returns the debug name of the value (its variant name).
    pub fn debug_name(self) -> (s: &'static str)
        ensures
            s@ == bar_aggregation_debug(self),
    {
        match self {
            BarAggregation::Tick => "Tick",
            BarAggregation::TickImbalance => "TickImbalance",
            BarAggregation::TickRuns => "TickRuns",
            BarAggregation::Volume => "Volume",
            BarAggregation::VolumeImbalance => "VolumeImbalance",
            BarAggregation::VolumeRuns => "VolumeRuns",
            BarAggregation::Value => "Value",
            BarAggregation::ValueImbalance => "ValueImbalance",
            BarAggregation::ValueRuns => "ValueRuns",
            BarAggregation::Millisecond => "Millisecond",
            BarAggregation::Second => "Second",
            BarAggregation::Minute => "Minute",
            BarAggregation::Hour => "Hour",
            BarAggregation::Day => "Day",
            BarAggregation::Week => "Week",
            BarAggregation::Month => "Month",
            BarAggregation::Year => "Year",
            BarAggregation::Renko => "Renko",
        }
    }
}

/// An instrument identifier: a symbol at a venue, written `SYMBOL.VENUE`.
#[derive(Debug, Clone, PartialEq, Eq)]
pub struct InstrumentId {
    /// The instrument symbol.
    pub symbol: String,
    /// The venue.
    pub venue: String,
}

/// The index of the last `c` in `s`, if there is one.
pub open spec fn last_index_of(s: Seq<char>, c: char) -> Option<int> {
    if exists|i: int| 0 <= i < s.len() && s[i] == c {
        Some(choose|i: int| 0 <= i < s.len() && s[i] == c && forall|j: int| i < j < s.len() ==> s[j] != c)
    } else {
        None
    }
}

/// The string form of an instrument ID: symbol, `.`, venue.
pub open spec fn instrument_id_str(symbol: Seq<char>, venue: Seq<char>) -> Seq<char> {
    symbol + "."@ + venue
}

/// An instrument ID string has no `.` or an empty symbol or venue.
#[derive(Debug, Clone, PartialEq, Eq)]
pub struct InvalidInstrumentId {
    /// The value that was given.
    pub value: String,
}

impl InstrumentId {
    /// Creates an instrument ID from a symbol and a venue.
    pub fn new(symbol: String, venue: String) -> (id: Self)
        ensures
            id.symbol == symbol,
            id.venue == venue,
    {
        InstrumentId { symbol, venue }
    }

    /// Returns the string form `SYMBOL.VENUE`.
    pub fn as_string(&self) -> (s: String)
        ensures
            s@ == instrument_id_str(self.symbol@, self.venue@),
    {
        let mut s = self.symbol.clone();
        push_str(&mut s, ".");
        push_str(&mut s, self.venue.as_str());
        s
    }

    /// Parses `SYMBOL.VENUE`, splitting at the last `.`; both parts must be non-empty.
    pub fn parse(value: &str) -> (r: Result<Self, InvalidInstrumentId>)
        ensures
            match last_index_of(value@, '.') {
                Some(i) => if 0 < i && i + 1 < value@.len() {
                    r is Ok && r->Ok_0.symbol@ == value@.subrange(0, i) && r->Ok_0.venue@
                        == value@.subrange(i + 1, value@.len() as int)
                } else {
                    r is Err && r->Err_0.value@ == value@
                },
                None => r is Err && r->Err_0.value@ == value@,
            },
    {
        let n = value.unicode_len();
        let mut k: usize = n;
        while k > 0
            invariant
                n == value@.len(),
                k <= n,
                forall|j: int| k <= j < n ==> value@[j] != '.',
            decreases k,
        {
            if value.get_char(k - 1) == '.' {
                let i = k - 1;
                proof {
                    let w = choose|w: int| 0 <= w < n && value@[w] == '.' && forall|j: int|
                        w < j < n ==> value@[j] != '.';
                    assert(value@[i as int] == '.');
                    if w < i {
                        assert(value@[i as int] != '.');
                    } else if w > i {
                        assert(value@[w] != '.');
                    }
                }
                if i == 0 || i + 1 == n {
                    return Err(InvalidInstrumentId { value: value.to_owned() });
                }
                let symbol = value.substring_char(0, i).to_owned();
                let venue = value.substring_char(i + 1, n).to_owned();
                return Ok(InstrumentId { symbol, venue });
            }
            k = k - 1;
        }
        Err(InvalidInstrumentId { value: value.to_owned() })
    }
}

/// Reading back the string form of an instrument ID gives the ID: the last `.`
/// of `SYMBOL.VENUE` is the one after the symbol, when the symbol is non-empty
/// and the venue is non-empty and holds no `.`.
pub proof fn instrument_id_round_trip(symbol: Seq<char>, venue: Seq<char>)
    requires
        symbol.len() > 0,
        venue.len() > 0,
        forall|j: int| 0 <= j < venue.len() ==> venue[j] != '.',
    ensures
        last_index_of(instrument_id_str(symbol, venue), '.') == Some(symbol.len() as int),
        instrument_id_str(symbol, venue).subrange(0, symbol.len() as int) == symbol,
        instrument_id_str(symbol, venue).subrange(
            symbol.len() + 1int,
            instrument_id_str(symbol, venue).len() as int,
        ) == venue,
{
    reveal_strlit(".");
    let s = instrument_id_str(symbol, venue);
    let n = symbol.len() as int;
    assert(s[n] == '.');
    assert(forall|j: int| n < j < s.len() ==> s[j] == venue[j - n - 1]);
    let w = choose|i: int| 0 <= i < s.len() && s[i] == '.' && forall|j: int| i < j < s.len() ==> s[j] != '.';
    if w < n {
        assert(s[n] != '.');
    } else if w > n {
        assert(s[w] == venue[w - n - 1]);
    }
    assert(s.subrange(0, n) =~= symbol);
    assert(s.subrange(n + 1, s.len() as int) =~= venue);
}

} // verus!
