//! Conversion of Aster exchange-info symbols into perpetual instrument
//! definitions, and of bar specifications into kline intervals.

use vstd::prelude::*;

use crate::decimal::{parse_decimal, spec_parse_decimal, DecimalValue, Price, Quantity};
use crate::enums::{
    contract_status_debug, trading_status_debug, AsterContractStatus, AsterKlineInterval,
    AsterTradingStatus,
};
use crate::instrument::{AsterFuturesCoinSymbol, AsterFuturesUsdSymbol, Currency, SymbolFilter};
use crate::model::{bar_aggregation_debug, BarAggregation, BarSpecification, InstrumentId};
use crate::symbol::ASTER;
use crate::text::{decimal, push_decimal, push_str, str_eq};

verus! {

/// Returns the currency of a code.
pub fn get_currency(code: &str) -> (c: Currency)
    ensures
        c.code@ == code@,
{
    Currency { code: code.to_owned() }
}

/// The value of the first member named `key`, if any.
pub open spec fn lookup_field(fields: Seq<(String, String)>, key: Seq<char>) -> Option<Seq<char>>
    decreases fields.len(),
{
    if fields.len() == 0 {
        None
    } else if fields[0].0@ == key {
        Some(fields[0].1@)
    } else {
        lookup_field(fields.drop_first(), key)
    }
}

/// The first filter whose `filterType` is `filter_type`, if any.
pub open spec fn find_filter(filters: Seq<SymbolFilter>, filter_type: Seq<char>) -> Option<
    SymbolFilter,
>
    decreases filters.len(),
{
    if filters.len() == 0 {
        None
    } else if lookup_field(filters[0].fields@, "filterType"@) == Some(filter_type) {
        Some(filters[0])
    } else {
        find_filter(filters.drop_first(), filter_type)
    }
}

fn lookup<'a>(fields: &'a Vec<(String, String)>, key: &str) -> (r: Option<&'a String>)
    ensures
        match r {
            Some(v) => lookup_field(fields@, key@) == Some(v@),
            None => lookup_field(fields@, key@) is None,
        },
{
    let mut i: usize = 0;
    assert(fields@.skip(0) =~= fields@);
    while i < fields.len()
        invariant
            i <= fields@.len(),
            lookup_field(fields@, key@) == lookup_field(fields@.skip(i as int), key@),
        decreases fields@.len() - i,
    {
        assert(fields@.skip(i as int).drop_first() =~= fields@.skip(i + 1));
        assert(fields@.skip(i as int)[0] == fields@[i as int]);
        if str_eq(fields[i].0.as_str(), key) {
            return Some(&fields[i].1);
        }
        i = i + 1;
    }
    None
}

/// Extracts the filter of a filter type from a symbol's filters.
pub fn get_filter<'a>(filters: &'a Vec<SymbolFilter>, filter_type: &str) -> (r: Option<&'a SymbolFilter>)
    ensures
        match r {
            Some(f) => find_filter(filters@, filter_type@) == Some(*f),
            None => find_filter(filters@, filter_type@) is None,
        },
{
    let mut i: usize = 0;
    assert(filters@.skip(0) =~= filters@);
    while i < filters.len()
        invariant
            i <= filters@.len(),
            find_filter(filters@, filter_type@) == find_filter(filters@.skip(i as int), filter_type@),
        decreases filters@.len() - i,
    {
        assert(filters@.skip(i as int).drop_first() =~= filters@.skip(i + 1));
        assert(filters@.skip(i as int)[0] == filters@[i as int]);
        match lookup(&filters[i].fields, "filterType") {
            Some(t) => {
                if str_eq(t.as_str(), filter_type) {
                    return Some(&filters[i]);
                }
            },
            None => {},
        }
        i = i + 1;
    }
    None
}

/// Why a filter field could not be read.
#[derive(Copy, Clone, Debug, PartialEq, Eq, Structural)]
pub enum FilterFieldError {
    /// The filter has no string member of that name.
    Missing,
    /// The member does not hold a decimal of the required kind.
    Invalid,
}

/// The price in a filter member.
pub open spec fn filter_price(filter: SymbolFilter, field: Seq<char>) -> Result<Price, FilterFieldError> {
    match lookup_field(filter.fields@, field) {
        None => Err(FilterFieldError::Missing),
        Some(v) => match spec_parse_decimal(v) {
            Some(p) => Ok(p),
            None => Err(FilterFieldError::Invalid),
        },
    }
}

/// The quantity in a filter member (a quantity is never below zero).
pub open spec fn filter_quantity(filter: SymbolFilter, field: Seq<char>) -> Result<Quantity, FilterFieldError> {
    match filter_price(filter, field) {
        Ok(q) => if q.negative && q.mantissa > 0 {
            Err(FilterFieldError::Invalid)
        } else {
            Ok(q)
        },
        Err(e) => Err(e),
    }
}

/// The successful value of a result, if any.
pub open spec fn ok_of<T, E>(r: Result<T, E>) -> Option<T> {
    match r {
        Ok(v) => Some(v),
        Err(_) => None,
    }
}

/// Parses a string member of a filter.
pub fn parse_filter_string(filter: &SymbolFilter, field: &str) -> (r: Result<String, FilterFieldError>)
    ensures
        match lookup_field(filter.fields@, field@) {
            Some(v) => r is Ok && r->Ok_0@ == v,
            None => r == Err::<String, FilterFieldError>(FilterFieldError::Missing),
        },
{
    match lookup(&filter.fields, field) {
        Some(v) => Ok(v.clone()),
        None => Err(FilterFieldError::Missing),
    }
}

/// Parses a price from a filter member.
pub fn parse_filter_price(filter: &SymbolFilter, field: &str) -> (r: Result<Price, FilterFieldError>)
    ensures
        r == filter_price(*filter, field@),
{
    let value = parse_filter_string(filter, field)?;
    match parse_decimal(value.as_str()) {
        Some(p) => Ok(p),
        None => Err(FilterFieldError::Invalid),
    }
}

/// Parses a quantity from a filter member.
pub fn parse_filter_quantity(filter: &SymbolFilter, field: &str) -> (r: Result<Quantity, FilterFieldError>)
    ensures
        r == filter_quantity(*filter, field@),
{
    let q = parse_filter_price(filter, field)?;
    if q.negative && q.mantissa > 0 {
        Err(FilterFieldError::Invalid)
    } else {
        Ok(q)
    }
}

/// A perpetual instrument on a crypto venue.
#[derive(Clone, Debug, PartialEq, Eq)]
pub struct CryptoPerpetual {
    /// Instrument ID.
    pub id: InstrumentId,
    /// Raw venue symbol.
    pub raw_symbol: String,
    /// Base currency.
    pub base_currency: Currency,
    /// Quote currency.
    pub quote_currency: Currency,
    /// Settlement currency.
    pub settlement_currency: Currency,
    /// Whether the contract is inverse.
    pub is_inverse: bool,
    /// Price precision.
    pub price_precision: u8,
    /// Size precision.
    pub size_precision: u8,
    /// Minimum price increment.
    pub price_increment: Price,
    /// Minimum size increment.
    pub size_increment: Quantity,
    /// Contract multiplier.
    pub multiplier: Option<Quantity>,
    /// Lot size.
    pub lot_size: Option<Quantity>,
    /// Maximum order quantity.
    pub max_quantity: Option<Quantity>,
    /// Minimum order quantity.
    pub min_quantity: Option<Quantity>,
    /// Maximum notional.
    pub max_notional: Option<DecimalValue>,
    /// Minimum notional.
    pub min_notional: Option<DecimalValue>,
    /// Maximum price.
    pub max_price: Option<Price>,
    /// Minimum price.
    pub min_price: Option<Price>,
    /// Initial margin rate.
    pub margin_init: Option<DecimalValue>,
    /// Maintenance margin rate.
    pub margin_maint: Option<DecimalValue>,
    /// Maker fee rate.
    pub maker_fee: Option<DecimalValue>,
    /// Taker fee rate.
    pub taker_fee: Option<DecimalValue>,
    /// Event timestamp (nanoseconds).
    pub ts_event: u64,
    /// Initialization timestamp (nanoseconds).
    pub ts_init: u64,
}

/// Any instrument the adapter produces.
#[derive(Clone, Debug, PartialEq, Eq)]
pub enum InstrumentAny {
    /// A crypto perpetual.
    CryptoPerpetual(CryptoPerpetual),
}

/// Why a symbol definition could not be turned into an instrument.
#[derive(Copy, Clone, Debug, PartialEq, Eq, Structural)]
pub enum InstrumentErrorKind {
    /// The contract type is not `PERPETUAL`.
    UnsupportedContractType,
    /// The symbol is not trading.
    NotTrading,
    /// The filters have no `PRICE_FILTER`.
    MissingPriceFilter,
    /// The price filter has no `tickSize`.
    MissingTickSize,
    /// The `tickSize` is not a decimal.
    InvalidTickSize,
    /// The `tickSize` is zero.
    ZeroTickSize,
    /// The filters have no `LOT_SIZE`.
    MissingLotSize,
    /// The lot size filter has no `stepSize`.
    MissingStepSize,
    /// The `stepSize` is not a non-negative decimal.
    InvalidStepSize,
}

/// A symbol definition could not be turned into an instrument.
#[derive(Clone, Debug, PartialEq, Eq)]
pub struct InstrumentParseError {
    /// What went wrong.
    pub kind: InstrumentErrorKind,
    /// The symbol.
    pub symbol: String,
    /// What the message quotes besides the symbol: the contract type, the
    /// status, or the unparseable tick or step size (empty for other kinds).
    pub detail: String,
}

/// What an instrument error quotes besides the symbol.
pub open spec fn instrument_error_detail(
    kind: InstrumentErrorKind,
    contract_type: Seq<char>,
    status: Seq<char>,
    filters: Seq<SymbolFilter>,
) -> Seq<char> {
    match kind {
        InstrumentErrorKind::UnsupportedContractType => contract_type,
        InstrumentErrorKind::NotTrading => status,
        InstrumentErrorKind::InvalidTickSize => lookup_field(
            find_filter(filters, "PRICE_FILTER"@)->Some_0.fields@,
            "tickSize"@,
        )->Some_0,
        InstrumentErrorKind::InvalidStepSize => lookup_field(
            find_filter(filters, "LOT_SIZE"@)->Some_0.fields@,
            "stepSize"@,
        )->Some_0,
        _ => Seq::empty(),
    }
}

/// The message of an instrument error.
pub open spec fn instrument_error_message(e: InstrumentParseError) -> Seq<char> {
    match e.kind {
        InstrumentErrorKind::UnsupportedContractType => "Unsupported contract type '"@ + e.detail@
            + "' for symbol '"@ + e.symbol@ + "', expected 'PERPETUAL'"@,
        InstrumentErrorKind::NotTrading => "Symbol '"@ + e.symbol@ + "' is not trading (status: "@
            + e.detail@ + ")"@,
        InstrumentErrorKind::MissingPriceFilter => "Missing PRICE_FILTER in symbol filters"@,
        InstrumentErrorKind::MissingTickSize => "Missing field 'tickSize' in filter"@,
        InstrumentErrorKind::InvalidTickSize => "Failed to parse tickSize='"@ + e.detail@ + "'"@,
        InstrumentErrorKind::ZeroTickSize => "Invalid tickSize of 0 for symbol '"@ + e.symbol@
            + "', cannot create instrument"@,
        InstrumentErrorKind::MissingLotSize => "Missing LOT_SIZE in symbol filters"@,
        InstrumentErrorKind::MissingStepSize => "Missing field 'stepSize' in filter"@,
        InstrumentErrorKind::InvalidStepSize => "Failed to parse stepSize='"@ + e.detail@ + "'"@,
    }
}

impl InstrumentParseError {
    /// Returns the human-readable message of the error, e.g.
    /// `Unsupported contract type 'CURRENT_QUARTER' for symbol 'BTCUSDT', expected 'PERPETUAL'`.
    /// A value that is not a decimal is quoted without the decimal parser's reason.
    pub fn message(&self) -> (m: String)
        ensures
            m@ == instrument_error_message(*self),
    {
        let mut m = String::new();
        match self.kind {
            InstrumentErrorKind::UnsupportedContractType => {
                push_str(&mut m, "Unsupported contract type '");
                push_str(&mut m, self.detail.as_str());
                push_str(&mut m, "' for symbol '");
                push_str(&mut m, self.symbol.as_str());
                push_str(&mut m, "', expected 'PERPETUAL'");
            },
            InstrumentErrorKind::NotTrading => {
                push_str(&mut m, "Symbol '");
                push_str(&mut m, self.symbol.as_str());
                push_str(&mut m, "' is not trading (status: ");
                push_str(&mut m, self.detail.as_str());
                push_str(&mut m, ")");
            },
            InstrumentErrorKind::MissingPriceFilter => {
                push_str(&mut m, "Missing PRICE_FILTER in symbol filters");
            },
            InstrumentErrorKind::MissingTickSize => {
                push_str(&mut m, "Missing field 'tickSize' in filter");
            },
            InstrumentErrorKind::InvalidTickSize => {
                push_str(&mut m, "Failed to parse tickSize='");
                push_str(&mut m, self.detail.as_str());
                push_str(&mut m, "'");
            },
            InstrumentErrorKind::ZeroTickSize => {
                push_str(&mut m, "Invalid tickSize of 0 for symbol '");
                push_str(&mut m, self.symbol.as_str());
                push_str(&mut m, "', cannot create instrument");
            },
            InstrumentErrorKind::MissingLotSize => {
                push_str(&mut m, "Missing LOT_SIZE in symbol filters");
            },
            InstrumentErrorKind::MissingStepSize => {
                push_str(&mut m, "Missing field 'stepSize' in filter");
            },
            InstrumentErrorKind::InvalidStepSize => {
                push_str(&mut m, "Failed to parse stepSize='");
                push_str(&mut m, self.detail.as_str());
                push_str(&mut m, "'");
            },
        }
        m
    }
}

/// The tick size and step size of a perpetual symbol, or why there are none:
/// the contract must be `PERPETUAL` and trading, with a non-zero `tickSize` in
/// its `PRICE_FILTER` and a `stepSize` in its `LOT_SIZE` filter.
pub open spec fn perpetual_increments(
    contract_type: Seq<char>,
    trading: bool,
    filters: Seq<SymbolFilter>,
) -> Result<(Price, Quantity), InstrumentErrorKind> {
    if contract_type != "PERPETUAL"@ {
        Err(InstrumentErrorKind::UnsupportedContractType)
    } else if !trading {
        Err(InstrumentErrorKind::NotTrading)
    } else {
        match find_filter(filters, "PRICE_FILTER"@) {
            None => Err(InstrumentErrorKind::MissingPriceFilter),
            Some(pf) => match filter_price(pf, "tickSize"@) {
                Err(FilterFieldError::Missing) => Err(InstrumentErrorKind::MissingTickSize),
                Err(FilterFieldError::Invalid) => Err(InstrumentErrorKind::InvalidTickSize),
                Ok(tick) => if tick.mantissa == 0 {
                    Err(InstrumentErrorKind::ZeroTickSize)
                } else {
                    match find_filter(filters, "LOT_SIZE"@) {
                        None => Err(InstrumentErrorKind::MissingLotSize),
                        Some(lf) => match filter_quantity(lf, "stepSize"@) {
                            Err(FilterFieldError::Missing) => Err(InstrumentErrorKind::MissingStepSize),
                            Err(FilterFieldError::Invalid) => Err(InstrumentErrorKind::InvalidStepSize),
                            Ok(step) => Ok((tick, step)),
                        },
                    }
                },
            },
        }
    }
}

/// The default initial and maintenance margin rate: 0.1 (10x leverage).
pub open spec fn default_margin() -> DecimalValue {
    DecimalValue { negative: false, mantissa: 1, precision: 1 }
}

/// Whether an instrument is the perpetual a symbol definition describes, given
/// its increments: ID `<symbol>-PERP.ASTER`, currencies from the assets,
/// precisions from the increments, price and quantity bounds from the filters
/// (absent where unreadable) and the default margins.
pub open spec fn describes_perpetual(
    inst: CryptoPerpetual,
    symbol: Seq<char>,
    base: Seq<char>,
    quote: Seq<char>,
    margin: Seq<char>,
    filters: Seq<SymbolFilter>,
    is_inverse: bool,
    multiplier: Option<Quantity>,
    tick: Price,
    step: Quantity,
    ts_event: u64,
    ts_init: u64,
) -> bool {
    let pf = find_filter(filters, "PRICE_FILTER"@)->Some_0;
    let lf = find_filter(filters, "LOT_SIZE"@)->Some_0;
    &&& inst.id.symbol@ == symbol + "-PERP"@
    &&& inst.id.venue@ == "ASTER"@
    &&& inst.raw_symbol@ == symbol
    &&& inst.base_currency.code@ == base
    &&& inst.quote_currency.code@ == quote
    &&& inst.settlement_currency.code@ == margin
    &&& inst.is_inverse == is_inverse
    &&& inst.price_precision == tick.precision
    &&& inst.size_precision == step.precision
    &&& inst.price_increment == tick
    &&& inst.size_increment == step
    &&& inst.multiplier == multiplier
    &&& inst.lot_size == Some(step)
    &&& inst.max_quantity == ok_of(filter_quantity(lf, "maxQty"@))
    &&& inst.min_quantity == ok_of(filter_quantity(lf, "minQty"@))
    &&& inst.max_notional is None
    &&& inst.min_notional is None
    &&& inst.max_price == ok_of(filter_price(pf, "maxPrice"@))
    &&& inst.min_price == ok_of(filter_price(pf, "minPrice"@))
    &&& inst.margin_init == Some(default_margin())
    &&& inst.margin_maint == Some(default_margin())
    &&& inst.maker_fee is None
    &&& inst.taker_fee is None
    &&& inst.ts_event == ts_event
    &&& inst.ts_init == ts_init
}

fn instrument_error(kind: InstrumentErrorKind, symbol: &String, detail: &str) -> (e: InstrumentParseError)
    ensures
        e.kind == kind,
        e.symbol@ == symbol@,
        e.detail@ == detail@,
{
    InstrumentParseError { kind, symbol: symbol.clone(), detail: detail.to_owned() }
}

fn ok_price(r: Result<Price, FilterFieldError>) -> (o: Option<Price>)
    ensures
        o == ok_of(r),
{
    match r {
        Ok(p) => Some(p),
        Err(_) => None,
    }
}

#[verifier::loop_isolation(false)]
fn parse_perpetual(
    symbol: &String,
    contract_type: &String,
    trading: bool,
    status: &str,
    base_asset: &String,
    quote_asset: &String,
    margin_asset: &String,
    filters: &Vec<SymbolFilter>,
    is_inverse: bool,
    multiplier: Option<Quantity>,
    ts_event: u64,
    ts_init: u64,
) -> (r: Result<InstrumentAny, InstrumentParseError>)
    ensures
        match perpetual_increments(contract_type@, trading, filters@) {
            Err(kind) => r is Err && r->Err_0.kind == kind && r->Err_0.symbol@ == symbol@
                && r->Err_0.detail@ == instrument_error_detail(kind, contract_type@, status@, filters@),
            Ok((tick, step)) => r is Ok && describes_perpetual(
                r->Ok_0->CryptoPerpetual_0,
                symbol@,
                base_asset@,
                quote_asset@,
                margin_asset@,
                filters@,
                is_inverse,
                multiplier,
                tick,
                step,
                ts_event,
                ts_init,
            ),
        },
{
    proof {
        reveal_strlit("");
    }
    if !str_eq(contract_type.as_str(), "PERPETUAL") {
        return Err(
            instrument_error(InstrumentErrorKind::UnsupportedContractType, symbol, contract_type.as_str()),
        );
    }
    if !trading {
        return Err(instrument_error(InstrumentErrorKind::NotTrading, symbol, status));
    }
    let base_currency = get_currency(base_asset.as_str());
    let quote_currency = get_currency(quote_asset.as_str());
    let settlement_currency = get_currency(margin_asset.as_str());

    let mut id_symbol = symbol.clone();
    push_str(&mut id_symbol, "-PERP");
    let instrument_id = InstrumentId::new(id_symbol, ASTER.to_owned());
    let raw_symbol = symbol.clone();

    let price_filter = match get_filter(filters, "PRICE_FILTER") {
        Some(f) => f,
        None => return Err(instrument_error(InstrumentErrorKind::MissingPriceFilter, symbol, "")),
    };
    let tick_size = match parse_filter_price(price_filter, "tickSize") {
        Ok(p) => p,
        Err(FilterFieldError::Missing) => return Err(
            instrument_error(InstrumentErrorKind::MissingTickSize, symbol, ""),
        ),
        Err(FilterFieldError::Invalid) => {
            let value = parse_filter_string(price_filter, "tickSize");
            let detail = match &value {
                Ok(v) => v.as_str(),
                Err(_) => "",
            };
            return Err(instrument_error(InstrumentErrorKind::InvalidTickSize, symbol, detail));
        },
    };
    if tick_size.is_zero() {
        return Err(instrument_error(InstrumentErrorKind::ZeroTickSize, symbol, ""));
    }
    let max_price = ok_price(parse_filter_price(price_filter, "maxPrice"));
    let min_price = ok_price(parse_filter_price(price_filter, "minPrice"));

    let lot_filter = match get_filter(filters, "LOT_SIZE") {
        Some(f) => f,
        None => return Err(instrument_error(InstrumentErrorKind::MissingLotSize, symbol, "")),
    };
    let step_size = match parse_filter_quantity(lot_filter, "stepSize") {
        Ok(q) => q,
        Err(FilterFieldError::Missing) => return Err(
            instrument_error(InstrumentErrorKind::MissingStepSize, symbol, ""),
        ),
        Err(FilterFieldError::Invalid) => {
            let value = parse_filter_string(lot_filter, "stepSize");
            let detail = match &value {
                Ok(v) => v.as_str(),
                Err(_) => "",
            };
            return Err(instrument_error(InstrumentErrorKind::InvalidStepSize, symbol, detail));
        },
    };
    let max_quantity = ok_price(parse_filter_quantity(lot_filter, "maxQty"));
    let min_quantity = ok_price(parse_filter_quantity(lot_filter, "minQty"));

    let default_margin = DecimalValue { negative: false, mantissa: 1, precision: 1 };

    let instrument = CryptoPerpetual {
        id: instrument_id,
        raw_symbol,
        base_currency,
        quote_currency,
        settlement_currency,
        is_inverse,
        price_precision: tick_size.precision,
        size_precision: step_size.precision,
        price_increment: tick_size,
        size_increment: step_size,
        multiplier,
        lot_size: Some(step_size),
        max_quantity,
        min_quantity,
        max_notional: None,
        min_notional: None,
        max_price,
        min_price,
        margin_init: Some(default_margin),
        margin_maint: Some(default_margin),
        maker_fee: None,
        taker_fee: None,
        ts_event,
        ts_init,
    };
    Ok(InstrumentAny::CryptoPerpetual(instrument))
}

/// Parses a USD-M Futures symbol definition into a linear perpetual instrument.
///
/// Fails when the contract type is not `PERPETUAL`, the symbol is not trading,
/// or the `PRICE_FILTER` tick size or the `LOT_SIZE` step size is missing,
/// unparseable or (for the tick size) zero.
pub fn parse_usdm_instrument(symbol: &AsterFuturesUsdSymbol, ts_event: u64, ts_init: u64) -> (r:
    Result<InstrumentAny, InstrumentParseError>)
    ensures
        match perpetual_increments(
            symbol.contract_type@,
            symbol.status == AsterTradingStatus::Trading,
            symbol.filters@,
        ) {
            Err(kind) => r is Err && r->Err_0.kind == kind && r->Err_0.symbol@ == symbol.symbol@
                && r->Err_0.detail@ == instrument_error_detail(
                kind,
                symbol.contract_type@,
                trading_status_debug(symbol.status),
                symbol.filters@,
            ),
            Ok((tick, step)) => r is Ok && describes_perpetual(
                r->Ok_0->CryptoPerpetual_0,
                symbol.symbol@,
                symbol.base_asset@,
                symbol.quote_asset@,
                symbol.margin_asset@,
                symbol.filters@,
                false,
                None,
                tick,
                step,
                ts_event,
                ts_init,
            ),
        },
{
    parse_perpetual(
        &symbol.symbol,
        &symbol.contract_type,
        symbol.status == AsterTradingStatus::Trading,
        symbol.status.debug_name(),
        &symbol.base_asset,
        &symbol.quote_asset,
        &symbol.margin_asset,
        &symbol.filters,
        false,
        None,
        ts_event,
        ts_init,
    )
}

/// The debug text of an optional contract status: `Some(<status>)` or `None`.
pub open spec fn optional_contract_status_debug(c: Option<AsterContractStatus>) -> Seq<char> {
    match c {
        Some(v) => "Some("@ + contract_status_debug(v) + ")"@,
        None => "None"@,
    }
}

/// Parses a COIN-M Futures symbol definition into an inverse perpetual
/// instrument, settled in the margin asset, with the contract size as its
/// multiplier.
///
/// Fails when the contract type is not `PERPETUAL`, the contract is not in
/// `TRADING` status, or the `PRICE_FILTER` tick size or the `LOT_SIZE` step size
/// is missing, unparseable or (for the tick size) zero.
pub fn parse_coinm_instrument(symbol: &AsterFuturesCoinSymbol, ts_event: u64, ts_init: u64) -> (r:
    Result<InstrumentAny, InstrumentParseError>)
    ensures
        match perpetual_increments(
            symbol.contract_type@,
            symbol.contract_status == Some(AsterContractStatus::Trading),
            symbol.filters@,
        ) {
            Err(kind) => r is Err && r->Err_0.kind == kind && r->Err_0.symbol@ == symbol.symbol@
                && r->Err_0.detail@ == instrument_error_detail(
                kind,
                symbol.contract_type@,
                optional_contract_status_debug(symbol.contract_status),
                symbol.filters@,
            ),
            Ok((tick, step)) => r is Ok && describes_perpetual(
                r->Ok_0->CryptoPerpetual_0,
                symbol.symbol@,
                symbol.base_asset@,
                symbol.quote_asset@,
                symbol.margin_asset@,
                symbol.filters@,
                true,
                Some(DecimalValue { negative: false, mantissa: symbol.contract_size, precision: 0 }),
                tick,
                step,
                ts_event,
                ts_init,
            ),
        },
{
    let trading = match symbol.contract_status {
        Some(AsterContractStatus::Trading) => true,
        _ => false,
    };
    let multiplier = DecimalValue { negative: false, mantissa: symbol.contract_size, precision: 0 };
    let mut status = String::new();
    match symbol.contract_status {
        Some(c) => {
            push_str(&mut status, "Some(");
            push_str(&mut status, c.debug_name());
            push_str(&mut status, ")");
        },
        None => push_str(&mut status, "None"),
    }
    parse_perpetual(
        &symbol.symbol,
        &symbol.contract_type,
        trading,
        status.as_str(),
        &symbol.base_asset,
        &symbol.quote_asset,
        &symbol.margin_asset,
        &symbol.filters,
        true,
        Some(multiplier),
        ts_event,
        ts_init,
    )
}

/// Why a bar specification has no Aster kline interval.
#[derive(Copy, Clone, Debug, PartialEq, Eq, Structural)]
pub enum BarIntervalError {
    /// Second-level klines are not supported.
    SecondsUnsupported,
    /// The step is not supported for the aggregation.
    UnsupportedStep(BarAggregation, usize),
    /// The aggregation is not time-based.
    UnsupportedAggregation(BarAggregation),
}

/// The word and unit letter of a time-based aggregation, as its interval
/// messages write them.
pub open spec fn interval_unit_words(agg: BarAggregation) -> (Seq<char>, Seq<char>) {
    match agg {
        BarAggregation::Minute => ("minute"@, "m"@),
        BarAggregation::Hour => ("hour"@, "h"@),
        BarAggregation::Day => ("day"@, "d"@),
        BarAggregation::Week => ("week"@, "w"@),
        BarAggregation::Month => ("month"@, "M"@),
        _ => (bar_aggregation_debug(agg), Seq::empty()),
    }
}

/// The message of a bar interval error.
pub open spec fn bar_interval_error_message(e: BarIntervalError) -> Seq<char> {
    match e {
        BarIntervalError::SecondsUnsupported => "Aster Spot does not support second-level kline intervals"@,
        BarIntervalError::UnsupportedStep(agg, step) => "Unsupported "@ + interval_unit_words(agg).0
            + " interval: "@ + decimal(step as nat) + interval_unit_words(agg).1,
        BarIntervalError::UnsupportedAggregation(agg) => "Unsupported bar aggregation for Aster: "@
            + bar_aggregation_debug(agg),
    }
}

impl BarIntervalError {
    /// Returns the human-readable message of the error, e.g.
    /// `Unsupported minute interval: 7m`.
    pub fn message(&self) -> (m: String)
        ensures
            m@ == bar_interval_error_message(*self),
    {
        proof {
            reveal_strlit("");
        }
        let mut m = String::new();
        match *self {
            BarIntervalError::SecondsUnsupported => {
                push_str(&mut m, "Aster Spot does not support second-level kline intervals");
            },
            BarIntervalError::UnsupportedStep(agg, step) => {
                let (word, unit) = match agg {
                    BarAggregation::Minute => ("minute", "m"),
                    BarAggregation::Hour => ("hour", "h"),
                    BarAggregation::Day => ("day", "d"),
                    BarAggregation::Week => ("week", "w"),
                    BarAggregation::Month => ("month", "M"),
                    _ => (agg.debug_name(), ""),
                };
                push_str(&mut m, "Unsupported ");
                push_str(&mut m, word);
                push_str(&mut m, " interval: ");
                push_decimal(&mut m, step as u64);
                push_str(&mut m, unit);
            },
            BarIntervalError::UnsupportedAggregation(agg) => {
                push_str(&mut m, "Unsupported bar aggregation for Aster: ");
                push_str(&mut m, agg.debug_name());
            },
        }
        m
    }
}

/// The kline interval of a bar specification, or why there is none.
pub open spec fn spec_bar_interval(spec: BarSpecification) -> Result<AsterKlineInterval, BarIntervalError> {
    let step = spec.step;
    match spec.aggregation {
        BarAggregation::Second => Err(BarIntervalError::SecondsUnsupported),
        BarAggregation::Minute => if step == 1 {
            Ok(AsterKlineInterval::Minute1)
        } else if step == 3 {
            Ok(AsterKlineInterval::Minute3)
        } else if step == 5 {
            Ok(AsterKlineInterval::Minute5)
        } else if step == 15 {
            Ok(AsterKlineInterval::Minute15)
        } else if step == 30 {
            Ok(AsterKlineInterval::Minute30)
        } else {
            Err(BarIntervalError::UnsupportedStep(BarAggregation::Minute, step))
        },
        BarAggregation::Hour => if step == 1 {
            Ok(AsterKlineInterval::Hour1)
        } else if step == 2 {
            Ok(AsterKlineInterval::Hour2)
        } else if step == 4 {
            Ok(AsterKlineInterval::Hour4)
        } else if step == 6 {
            Ok(AsterKlineInterval::Hour6)
        } else if step == 8 {
            Ok(AsterKlineInterval::Hour8)
        } else if step == 12 {
            Ok(AsterKlineInterval::Hour12)
        } else {
            Err(BarIntervalError::UnsupportedStep(BarAggregation::Hour, step))
        },
        BarAggregation::Day => if step == 1 {
            Ok(AsterKlineInterval::Day1)
        } else if step == 3 {
            Ok(AsterKlineInterval::Day3)
        } else {
            Err(BarIntervalError::UnsupportedStep(BarAggregation::Day, step))
        },
        BarAggregation::Week => if step == 1 {
            Ok(AsterKlineInterval::Week1)
        } else {
            Err(BarIntervalError::UnsupportedStep(BarAggregation::Week, step))
        },
        BarAggregation::Month => if step == 1 {
            Ok(AsterKlineInterval::Month1)
        } else {
            Err(BarIntervalError::UnsupportedStep(BarAggregation::Month, step))
        },
        agg => Err(BarIntervalError::UnsupportedAggregation(agg)),
    }
}

/// Converts a bar specification to an Aster kline interval.
pub fn bar_spec_to_aster_interval(bar_spec: BarSpecification) -> (r: Result<
    AsterKlineInterval,
    BarIntervalError,
>)
    ensures
        r == spec_bar_interval(bar_spec),
{
    let step = bar_spec.step;
    match bar_spec.aggregation {
        BarAggregation::Second => Err(BarIntervalError::SecondsUnsupported),
        BarAggregation::Minute => match step {
            1 => Ok(AsterKlineInterval::Minute1),
            3 => Ok(AsterKlineInterval::Minute3),
            5 => Ok(AsterKlineInterval::Minute5),
            15 => Ok(AsterKlineInterval::Minute15),
            30 => Ok(AsterKlineInterval::Minute30),
            _ => Err(BarIntervalError::UnsupportedStep(BarAggregation::Minute, step)),
        },
        BarAggregation::Hour => match step {
            1 => Ok(AsterKlineInterval::Hour1),
            2 => Ok(AsterKlineInterval::Hour2),
            4 => Ok(AsterKlineInterval::Hour4),
            6 => Ok(AsterKlineInterval::Hour6),
            8 => Ok(AsterKlineInterval::Hour8),
            12 => Ok(AsterKlineInterval::Hour12),
            _ => Err(BarIntervalError::UnsupportedStep(BarAggregation::Hour, step)),
        },
        BarAggregation::Day => match step {
            1 => Ok(AsterKlineInterval::Day1),
            3 => Ok(AsterKlineInterval::Day3),
            _ => Err(BarIntervalError::UnsupportedStep(BarAggregation::Day, step)),
        },
        BarAggregation::Week => match step {
            1 => Ok(AsterKlineInterval::Week1),
            _ => Err(BarIntervalError::UnsupportedStep(BarAggregation::Week, step)),
        },
        BarAggregation::Month => match step {
            1 => Ok(AsterKlineInterval::Month1),
            _ => Err(BarIntervalError::UnsupportedStep(BarAggregation::Month, step)),
        },
        agg => Err(BarIntervalError::UnsupportedAggregation(agg)),
    }
}

} // verus!
