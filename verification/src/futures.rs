//! Aster Futures client decisions: which product types a futures client
//! serves, how exchange info becomes instruments and symbol statuses, and how
//! cancellation answers are judged.

use vstd::prelude::*;

use crate::decimal::spec_parse_i64;
use crate::decimal::parse_i64;
use crate::enums::{
    contract_status_action, trading_status_action, AsterContractStatus, AsterProductType,
};
use crate::error::AsterFuturesHttpError;
use crate::factories::{product_type_debug_name, product_type_name};
use crate::instrument::{AsterFuturesCoinSymbol, AsterFuturesInstrument, AsterFuturesUsdSymbol};
use crate::model::{MarketStatusAction, OrderType};
use crate::decimal::DecimalValue;
use crate::parse::{
    describes_perpetual, parse_coinm_instrument, parse_usdm_instrument, perpetual_increments,
    InstrumentAny,
};
use crate::text::{push_signed_decimal, push_str, signed_decimal};

verus! {

/// Checks that a futures HTTP client is built for USD-M or COIN-M; any other
/// product type is a validation error naming it.
pub fn check_futures_product_type(product_type: AsterProductType) -> (r: Result<(), AsterFuturesHttpError>)
    ensures
        (product_type == AsterProductType::UsdM || product_type == AsterProductType::CoinM) ==> r
            is Ok,
        !(product_type == AsterProductType::UsdM || product_type == AsterProductType::CoinM) ==> r
            is Err && r->Err_0 is ValidationError && r->Err_0->ValidationError_0@
            == "AsterFuturesHttpClient requires UsdM or CoinM product type, was "@
            + product_type_name(product_type),
{
    match product_type {
        AsterProductType::UsdM | AsterProductType::CoinM => Ok(()),
        _ => {
            let mut msg = String::new();
            push_str(&mut msg, "AsterFuturesHttpClient requires UsdM or CoinM product type, was ");
            push_str(&mut msg, product_type_debug_name(product_type));
            Err(AsterFuturesHttpError::ValidationError(msg))
        },
    }
}

/// Checks that exchange-info requests are made for a futures product type.
pub fn check_exchange_info_product_type(product_type: AsterProductType) -> (r: Result<(), AsterFuturesHttpError>)
    ensures
        (product_type == AsterProductType::UsdM || product_type == AsterProductType::CoinM) ==> r
            is Ok,
        !(product_type == AsterProductType::UsdM || product_type == AsterProductType::CoinM) ==> r
            is Err && r->Err_0 is ValidationError && r->Err_0->ValidationError_0@
            == "Invalid product type for futures"@,
{
    match product_type {
        AsterProductType::UsdM | AsterProductType::CoinM => Ok(()),
        _ => Err(AsterFuturesHttpError::ValidationError("Invalid product type for futures".to_owned())),
    }
}

/// Whether an order type requires the Algo Service API. Aster routes every
/// conditional order through the regular order endpoint, so no type does.
pub fn is_algo_order_type(order_type: OrderType) -> (b: bool)
    ensures
        !b,
{
    false
}

/// The market status action of a USD-M symbol.
pub open spec fn usdm_symbol_action(s: AsterFuturesUsdSymbol) -> MarketStatusAction {
    trading_status_action(s.status)
}

/// The market status action of a COIN-M symbol (not available for trading when
/// it has no contract status).
pub open spec fn coinm_symbol_action(s: AsterFuturesCoinSymbol) -> MarketStatusAction {
    match s.contract_status {
        Some(c) => contract_status_action(c),
        None => MarketStatusAction::NotAvailableForTrading,
    }
}

/// Returns the status of every USD-M symbol of exchange info, in order.
pub fn usdm_symbol_statuses(symbols: &Vec<AsterFuturesUsdSymbol>) -> (r: Vec<(String, MarketStatusAction)>)
    ensures
        r@.len() == symbols@.len(),
        forall|i: int| 0 <= i < symbols@.len() ==> (#[trigger] r@[i]).0@ == symbols@[i].symbol@ && r@[i].1
            == usdm_symbol_action(symbols@[i]),
{
    let mut out: Vec<(String, MarketStatusAction)> = Vec::new();
    let mut i: usize = 0;
    while i < symbols.len()
        invariant
            i <= symbols@.len(),
            out@.len() == i,
            forall|k: int| 0 <= k < i ==> (#[trigger] out@[k]).0@ == symbols@[k].symbol@ && out@[k].1
                == usdm_symbol_action(symbols@[k]),
        decreases symbols@.len() - i,
    {
        let s = &symbols[i];
        out.push((s.symbol.clone(), MarketStatusAction::from(s.status)));
        i = i + 1;
    }
    out
}

/// Returns the status of every COIN-M symbol of exchange info, in order.
pub fn coinm_symbol_statuses(symbols: &Vec<AsterFuturesCoinSymbol>) -> (r: Vec<(String, MarketStatusAction)>)
    ensures
        r@.len() == symbols@.len(),
        forall|i: int| 0 <= i < symbols@.len() ==> (#[trigger] r@[i]).0@ == symbols@[i].symbol@ && r@[i].1
            == coinm_symbol_action(symbols@[i]),
{
    let mut out: Vec<(String, MarketStatusAction)> = Vec::new();
    let mut i: usize = 0;
    while i < symbols.len()
        invariant
            i <= symbols@.len(),
            out@.len() == i,
            forall|k: int| 0 <= k < i ==> (#[trigger] out@[k]).0@ == symbols@[k].symbol@ && out@[k].1
                == coinm_symbol_action(symbols@[k]),
        decreases symbols@.len() - i,
    {
        let s = &symbols[i];
        let action = match s.contract_status {
            Some(c) => MarketStatusAction::from(c),
            None => MarketStatusAction::NotAvailableForTrading,
        };
        out.push((s.symbol.clone(), action));
        i = i + 1;
    }
    out
}

/// Whether a USD-M symbol parses into an instrument.
pub open spec fn usdm_parses(s: AsterFuturesUsdSymbol) -> bool {
    perpetual_increments(
        s.contract_type@,
        s.status == crate::enums::AsterTradingStatus::Trading,
        s.filters@,
    ) is Ok
}

/// Whether a COIN-M symbol parses into an instrument.
pub open spec fn coinm_parses(s: AsterFuturesCoinSymbol) -> bool {
    perpetual_increments(
        s.contract_type@,
        s.contract_status == Some(AsterContractStatus::Trading),
        s.filters@,
    ) is Ok
}

/// Whether `inst` is the instrument that a USD-M symbol parses into.
pub open spec fn usdm_instrument_of(inst: InstrumentAny, s: AsterFuturesUsdSymbol, ts_init: u64) -> bool {
    match perpetual_increments(
        s.contract_type@,
        s.status == crate::enums::AsterTradingStatus::Trading,
        s.filters@,
    ) {
        Ok((tick, step)) => describes_perpetual(
            inst->CryptoPerpetual_0,
            s.symbol@,
            s.base_asset@,
            s.quote_asset@,
            s.margin_asset@,
            s.filters@,
            false,
            None,
            tick,
            step,
            ts_init,
            ts_init,
        ),
        Err(_) => false,
    }
}

/// Whether `inst` is the instrument that a COIN-M symbol parses into.
pub open spec fn coinm_instrument_of(inst: InstrumentAny, s: AsterFuturesCoinSymbol, ts_init: u64) -> bool {
    match perpetual_increments(
        s.contract_type@,
        s.contract_status == Some(AsterContractStatus::Trading),
        s.filters@,
    ) {
        Ok((tick, step)) => describes_perpetual(
            inst->CryptoPerpetual_0,
            s.symbol@,
            s.base_asset@,
            s.quote_asset@,
            s.margin_asset@,
            s.filters@,
            true,
            Some(DecimalValue { negative: false, mantissa: s.contract_size, precision: 0 }),
            tick,
            step,
            ts_init,
            ts_init,
        ),
        Err(_) => false,
    }
}

/// Parses the USD-M symbols of exchange info into instruments, skipping the
/// symbols that do not parse: the result holds, in order, the instrument of
/// each symbol that parses.
pub fn parse_usdm_instruments(symbols: &Vec<AsterFuturesUsdSymbol>, ts_init: u64) -> (r: Vec<InstrumentAny>)
    ensures
        r@.len() == symbols@.filter(|s: AsterFuturesUsdSymbol| usdm_parses(s)).len(),
        forall|i: int| 0 <= i < r@.len() ==> usdm_instrument_of(
            #[trigger] r@[i],
            symbols@.filter(|s: AsterFuturesUsdSymbol| usdm_parses(s))[i],
            ts_init,
        ),
{
    let ghost pred = |s: AsterFuturesUsdSymbol| usdm_parses(s);
    let mut out: Vec<InstrumentAny> = Vec::new();
    let mut i: usize = 0;
    while i < symbols.len()
        invariant
            i <= symbols@.len(),
            pred == (|s: AsterFuturesUsdSymbol| usdm_parses(s)),
            out@.len() == symbols@.take(i as int).filter(pred).len(),
            forall|k: int| 0 <= k < out@.len() ==> usdm_instrument_of(
                #[trigger] out@[k],
                symbols@.take(i as int).filter(pred)[k],
                ts_init,
            ),
        decreases symbols@.len() - i,
    {
        let ghost before = symbols@.take(i as int);
        proof {
            assert(symbols@.take(i + 1) =~= before.push(symbols@[i as int]));
        }
        proof {
            before.lemma_filter_push(symbols@[i as int], pred);
        }
        match parse_usdm_instrument(&symbols[i], ts_init, ts_init) {
            Ok(inst) => {
                out.push(inst);
            },
            Err(_) => {},
        }
        i = i + 1;
    }
    assert(symbols@.take(symbols@.len() as int) =~= symbols@);
    out
}

/// Parses the COIN-M symbols of exchange info into instruments, skipping the
/// symbols that do not parse: the result holds, in order, the instrument of
/// each symbol that parses.
pub fn parse_coinm_instruments(symbols: &Vec<AsterFuturesCoinSymbol>, ts_init: u64) -> (r: Vec<InstrumentAny>)
    ensures
        r@.len() == symbols@.filter(|s: AsterFuturesCoinSymbol| coinm_parses(s)).len(),
        forall|i: int| 0 <= i < r@.len() ==> coinm_instrument_of(
            #[trigger] r@[i],
            symbols@.filter(|s: AsterFuturesCoinSymbol| coinm_parses(s))[i],
            ts_init,
        ),
{
    let ghost pred = |s: AsterFuturesCoinSymbol| coinm_parses(s);
    let mut out: Vec<InstrumentAny> = Vec::new();
    let mut i: usize = 0;
    while i < symbols.len()
        invariant
            i <= symbols@.len(),
            pred == (|s: AsterFuturesCoinSymbol| coinm_parses(s)),
            out@.len() == symbols@.take(i as int).filter(pred).len(),
            forall|k: int| 0 <= k < out@.len() ==> coinm_instrument_of(
                #[trigger] out@[k],
                symbols@.take(i as int).filter(pred)[k],
                ts_init,
            ),
        decreases symbols@.len() - i,
    {
        let ghost before = symbols@.take(i as int);
        proof {
            assert(symbols@.take(i + 1) =~= before.push(symbols@[i as int]));
        }
        proof {
            before.lemma_filter_push(symbols@[i as int], pred);
        }
        match parse_coinm_instrument(&symbols[i], ts_init, ts_init) {
            Ok(inst) => {
                out.push(inst);
            },
            Err(_) => {},
        }
        i = i + 1;
    }
    assert(symbols@.take(symbols@.len() as int) =~= symbols@);
    out
}

/// The instrument cache after `entries` are inserted into `cache` in order
/// (a later entry for a symbol replaces an earlier one).
pub open spec fn cache_after(
    cache: Map<Seq<char>, AsterFuturesInstrument>,
    entries: Seq<(String, AsterFuturesInstrument)>,
) -> Map<Seq<char>, AsterFuturesInstrument>
    decreases entries.len(),
{
    if entries.len() == 0 {
        cache
    } else {
        cache_after(cache, entries.drop_last()).insert(entries.last().0@, entries.last().1)
    }
}

/// Filling a cache with entries in order caches every entry's symbol; each
/// symbol maps to its last entry, and symbols with no entry keep what they had.
pub proof fn cache_fill_caches_every_symbol(
    cache: Map<Seq<char>, AsterFuturesInstrument>,
    entries: Seq<(String, AsterFuturesInstrument)>,
)
    ensures
        forall|i: int|
            0 <= i < entries.len() ==> cache_after(cache, entries).contains_key(
                (#[trigger] entries[i]).0@,
            ),
        forall|i: int|
            0 <= i < entries.len() && (forall|j: int| i < j < entries.len() ==> entries[j].0@ != entries[i].0@)
                ==> cache_after(cache, entries)[(#[trigger] entries[i]).0@] == entries[i].1,
        forall|k: Seq<char>|
            (forall|i: int| 0 <= i < entries.len() ==> entries[i].0@ != k) ==> (#[trigger] cache_after(
                cache,
                entries,
            ).contains_key(k) == cache.contains_key(k) && (cache.contains_key(k) ==> cache_after(
                cache,
                entries,
            )[k] == cache[k])),
    decreases entries.len(),
{
    if entries.len() > 0 {
        let init = entries.drop_last();
        cache_fill_caches_every_symbol(cache, init);
        assert forall|i: int| 0 <= i < entries.len() implies cache_after(cache, entries).contains_key(
            (#[trigger] entries[i]).0@,
        ) by {
            if i < init.len() {
                assert(entries[i] == init[i]);
            }
        }
        assert forall|i: int|
            0 <= i < entries.len() && (forall|j: int| i < j < entries.len() ==> entries[j].0@ != entries[i].0@)
                implies cache_after(cache, entries)[(#[trigger] entries[i]).0@] == entries[i].1 by {
            if i < init.len() {
                assert(entries[i] == init[i]);
                assert(entries[entries.len() - 1].0@ != entries[i].0@);
                assert forall|j: int| i < j < init.len() implies init[j].0@ != init[i].0@ by {
                    assert(init[j] == entries[j]);
                }
            }
        }
        assert forall|k: Seq<char>|
            (forall|i: int| 0 <= i < entries.len() ==> entries[i].0@ != k) implies (#[trigger] cache_after(
                cache,
                entries,
            ).contains_key(k) == cache.contains_key(k) && (cache.contains_key(k) ==> cache_after(
                cache,
                entries,
            )[k] == cache[k])) by {
            assert(entries[entries.len() - 1].0@ != k);
            assert forall|i: int| 0 <= i < init.len() implies init[i].0@ != k by {
                assert(init[i] == entries[i]);
            }
            assert(cache_after(cache, init).contains_key(k) == cache.contains_key(k));
        }
    }
}

/// The cache entries of USD-M exchange info: one per symbol, parsed or not, in
/// reply order, keyed by the symbol name.
pub fn usdm_cache_entries(symbols: Vec<AsterFuturesUsdSymbol>) -> (r: Vec<(String, AsterFuturesInstrument)>)
    ensures
        r@.len() == symbols@.len(),
        forall|i: int|
            0 <= i < symbols@.len() ==> (#[trigger] r@[i]).0@ == symbols@[i].symbol@ && r@[i].1
                == AsterFuturesInstrument::UsdM(symbols@[i]),
{
    let ghost all = symbols@;
    let mut rest = symbols;
    let mut out: Vec<(String, AsterFuturesInstrument)> = Vec::new();
    let n = rest.len();
    let mut k: usize = 0;
    while rest.len() > 0
        invariant
            all.len() == n,
            k + rest@.len() == all.len(),
            rest@ == all.subrange(k as int, all.len() as int),
            out@.len() == k,
            forall|i: int|
                0 <= i < k ==> (#[trigger] out@[i]).0@ == all[i].symbol@ && out@[i].1
                    == AsterFuturesInstrument::UsdM(all[i]),
        decreases rest@.len(),
    {
        let s = rest.remove(0);
        assert(s == all[k as int]);
        let key = s.symbol.clone();
        out.push((key, AsterFuturesInstrument::UsdM(s)));
        k = k + 1;
        assert(rest@ =~= all.subrange(k as int, all.len() as int));
    }
    out
}

/// The cache entries of COIN-M exchange info: one per symbol, parsed or not,
/// in reply order, keyed by the symbol name.
pub fn coinm_cache_entries(symbols: Vec<AsterFuturesCoinSymbol>) -> (r: Vec<(String, AsterFuturesInstrument)>)
    ensures
        r@.len() == symbols@.len(),
        forall|i: int|
            0 <= i < symbols@.len() ==> (#[trigger] r@[i]).0@ == symbols@[i].symbol@ && r@[i].1
                == AsterFuturesInstrument::CoinM(symbols@[i]),
{
    let ghost all = symbols@;
    let mut rest = symbols;
    let mut out: Vec<(String, AsterFuturesInstrument)> = Vec::new();
    let n = rest.len();
    let mut k: usize = 0;
    while rest.len() > 0
        invariant
            all.len() == n,
            k + rest@.len() == all.len(),
            rest@ == all.subrange(k as int, all.len() as int),
            out@.len() == k,
            forall|i: int|
                0 <= i < k ==> (#[trigger] out@[i]).0@ == all[i].symbol@ && out@[i].1
                    == AsterFuturesInstrument::CoinM(all[i]),
        decreases rest@.len(),
    {
        let s = rest.remove(0);
        assert(s == all[k as int]);
        let key = s.symbol.clone();
        out.push((key, AsterFuturesInstrument::CoinM(s)));
        k = k + 1;
        assert(rest@ =~= all.subrange(k as int, all.len() as int));
    }
    out
}

/// What loading instruments from exchange info produces: the parsed
/// instruments, and the entries to put in the instrument cache.
#[derive(Clone, Debug)]
pub struct InstrumentsUpdate {
    /// The instruments of the symbols that parse, in reply order.
    pub instruments: Vec<InstrumentAny>,
    /// One cache entry per symbol, parsed or not, in reply order; inserted in
    /// this order, they fill the cache that precision lookups read.
    pub cache_entries: Vec<(String, AsterFuturesInstrument)>,
}

/// Loads USD-M instruments from the symbols of exchange info: every symbol is
/// cached, and the symbols that parse become instruments (the others are skipped).
pub fn usdm_instruments_update(symbols: Vec<AsterFuturesUsdSymbol>, ts_init: u64) -> (r: InstrumentsUpdate)
    ensures
        r.instruments@.len() == symbols@.filter(|s: AsterFuturesUsdSymbol| usdm_parses(s)).len(),
        forall|i: int| 0 <= i < r.instruments@.len() ==> usdm_instrument_of(
            #[trigger] r.instruments@[i],
            symbols@.filter(|s: AsterFuturesUsdSymbol| usdm_parses(s))[i],
            ts_init,
        ),
        r.cache_entries@.len() == symbols@.len(),
        forall|i: int|
            0 <= i < symbols@.len() ==> (#[trigger] r.cache_entries@[i]).0@ == symbols@[i].symbol@
                && r.cache_entries@[i].1 == AsterFuturesInstrument::UsdM(symbols@[i]),
{
    let instruments = parse_usdm_instruments(&symbols, ts_init);
    let cache_entries = usdm_cache_entries(symbols);
    InstrumentsUpdate { instruments, cache_entries }
}

/// Loads COIN-M instruments from the symbols of exchange info: every symbol is
/// cached, and the symbols that parse become instruments (the others are skipped).
pub fn coinm_instruments_update(symbols: Vec<AsterFuturesCoinSymbol>, ts_init: u64) -> (r: InstrumentsUpdate)
    ensures
        r.instruments@.len() == symbols@.filter(|s: AsterFuturesCoinSymbol| coinm_parses(s)).len(),
        forall|i: int| 0 <= i < r.instruments@.len() ==> coinm_instrument_of(
            #[trigger] r.instruments@[i],
            symbols@.filter(|s: AsterFuturesCoinSymbol| coinm_parses(s))[i],
            ts_init,
        ),
        r.cache_entries@.len() == symbols@.len(),
        forall|i: int|
            0 <= i < symbols@.len() ==> (#[trigger] r.cache_entries@[i]).0@ == symbols@[i].symbol@
                && r.cache_entries@[i].1 == AsterFuturesInstrument::CoinM(symbols@[i]),
{
    let instruments = parse_coinm_instruments(&symbols, ts_init);
    let cache_entries = coinm_cache_entries(symbols);
    InstrumentsUpdate { instruments, cache_entries }
}

/// The status code an algo cancellation answer carries: its code as a 32-bit
/// integer, or 0 when the code is not one.
pub open spec fn algo_cancel_code(code: Seq<char>) -> int {
    match spec_parse_i64(code) {
        Some(v) => if i32::MIN <= v <= i32::MAX {
            v as int
        } else {
            0
        },
        None => 0,
    }
}

/// Judges the answer to an algo order cancellation: success exactly when its
/// code is 200; otherwise the failure message names the code and the message.
pub fn check_cancel_algo_response(code: &str, msg: &str) -> (r: Result<(), String>)
    ensures
        algo_cancel_code(code@) == 200 ==> r is Ok,
        algo_cancel_code(code@) != 200 ==> r is Err && r->Err_0@ == "Cancel algo order failed: code="@
            + code@ + ", msg="@ + msg@,
{
    let parsed = match parse_i64(code) {
        Some(v) => if v >= -2147483648 && v <= 2147483647 {
            v
        } else {
            0
        },
        None => 0,
    };
    if parsed == 200 {
        Ok(())
    } else {
        let mut m = String::new();
        push_str(&mut m, "Cancel algo order failed: code=");
        push_str(&mut m, code);
        push_str(&mut m, ", msg=");
        push_str(&mut m, msg);
        Err(m)
    }
}

/// Which cancel-all request was answered.
#[derive(Copy, Clone, Debug, PartialEq, Eq, Structural)]
pub enum CancelAllKind {
    /// Cancel all open orders.
    Orders,
    /// Cancel all open algo orders.
    AlgoOrders,
}

/// The failure message prefix of a cancel-all request.
pub open spec fn cancel_all_prefix(kind: CancelAllKind) -> Seq<char> {
    match kind {
        CancelAllKind::Orders => "Cancel all orders failed: "@,
        CancelAllKind::AlgoOrders => "Cancel all algo orders failed: "@,
    }
}

/// Judges the answer to a cancel-all request: success exactly when its code is
/// 200; otherwise the failure message carries the answer's message.
pub fn check_cancel_all_response(kind: CancelAllKind, code: i64, msg: &str) -> (r: Result<(), String>)
    ensures
        code == 200 ==> r is Ok,
        code != 200 ==> r is Err && r->Err_0@ == cancel_all_prefix(kind) + msg@,
{
    if code == 200 {
        Ok(())
    } else {
        let mut m = String::new();
        match kind {
            CancelAllKind::Orders => push_str(&mut m, "Cancel all orders failed: "),
            CancelAllKind::AlgoOrders => push_str(&mut m, "Cancel all algo orders failed: "),
        }
        push_str(&mut m, msg);
        Err(m)
    }
}

} // verus!
