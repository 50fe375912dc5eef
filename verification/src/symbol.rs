//! Conversions between Aster symbols and instrument IDs.

use vstd::prelude::*;
use vstd::string::StrSliceExecFns;

use crate::enums::AsterProductType;
use crate::model::InstrumentId;
use crate::text::{ends_with, lowercase_of, push_str, to_lowercase};

verus! {

/// The Aster venue identifier string.
pub const ASTER: &'static str = "ASTER";

/// The instrument symbol of an Aster symbol: USD-M symbols get a `-PERP`
/// suffix, all other symbols (COIN-M symbols already end in `_PERP`) are kept.
pub open spec fn instrument_symbol(symbol: Seq<char>, product_type: AsterProductType) -> Seq<char> {
    if product_type == AsterProductType::UsdM {
        symbol + "-PERP"@
    } else {
        symbol
    }
}

/// Converts an Aster symbol to an instrument ID at the Aster venue.
///
/// `("BTCUSDT", UsdM)` gives `BTCUSDT-PERP.ASTER` and `("ETHUSD_PERP", CoinM)`
/// gives `ETHUSD_PERP.ASTER`.
pub fn format_instrument_id(symbol: &str, product_type: AsterProductType) -> (id: InstrumentId)
    ensures
        id.symbol@ == instrument_symbol(symbol@, product_type),
        id.venue@ == "ASTER"@,
{
    let mut s = symbol.to_owned();
    if product_type == AsterProductType::UsdM {
        push_str(&mut s, "-PERP");
    }
    InstrumentId::new(s, ASTER.to_owned())
}

/// A symbol with every trailing `-PERP` removed.
pub open spec fn trim_perp(s: Seq<char>) -> Seq<char>
    decreases s.len(),
{
    if s.len() >= 5 && s.subrange(s.len() - 5, s.len() as int) == "-PERP"@ {
        trim_perp(s.subrange(0, s.len() - 5))
    } else {
        s
    }
}

/// Converts an instrument ID to an Aster symbol by stripping the `-PERP`
/// suffix that instrument symbols carry and Aster does not recognize.
///
/// `BTCUSDT-PERP` gives `BTCUSDT`; `ETHUSD_PERP` and `BTCUSDT` are kept.
pub fn format_aster_symbol(instrument_id: &InstrumentId) -> (r: String)
    ensures
        r@ == trim_perp(instrument_id.symbol@),
{
    let s = instrument_id.symbol.as_str();
    let n = s.unicode_len();
    let mut end: usize = n;
    proof {
        reveal_strlit("-PERP");
        assert(s@.subrange(0, n as int) =~= s@);
    }
    loop
        invariant
            end <= n,
            n == s@.len(),
            s@ == instrument_id.symbol@,
            "-PERP"@.len() == 5,
            trim_perp(s@) == trim_perp(s@.subrange(0, end as int)),
        decreases end,
    {
        let prefix = s.substring_char(0, end);
        if end >= 5 && ends_with(prefix, "-PERP") {
            assert(s@.subrange(0, end as int).subrange(0, end - 5) =~= s@.subrange(0, end - 5));
            end = end - 5;
        } else {
            assert(prefix@ == s@.subrange(0, end as int));
            assert(trim_perp(prefix@) == prefix@);
            return prefix.to_owned();
        }
    }
}

/// Converts an instrument ID to a lowercase Aster WebSocket stream symbol.
pub fn format_aster_stream_symbol(instrument_id: &InstrumentId) -> (r: String)
    ensures
        r@ == lowercase_of(trim_perp(instrument_id.symbol@)),
{
    let s = format_aster_symbol(instrument_id);
    to_lowercase(s.as_str())
}

/// Formatting an Aster symbol as a USD-M instrument and converting back gives
/// the symbol again, for every symbol that does not itself end in `-PERP`.
pub proof fn usdm_symbol_round_trip(symbol: Seq<char>)
    requires
        !(symbol.len() >= 5 && symbol.subrange(symbol.len() - 5, symbol.len() as int) == "-PERP"@),
    ensures
        trim_perp(instrument_symbol(symbol, AsterProductType::UsdM)) == symbol,
{
    reveal_strlit("-PERP");
    let t = symbol + "-PERP"@;
    assert(t.subrange(t.len() - 5, t.len() as int) =~= "-PERP"@);
    assert(t.subrange(0, t.len() - 5) =~= symbol);
    assert(trim_perp(t) == trim_perp(symbol));
    assert(trim_perp(symbol) == symbol);
}

} // verus!
