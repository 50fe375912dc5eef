//! Hyperliquid WebSocket channel taxonomy.
//!
//! Wallet-private channels (`userFills`, `userFundings`, `webData2`,
//! `orderUpdates`) are keyed by wallet address; public market-data channels
//! have the form `<channel_type>@<instrument>` or `<channel_type>@<instrument>/<extra>`.

use vstd::prelude::*;
use vstd::string::StrSliceExecFns;

use crate::model::InstrumentId;
use crate::text::{before_first, first_index, first_index_of, lemma_first_index_of};

verus! {

/// The Hyperliquid channels keyed by wallet address.
pub const WALLET_PRIVATE_CHANNELS: [&'static str; 4] = [
    "userFills",
    "userFundings",
    "webData2",
    "orderUpdates",
];

/// The parts of a Hyperliquid channel string: the channel type, and the
/// instrument when the channel has an `@`. The split is on the first `@`, and
/// the instrument ends at the first `/` after it.
pub open spec fn hl_channel_parts(channel: Seq<char>) -> (Seq<char>, Option<Seq<char>>) {
    let i = first_index_of(channel, '@') as int;
    if i == channel.len() {
        (channel, None)
    } else {
        let rest = channel.subrange(i + 1 as int, channel.len() as int);
        (channel.subrange(0, i as int), Some(before_first(rest, '/')))
    }
}

/// Parses a Hyperliquid WS channel string into `(channel_type, instrument)`.
///
/// `"l2Book@BTC"` gives `("l2Book", Some("BTC"))`, `"candle@SOL/4h"` gives
/// `("candle", Some("SOL"))`, `"userFills"` gives `("userFills", None)`,
/// `"trades@@ETH"` gives `("trades", Some("@ETH"))` and `""` gives `("", None)`.
pub fn parse_hl_channel<'a>(channel: &'a str) -> (r: (&'a str, Option<&'a str>))
    ensures
        r.0@ == hl_channel_parts(channel@).0,
        match r.1 {
            Some(inst) => hl_channel_parts(channel@).1 == Some(inst@),
            None => hl_channel_parts(channel@).1 is None,
        },
{
    let n = channel.unicode_len();
    let i = first_index(channel, '@');
    proof {
        lemma_first_index_of(channel@, '@');
    }
    if i == n {
        (channel, None)
    } else {
        let channel_type = channel.substring_char(0, i);
        let rest = channel.substring_char(i + 1, n);
        let j = first_index(rest, '/');
        proof {
            lemma_first_index_of(rest@, '/');
        }
        let instrument = rest.substring_char(0, j);
        (channel_type, Some(instrument))
    }
}

/// The symbol a pool hashes for an instrument: the instrument symbol up to its first `-`.
pub open spec fn hl_symbol(symbol: Seq<char>) -> Seq<char> {
    before_first(symbol, '-')
}

/// Extracts the raw Hyperliquid symbol from an instrument ID.
///
/// `"BTC-USD-PERP.HYPERLIQUID"` gives `"BTC"` and `"@107-USD-SPOT.HYPERLIQUID"` gives `"@107"`.
pub fn extract_hl_symbol(instrument_id: &InstrumentId) -> (r: String)
    ensures
        r@ == hl_symbol(instrument_id.symbol@),
{
    let s = instrument_id.symbol.as_str();
    let j = first_index(s, '-');
    proof {
        lemma_first_index_of(s@, '-');
    }
    s.substring_char(0, j).to_owned()
}

/// A channel splits at its first `@`: the channel type holds no `@`; without
/// an instrument the type is the whole channel; with one, the channel begins
/// with the type, `@` and the instrument, and the instrument holds no `/`.
pub proof fn hl_channel_split(channel: Seq<char>)
    ensures
        forall|j: int| 0 <= j < hl_channel_parts(channel).0.len() ==> #[trigger] hl_channel_parts(channel).0[j] != '@',
        hl_channel_parts(channel).1 is None ==> hl_channel_parts(channel).0 == channel,
        hl_channel_parts(channel).1 is Some ==> ({
            let t = hl_channel_parts(channel).0;
            let inst = hl_channel_parts(channel).1->Some_0;
            &&& t.len() + 1 + inst.len() <= channel.len()
            &&& channel.subrange(0, t.len() + 1int + inst.len()) == t + seq!['@'] + inst
            &&& forall|j: int| 0 <= j < inst.len() ==> #[trigger] inst[j] != '/'
        }),
{
    lemma_first_index_of(channel, '@');
    let i = first_index_of(channel, '@') as int;
    if i < channel.len() {
        let rest = channel.subrange(i + 1, channel.len() as int);
        lemma_first_index_of(rest, '/');
        let t = channel.subrange(0, i);
        let inst = before_first(rest, '/');
        assert(channel.subrange(0, t.len() + 1int + inst.len()) =~= t + seq!['@'] + inst);
    }
}

} // verus!
