//! Multi-IP source-binding pools for HTTP and WebSocket clients: the deterministic
//! instrument-to-slot hash, the pick hints, and the slot pickers of the pools.

use std::collections::HashMap;
use std::hash::Hasher;

use siphasher::sip::SipHasher13;
use vstd::prelude::*;
use vstd::string::StringSliceAdditionalSpecFns;

use crate::rate_limit::Quota;

verus! {

/// The SipHash-1-3 digest, under the key `(0, 0)`, of a byte message.
pub uninterp spec fn siphash13_zero_key(msg: Seq<u8>) -> u64;

/// Calls `siphasher::sip::SipHasher13` with the keys `(0, 0)`: writes `msg` and
/// returns `finish()`. The digest is named by `siphash13_zero_key`, a function of
/// the bytes alone; nothing more of SipHash is stated.
#[verifier::external_body]
fn siphash13_zero_key_digest(msg: &[u8]) -> (h: u64)
    ensures
        h == siphash13_zero_key(msg@),
{
    let mut hasher = SipHasher13::new_with_keys(0, 0);
    hasher.write(msg);
    hasher.finish()
}

/// The 8-byte little-endian encoding of a number.
pub open spec fn u64_le_bytes(n: u64) -> Seq<u8> {
    Seq::new(8, |i: int| ((n as int / pow256(i)) % 256) as u8)
}

/// 256 to the power `i`.
pub open spec fn pow256(i: int) -> int
    decreases i,
{
    if i <= 0 {
        1
    } else {
        256 * pow256(i - 1)
    }
}

/// The message hashed for an instrument: the length prefix (the 8-byte
/// little-endian byte count, as a hasher receives a byte slice's length on a
/// 64-bit target) followed by the bytes.
pub open spec fn instrument_hash_message(bytes: Seq<u8>) -> Seq<u8> {
    u64_le_bytes(bytes.len() as u64) + bytes
}

/// The slot of an instrument among `n_slots` slots.
pub open spec fn instrument_slot(instrument: Seq<u8>, n_slots: usize) -> usize {
    (siphash13_zero_key(instrument_hash_message(instrument)) as int % n_slots as int) as usize
}

fn push_le_bytes(v: &mut Vec<u8>, n: u64)
    ensures
        final(v)@ == old(v)@ + u64_le_bytes(n),
{
    let ghost start = v@;
    let mut rest: u64 = n;
    let mut i: usize = 0;
    while i < 8
        invariant
            i <= 8,
            v@.len() == start.len() + i,
            v@.subrange(0, start.len() as int) == start,
            rest as int == n as int / pow256(i as int),
            forall|k: int| 0 <= k < i ==> v@[start.len() + k] == u64_le_bytes(n)[k],
        decreases 8 - i,
    {
        proof {
            assert(pow256(i as int + 1) == 256 * pow256(i as int));
            assert(pow256(i as int) > 0) by {
                lemma_pow256_positive(i as int);
            }
            vstd::arithmetic::div_mod::lemma_div_denominator(n as int, pow256(i as int), 256);
        }
        v.push((rest % 256) as u8);
        rest = rest / 256;
        i = i + 1;
    }
    assert(v@ =~= start + u64_le_bytes(n));
}

proof fn lemma_pow256_positive(i: int)
    ensures
        pow256(i) > 0,
    decreases i,
{
    if i > 0 {
        lemma_pow256_positive(i - 1);
    }
}

/// Returns the slot index for an instrument, deterministic across process restarts.
///
/// Uses fixed-key SipHash-1-3 (key `(0, 0)`) over the instrument's bytes, with
/// the 8-byte length prefix a hasher receives for a byte slice on 64-bit targets,
/// so the same instrument lands on the same slot every time.
pub fn slot_for_instrument(instrument: &str, n_slots: usize) -> (slot: usize)
    requires
        n_slots > 0,
    ensures
        slot == instrument_slot(instrument.spec_bytes(), n_slots),
        slot < n_slots,
{
    let bytes = instrument.as_bytes();
    let mut msg: Vec<u8> = Vec::new();
    push_le_bytes(&mut msg, bytes.len() as u64);
    let mut i: usize = 0;
    while i < bytes.len()
        invariant
            i <= bytes@.len(),
            bytes@ == instrument.spec_bytes(),
            msg@ == u64_le_bytes(bytes@.len() as u64) + bytes@.take(i as int),
        decreases bytes@.len() - i,
    {
        msg.push(bytes[i]);
        assert(bytes@.take(i + 1) =~= bytes@.take(i as int).push(bytes@[i as int]));
        i = i + 1;
    }
    assert(bytes@.take(bytes@.len() as int) =~= bytes@);
    let h = siphash13_zero_key_digest(msg.as_slice());
    (h % (n_slots as u64)) as usize
}


/// Hint that callers pass into a pool to influence which slot is picked.
///
/// `Stateless` requests can use any slot (round-robin). `WalletPrivateChannel`
/// subscriptions are pinned to slot 0 so the venue never delivers a wallet event
/// once per IP. `MarketDataChannel` is sharded per [`ShardMode`].
#[derive(Debug, Clone, Copy, PartialEq, Eq)]
pub enum PickHint<'a> {
    /// Stateless REST, round-robin via the pool counter.
    Stateless,
    /// Channels keyed by wallet address (`userFills`, `userFundings`, `webData2`,
    /// `orderUpdates`), pinned to slot 0.
    WalletPrivateChannel {
        /// Channel name carried for logging/metrics.
        channel: &'a str,
    },
    /// Public market-data channels, sharded per [`ShardMode`].
    ///
    /// `instrument` must be the raw venue symbol (e.g. `"BTC"`), not the full
    /// instrument ID, whose format would re-shard when it changes.
    MarketDataChannel {
        /// Raw venue symbol.
        instrument: &'a str,
        /// Channel name (e.g. `"l2Book@BTC"`).
        channel: &'a str,
    },
}

/// How a pool decides which slot to use for a market-data request.
#[derive(Debug, Clone, Copy, PartialEq, Eq, Structural)]
pub enum ShardMode {
    /// Default. Per-instrument bucketing via [`slot_for_instrument`]; keeps all
    /// of an instrument's channels on one slot.
    Instrument,
    /// Round-robin counter. No locality.
    RoundRobin,
}

/// Errors returned by pool construction and pick paths.
#[derive(Debug, Clone, PartialEq, Eq)]
pub enum PoolError {
    /// The pool was constructed with no slots.
    Empty,
    /// A configured IP string could not be parsed.
    InvalidAddress {
        /// The malformed input.
        input: String,
        /// The parse error.
        reason: String,
    },
    /// Building a client bound to the requested local IP failed.
    BindFailed {
        /// The local IP that failed to bind, in its textual form.
        address: String,
        /// Underlying error from the client builder.
        cause: String,
    },
}

/// Template carrying every argument a pooled HTTP client is built with except
/// the local address, which the pool fills per slot.
#[derive(Debug, Clone)]
pub struct HttpClientTemplate {
    /// Static default headers (e.g. `User-Agent`).
    pub headers: HashMap<String, String>,
    /// Header keys to pre-intern (for rate-limit response parsing).
    pub header_keys: Vec<String>,
    /// Per-endpoint rate-limit quotas keyed by endpoint name.
    pub keyed_quotas: Vec<(String, Quota)>,
    /// Default quota applied when no keyed quota matches.
    pub default_quota: Option<Quota>,
    /// Optional overall request timeout in seconds.
    pub timeout_secs: Option<u64>,
    /// Optional forward HTTP proxy URL.
    pub proxy_url: Option<String>,
}

impl Default for HttpClientTemplate {
    fn default() -> (t: Self)
        ensures
            t.headers@ == Map::<String, String>::empty(),
            t.header_keys@.len() == 0,
            t.keyed_quotas@.len() == 0,
            t.default_quota is None,
            t.timeout_secs is None,
            t.proxy_url is None,
    {
        HttpClientTemplate {
            headers: HashMap::new(),
            header_keys: Vec::new(),
            keyed_quotas: Vec::new(),
            default_quota: None,
            timeout_secs: None,
            proxy_url: None,
        }
    }
}

/// The first slot whose client could not be built, if any: the lowest index
/// whose build result is an error.
pub open spec fn first_bind_failure<C>(results: Seq<(String, Result<C, String>)>) -> Option<int> {
    if exists|k: int| 0 <= k < results.len() && results[k].1 is Err {
        Some(
            choose|k: int|
                0 <= k < results.len() && results[k].1 is Err && forall|j: int|
                    0 <= j < k ==> results[j].1 is Ok,
        )
    } else {
        None
    }
}

/// The clients of slots that were all built, in slot order.
pub open spec fn built_clients<C>(results: Seq<(String, Result<C, String>)>) -> Seq<C> {
    results.map_values(|e: (String, Result<C, String>)| e.1->Ok_0)
}

/// What a pool is made of, given the build result of each slot in address
/// order (address text, client or why it failed): no slot is an error; the
/// first failed slot is a bind failure at its address (no partial pool);
/// otherwise the clients, in address order.
pub open spec fn pool_build_outcome<C>(results: Seq<(String, Result<C, String>)>) -> Result<
    Seq<C>,
    PoolError,
> {
    if results.len() == 0 {
        Err(PoolError::Empty)
    } else {
        match first_bind_failure(results) {
            Some(k) => Err(
                PoolError::BindFailed { address: results[k].0, cause: results[k].1->Err_0 },
            ),
            None => Ok(built_clients(results)),
        }
    }
}

/// Collects the clients of the slots' build results (see [`pool_build_outcome`]).
fn collect_slots<C>(results: Vec<(String, Result<C, String>)>) -> (r: Result<Vec<C>, PoolError>)
    ensures
        match pool_build_outcome(results@) {
            Err(e) => r == Err::<Vec<C>, PoolError>(e),
            Ok(cs) => r is Ok && r->Ok_0@ == cs,
        },
{
    if results.len() == 0 {
        return Err(PoolError::Empty);
    }
    let ghost all = results@;
    let n = results.len();
    let mut rest = results;
    let mut slots: Vec<C> = Vec::new();
    let mut k: usize = 0;
    while rest.len() > 0
        invariant
            all == results@,
            all.len() == n,
            n > 0,
            k + rest@.len() == all.len(),
            rest@ == all.subrange(k as int, all.len() as int),
            slots@ == built_clients(all.take(k as int)),
            forall|j: int| 0 <= j < k ==> (#[trigger] all[j]).1 is Ok,
        decreases rest@.len(),
    {
        let (address, built) = rest.remove(0);
        assert((address, built) == all[k as int]);
        match built {
            Ok(client) => {
                slots.push(client);
                k = k + 1;
                assert(rest@ =~= all.subrange(k as int, all.len() as int));
                assert(slots@ =~= built_clients(all.take(k as int)));
            },
            Err(cause) => {
                proof {
                    assert(0 <= k < all.len() && all[k as int].1 is Err && forall|j: int|
                        0 <= j < k ==> all[j].1 is Ok);
                    let w = choose|w: int|
                        0 <= w < all.len() && all[w].1 is Err && forall|j: int|
                            0 <= j < w ==> all[j].1 is Ok;
                    assert(all[k as int].1 is Err);
                    if w < k {
                        assert(all[w].1 is Ok);
                    } else if w > k {
                        assert(all[k as int].1 is Ok);
                    }
                    assert(first_bind_failure(all) == Some(k as int));
                }
                return Err(PoolError::BindFailed { address, cause });
            },
        }
    }
    proof {
        assert(all.take(all.len() as int) =~= all);
        assert(!exists|w: int| 0 <= w < all.len() && all[w].1 is Err);
    }
    Ok(slots)
}

/// The slot a stateless pick takes: slot 0 for a single-slot pool, otherwise the
/// counter modulo the number of slots.
pub open spec fn round_robin_slot(counter: usize, n_slots: usize) -> usize {
    if n_slots == 1 {
        0
    } else {
        (counter as int % n_slots as int) as usize
    }
}

/// The counter after a stateless pick: unchanged for a single-slot pool,
/// otherwise advanced by one (wrapping).
pub open spec fn round_robin_next(counter: usize, n_slots: usize) -> usize {
    if n_slots == 1 {
        counter
    } else if counter == usize::MAX {
        0
    } else {
        (counter + 1) as usize
    }
}

/// A fan of HTTP clients sharing the same template, each bound to a distinct
/// local source IP. Stateless REST is round-robined across slots to amortise
/// per-IP rate limits. The pool always has at least one slot.
#[derive(Debug)]
pub struct HttpPool<C> {
    slots: Vec<C>,
    rr_counter: usize,
}

impl<C> HttpPool<C> {
    /// The clients of the pool, by slot.
    pub closed spec fn slots(&self) -> Seq<C> {
        self.slots@
    }

    /// The round-robin counter.
    pub closed spec fn counter(&self) -> usize {
        self.rr_counter
    }

    #[verifier::type_invariant]
    closed spec fn inv(&self) -> bool {
        self.slots@.len() > 0
    }

    /// Builds a pool from one client per configured address.
    ///
    /// Returns [`PoolError::Empty`] when there is no client.
    pub fn new(slots: Vec<C>) -> (r: Result<Self, PoolError>)
        ensures
            slots@.len() == 0 ==> r == Err::<Self, PoolError>(PoolError::Empty),
            slots@.len() > 0 ==> r is Ok && r->Ok_0.slots() == slots@ && r->Ok_0.counter() == 0,
    {
        if slots.len() == 0 {
            return Err(PoolError::Empty);
        }
        Ok(HttpPool { slots, rr_counter: 0 })
    }

    /// Builds a pool from the build result of each slot's client, in address
    /// order: [`PoolError::Empty`] without slots, [`PoolError::BindFailed`] at
    /// the first address whose client failed (no partial pool), and otherwise
    /// the pool of the clients in address order.
    pub fn from_bind_results(results: Vec<(String, Result<C, String>)>) -> (r: Result<Self, PoolError>)
        ensures
            match pool_build_outcome(results@) {
                Err(e) => r == Err::<Self, PoolError>(e),
                Ok(cs) => r is Ok && r->Ok_0.slots() == cs && r->Ok_0.counter() == 0,
            },
    {
        match collect_slots(results) {
            Ok(slots) => Self::new(slots),
            Err(e) => Err(e),
        }
    }

    /// Builds a one-slot pool around a client with no source-IP binding; every
    /// pick returns slot 0.
    pub fn new_no_bind(client: C) -> (p: Self)
        ensures
            p.slots() == seq![client],
            p.counter() == 0,
    {
        let mut slots = Vec::new();
        slots.push(client);
        HttpPool { slots, rr_counter: 0 }
    }

    /// Number of slots in the pool.
    pub fn len(&self) -> (n: usize)
        ensures
            n == self.slots().len(),
            n > 0,
    {
        proof {
            use_type_invariant(self);
        }
        self.slots.len()
    }

    /// Whether the pool has no slots (never true: a pool has at least one slot).
    pub fn is_empty(&self) -> (b: bool)
        ensures
            b == (self.slots().len() == 0),
            !b,
    {
        proof {
            use_type_invariant(self);
        }
        self.slots.len() == 0
    }

    /// Picks a slot and returns its index and client.
    ///
    /// The hint must be [`PickHint::Stateless`]: the pool serves stateless REST
    /// only. A single-slot pool always returns slot 0 and leaves the counter
    /// alone; otherwise the slot is the counter modulo the number of slots, and
    /// the counter advances by one.
    pub fn pick_client(&mut self, hint: PickHint<'_>) -> (r: (usize, &C))
        requires
            hint is Stateless,
        ensures
            r.0 == round_robin_slot(old(self).counter(), old(self).slots().len() as usize),
            r.0 < old(self).slots().len(),
            *r.1 == old(self).slots()[r.0 as int],
            final(self).slots() == old(self).slots(),
            final(self).counter() == round_robin_next(
                old(self).counter(),
                old(self).slots().len() as usize,
            ),
    {
        proof {
            use_type_invariant(&*self);
        }
        let n = self.slots.len();
        if n == 1 {
            return (0, &self.slots[0]);
        }
        let slot = self.rr_counter % n;
        self.rr_counter = self.rr_counter.wrapping_add(1);
        (slot, &self.slots[slot])
    }
}

/// Round-robin picks visit the slots in order: the slot taken after a pick is
/// the next slot, modulo the number of slots (until the counter wraps).
pub proof fn round_robin_visits_slots_in_order(counter: usize, n_slots: usize)
    requires
        n_slots > 0,
        counter < usize::MAX,
    ensures
        round_robin_slot(round_robin_next(counter, n_slots), n_slots) == (round_robin_slot(
            counter,
            n_slots,
        ) + 1) % (n_slots as int),
        round_robin_slot(counter, n_slots) < n_slots,
{
    if n_slots > 1 {
        vstd::arithmetic::div_mod::lemma_add_mod_noop(counter as int, 1, n_slots as int);
        vstd::arithmetic::div_mod::lemma_small_mod(1, n_slots as nat);
    }
}

/// The slot a WebSocket pick takes: slot 0 for wallet-private channels and for
/// stateless hints, the instrument's hash slot or the round-robin slot for
/// market-data channels.
pub open spec fn ws_pick_slot(
    hint: PickHint,
    mode: ShardMode,
    counter: usize,
    n_slots: usize,
) -> usize {
    match hint {
        PickHint::MarketDataChannel { instrument, .. } => match mode {
            ShardMode::Instrument => instrument_slot(instrument.spec_bytes(), n_slots),
            ShardMode::RoundRobin => (counter as int % n_slots as int) as usize,
        },
        _ => 0,
    }
}

/// The counter after a WebSocket pick: advanced (wrapping) only by round-robin
/// market-data picks.
pub open spec fn ws_pick_next(hint: PickHint, mode: ShardMode, counter: usize) -> usize {
    if hint is MarketDataChannel && mode == ShardMode::RoundRobin {
        if counter == usize::MAX {
            0
        } else {
            (counter + 1) as usize
        }
    } else {
        counter
    }
}

/// The arguments, besides its configuration, with which each WebSocket slot of
/// a pool connects: the message, ping and post-reconnection handlers and the
/// rate-limit quotas. Every slot gets a copy of the same arguments.
#[derive(Clone)]
pub struct WsConnectArgs<M, P, R> {
    /// Optional handler invoked for each incoming message.
    pub message_handler: Option<M>,
    /// Optional handler invoked for each incoming ping frame.
    pub ping_handler: Option<P>,
    /// Optional callback fired after a successful reconnect.
    pub post_reconnection: Option<R>,
    /// Per-endpoint rate-limit quotas.
    pub keyed_quotas: Vec<(String, Quota)>,
    /// Default rate-limit quota.
    pub default_quota: Option<Quota>,
}

/// Whether a list of channel names holds no name twice.
pub open spec fn distinct_names(v: Seq<String>) -> bool {
    forall|i: int, j: int| 0 <= i < j < v.len() ==> v[i]@ != v[j]@
}

/// The set of channel names in a list.
pub open spec fn name_set(v: Seq<String>) -> Set<Seq<char>> {
    Set::new(|s: Seq<char>| exists|i: int| 0 <= i < v.len() && v[i]@ == s)
}

/// A fan of WebSocket clients, each bound to a distinct local source IP.
///
/// Wallet-private channels are hard-pinned to slot 0 to prevent duplicate event
/// delivery across IPs; market-data channels are sharded per [`ShardMode`]. The
/// pool always has at least one slot, and keeps per slot the set of channels
/// recorded as subscribed there.
#[derive(Debug)]
pub struct WsPool<C> {
    slots: Vec<C>,
    shard_mode: ShardMode,
    rr_counter: usize,
    sub_counts: Vec<Vec<String>>,
}

impl<C> WsPool<C> {
    /// The clients of the pool, by slot.
    pub closed spec fn slots(&self) -> Seq<C> {
        self.slots@
    }

    /// The shard mode of the pool.
    pub closed spec fn mode(&self) -> ShardMode {
        self.shard_mode
    }

    /// The round-robin counter.
    pub closed spec fn counter(&self) -> usize {
        self.rr_counter
    }

    /// The channels recorded as subscribed on a slot.
    pub closed spec fn subscriptions(&self, slot: int) -> Set<Seq<char>> {
        name_set(self.sub_counts@[slot]@)
    }

    /// The pool is well formed: it has a slot, one subscription set per slot,
    /// and no channel recorded twice on a slot.
    #[verifier::type_invariant]
    closed spec fn wf(&self) -> bool {
        &&& self.slots@.len() > 0
        &&& self.sub_counts@.len() == self.slots@.len()
        &&& forall|i: int| 0 <= i < self.sub_counts@.len() ==> distinct_names(#[trigger] self.sub_counts@[i]@)
    }

    /// Builds a pool from one connected client per configured address.
    ///
    /// Returns [`PoolError::Empty`] when there is no client.
    pub fn new(slots: Vec<C>, shard_mode: ShardMode) -> (r: Result<Self, PoolError>)
        ensures
            slots@.len() == 0 ==> r == Err::<Self, PoolError>(PoolError::Empty),
            slots@.len() > 0 ==> r is Ok && r->Ok_0.slots() == slots@ && r->Ok_0.mode() == shard_mode
                && r->Ok_0.counter() == 0 && forall|i: int|
                0 <= i < slots@.len() ==> r->Ok_0.subscriptions(i) == Set::<Seq<char>>::empty(),
    {
        let n = slots.len();
        if n == 0 {
            return Err(PoolError::Empty);
        }
        let mut sub_counts: Vec<Vec<String>> = Vec::new();
        let mut i: usize = 0;
        while i < n
            invariant
                i <= n,
                sub_counts@.len() == i,
                forall|k: int| 0 <= k < i ==> (#[trigger] sub_counts@[k])@.len() == 0,
            decreases n - i,
        {
            sub_counts.push(Vec::new());
            i = i + 1;
        }
        assert forall|k: int| 0 <= k < sub_counts@.len() implies distinct_names(
            #[trigger] sub_counts@[k]@,
        ) by {
            assert(sub_counts@[k]@.len() == 0);
        }
        let pool = WsPool { slots, shard_mode, rr_counter: 0, sub_counts };
        assert forall|k: int| 0 <= k < n implies pool.subscriptions(k) == Set::<Seq<char>>::empty() by {
            assert(pool.sub_counts@[k]@.len() == 0);
            assert(name_set(pool.sub_counts@[k]@) =~= Set::<Seq<char>>::empty());
        }
        Ok(pool)
    }

    /// Builds a pool from the connect result of each slot's client, in
    /// address order: [`PoolError::Empty`] without slots,
    /// [`PoolError::BindFailed`] at the first address whose client failed to
    /// connect (no partial pool), and otherwise the pool of the clients in
    /// address order, with nothing subscribed.
    pub fn from_connect_results(results: Vec<(String, Result<C, String>)>, shard_mode: ShardMode) -> (r:
        Result<Self, PoolError>)
        ensures
            match pool_build_outcome(results@) {
                Err(e) => r == Err::<Self, PoolError>(e),
                Ok(cs) => r is Ok && r->Ok_0.slots() == cs && r->Ok_0.mode() == shard_mode
                    && r->Ok_0.counter() == 0 && forall|i: int|
                    0 <= i < cs.len() ==> r->Ok_0.subscriptions(i) == Set::<Seq<char>>::empty(),
            },
    {
        proof {
            if results@.len() > 0 && first_bind_failure(results@) is None {
                assert(built_clients(results@).len() > 0);
            }
        }
        match collect_slots(results) {
            Ok(slots) => Self::new(slots, shard_mode),
            Err(e) => Err(e),
        }
    }

    /// Number of slots in the pool.
    pub fn len(&self) -> (n: usize)
        ensures
            n == self.slots().len(),
            n > 0,
    {
        proof {
            use_type_invariant(self);
        }
        self.slots.len()
    }

    /// Whether the pool has no slots (never true: a pool has at least one slot).
    pub fn is_empty(&self) -> (b: bool)
        ensures
            b == (self.slots().len() == 0),
            !b,
    {
        proof {
            use_type_invariant(self);
        }
        self.slots.len() == 0
    }

    /// Pure slot selection, with no I/O.
    ///
    /// Wallet-private channels always take slot 0; market-data channels take the
    /// instrument's hash slot, or the round-robin slot (advancing the counter) in
    /// round-robin mode. [`PickHint::Stateless`] is invalid here: the pool serves
    /// stateful subscriptions only.
    pub fn pick_slot(&mut self, hint: PickHint<'_>) -> (slot: usize)
        requires
            !(hint is Stateless),
        ensures
            slot == ws_pick_slot(hint, old(self).mode(), old(self).counter(), old(self).slots().len() as usize),
            slot < old(self).slots().len(),
            final(self).counter() == ws_pick_next(hint, old(self).mode(), old(self).counter()),
            final(self).slots() == old(self).slots(),
            final(self).mode() == old(self).mode(),
            forall|i: int| final(self).subscriptions(i) == old(self).subscriptions(i),
    {
        proof {
            use_type_invariant(&*self);
        }
        let n = self.slots.len();
        match hint {
            PickHint::Stateless => 0,
            PickHint::WalletPrivateChannel { .. } => 0,
            PickHint::MarketDataChannel { instrument, .. } => match self.shard_mode {
                ShardMode::Instrument => slot_for_instrument(instrument, n),
                ShardMode::RoundRobin => {
                    let slot = self.rr_counter % n;
                    self.rr_counter = self.rr_counter.wrapping_add(1);
                    slot
                },
            },
        }
    }

    /// Returns the client of a slot.
    pub fn client(&self, slot: usize) -> (c: &C)
        requires
            slot < self.slots().len(),
        ensures
            *c == self.slots()[slot as int],
    {
        &self.slots[slot]
    }

    /// Records a successful subscription of a channel on a slot (after a
    /// successful dispatch). Idempotent; a slot outside the pool is ignored.
    pub fn record_subscription(&mut self, slot: usize, channel: String)
        ensures
            final(self).slots() == old(self).slots(),
            final(self).mode() == old(self).mode(),
            final(self).counter() == old(self).counter(),
            forall|i: int| 0 <= i < old(self).slots().len() && i != slot ==> final(self).subscriptions(i) == old(self).subscriptions(i),
            slot < old(self).slots().len() ==> final(self).subscriptions(slot as int) == old(
                self,
            ).subscriptions(slot as int).insert(channel@),
    {
        proof {
            use_type_invariant(&*self);
        }
        if slot >= self.sub_counts.len() {
            return;
        }
        let ghost old_counts = self.sub_counts@;
        let mut set = self.sub_counts[slot].clone();
        assert(set@ =~= old_counts[slot as int]@);
        let ghost before = set@;
        let mut found = false;
        let mut i: usize = 0;
        while i < set.len()
            invariant
                i <= set@.len(),
                set@ == before,
                found <==> exists|k: int| 0 <= k < i && set@[k]@ == channel@,
            decreases set@.len() - i,
        {
            if set[i] == channel {
                found = true;
            }
            i = i + 1;
        }
        if !found {
            set.push(channel);
            assert(distinct_names(set@)) by {
                assert forall|a: int, b: int| 0 <= a < b < set@.len() implies set@[a]@ != set@[b]@ by {
                    if b == before.len() {
                        assert(set@[a] == before[a]);
                    } else {
                        assert(set@[a] == before[a] && set@[b] == before[b]);
                    }
                }
            }
            assert(name_set(set@) =~= name_set(before).insert(channel@)) by {
                assert forall|s: Seq<char>| name_set(set@).contains(s) implies name_set(before).insert(channel@).contains(s) by {
                    let k = choose|k: int| 0 <= k < set@.len() && set@[k]@ == s;
                    if k < before.len() {
                        assert(set@[k] == before[k]);
                    }
                }
                assert forall|s: Seq<char>| name_set(before).insert(channel@).contains(s) implies name_set(set@).contains(s) by {
                    if s == channel@ {
                        assert(set@[before.len() as int]@ == s);
                    } else {
                        let k = choose|k: int| 0 <= k < before.len() && before[k]@ == s;
                        assert(set@[k]@ == s);
                    }
                }
            }
        } else {
            assert(name_set(set@) =~= name_set(before).insert(channel@));
        }
        let n = self.sub_counts.len();
        let mut counts: Vec<Vec<String>> = Vec::new();
        let mut j: usize = 0;
        while j < n
            invariant
                n == old_counts.len(),
                slot < n,
                self.sub_counts@ == old_counts,
                j <= n,
                counts@.len() == j,
                forall|k: int| 0 <= k < j && k != slot ==> (#[trigger] counts@[k])@ == old_counts[k]@,
                j > slot ==> counts@[slot as int]@ == set@,
            decreases n - j,
        {
            let copy = if j == slot {
                set.clone()
            } else {
                self.sub_counts[j].clone()
            };
            proof {
                let src = if j == slot {
                    set
                } else {
                    old_counts[j as int]
                };
                assert forall|e: int| 0 <= e < src@.len() implies copy@[e] == src@[e] by {
                    assert(cloned::<String>(src@[e], copy@[e]));
                }
                assert(copy@ =~= src@);
            }
            counts.push(copy);
            j = j + 1;
        }
        proof {
            assert forall|k: int| 0 <= k < counts@.len() implies distinct_names(
                #[trigger] counts@[k]@,
            ) by {
                if k != slot {
                    assert(distinct_names(old_counts[k]@));
                }
            }
        }
        self.sub_counts = counts;
    }

    /// How many distinct channels are recorded as subscribed on a slot (0 for a
    /// slot outside the pool).
    pub fn slot_load(&self, slot: usize) -> (n: usize)
        ensures
            slot < self.slots().len() ==> n == self.subscriptions(slot as int).len(),
            slot >= self.slots().len() ==> n == 0,
    {
        proof {
            use_type_invariant(self);
        }
        if slot >= self.sub_counts.len() {
            return 0;
        }
        proof {
            lemma_distinct_names_len(self.sub_counts@[slot as int]@);
        }
        self.sub_counts[slot].len()
    }
}

/// A list of distinct names has as many names as its name set.
proof fn lemma_distinct_names_len(v: Seq<String>)
    requires
        distinct_names(v),
    ensures
        name_set(v).finite(),
        name_set(v).len() == v.len(),
    decreases v.len(),
{
    if v.len() == 0 {
        assert(name_set(v) =~= Set::<Seq<char>>::empty());
    } else {
        let w = v.drop_last();
        assert(distinct_names(w));
        lemma_distinct_names_len(w);
        assert(name_set(v) =~= name_set(w).insert(v.last()@)) by {
            assert forall|s: Seq<char>| name_set(v).contains(s) implies name_set(w).insert(v.last()@).contains(s) by {
                let k = choose|k: int| 0 <= k < v.len() && v[k]@ == s;
                if k < w.len() {
                    assert(w[k] == v[k]);
                }
            }
            assert forall|s: Seq<char>| name_set(w).insert(v.last()@).contains(s) implies name_set(v).contains(s) by {
                if s != v.last()@ {
                    let k = choose|k: int| 0 <= k < w.len() && w[k]@ == s;
                    assert(v[k]@ == s);
                } else {
                    assert(v[v.len() - 1]@ == s);
                }
            }
        }
        assert(!name_set(w).contains(v.last()@)) by {
            if name_set(w).contains(v.last()@) {
                let k = choose|k: int| 0 <= k < w.len() && w[k]@ == v.last()@;
                assert(v[k]@ == v[v.len() - 1]@);
            }
        }
    }
}

/// Wallet-private channels are pinned to slot 0 whatever the shard mode, the
/// counter and the number of slots; in instrument mode, every market-data channel
/// of an instrument lands on the same slot, whatever the channel and the counter.
pub proof fn ws_pick_laws(
    channel: &str,
    instrument: &str,
    other_channel: &str,
    mode: ShardMode,
    counter: usize,
    other_counter: usize,
    n_slots: usize,
)
    requires
        n_slots > 0,
    ensures
        ws_pick_slot(PickHint::WalletPrivateChannel { channel }, mode, counter, n_slots) == 0,
        ws_pick_slot(
            PickHint::MarketDataChannel { instrument, channel },
            ShardMode::Instrument,
            counter,
            n_slots,
        ) == ws_pick_slot(
            PickHint::MarketDataChannel { instrument, channel: other_channel },
            ShardMode::Instrument,
            other_counter,
            n_slots,
        ),
        ws_pick_slot(PickHint::MarketDataChannel { instrument, channel }, mode, counter, n_slots)
            < n_slots,
{
}

/// Recording a subscription is idempotent: recording a channel on a slot a
/// second time leaves the slot's recorded channels as the first time did.
pub proof fn record_subscription_idempotent(recorded: Set<Seq<char>>, channel: Seq<char>)
    ensures
        recorded.insert(channel).insert(channel) == recorded.insert(channel),
        recorded.insert(channel).contains(channel),
{
    assert(recorded.insert(channel).insert(channel) =~= recorded.insert(channel));
}

} // verus!
