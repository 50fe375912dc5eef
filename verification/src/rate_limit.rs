//! REST rate limits: the static Aster quota tables, rate-limit quotas, and the
//! keyed quota configuration a futures HTTP client is built with.

use vstd::prelude::*;

use crate::enums::{
    rate_limit_interval_name, AsterProductType, AsterRateLimitInterval, AsterRateLimitType,
};
use crate::text::push_str;

verus! {

/// A rate-limit quota: bursts of up to `max_burst` requests, with one request of
/// capacity replenished every `replenish_period_nanos` nanoseconds.
#[derive(Copy, Clone, Debug, PartialEq, Eq, Structural)]
pub struct Quota {
    /// Nanoseconds to replenish one request of capacity (never zero).
    pub replenish_period_nanos: u64,
    /// Maximum burst size (never zero).
    pub max_burst: u32,
}

/// The quota of `max_burst` requests per second, when the per-request period is
/// at least one nanosecond.
pub open spec fn spec_per_second(max_burst: u32) -> Option<Quota> {
    if max_burst == 0 || 1_000_000_000int / (max_burst as int) == 0 {
        None
    } else {
        Some(Quota { replenish_period_nanos: (1_000_000_000int / (max_burst as int)) as u64, max_burst })
    }
}

/// The quota of `max_burst` requests per minute.
pub open spec fn spec_per_minute(max_burst: u32) -> Quota {
    Quota { replenish_period_nanos: (60_000_000_000int / (max_burst as int)) as u64, max_burst }
}

impl Quota {
    /// A quota of `max_burst` requests per second; `None` when the burst leaves
    /// less than a nanosecond per request.
    pub fn per_second(max_burst: u32) -> (q: Option<Quota>)
        requires
            max_burst > 0,
        ensures
            q == spec_per_second(max_burst),
    {
        let period: u64 = 1_000_000_000u64 / (max_burst as u64);
        if period == 0 {
            None
        } else {
            Some(Quota { replenish_period_nanos: period, max_burst })
        }
    }

    /// A quota of `max_burst` requests per minute.
    pub fn per_minute(max_burst: u32) -> (q: Quota)
        requires
            max_burst > 0,
        ensures
            q == spec_per_minute(max_burst),
    {
        Quota { replenish_period_nanos: 60_000_000_000u64 / (max_burst as u64), max_burst }
    }

    /// A quota of one request per `period_secs` seconds; `None` for a zero period.
    pub fn with_period(period_secs: u32) -> (q: Option<Quota>)
        ensures
            period_secs == 0 ==> q is None,
            period_secs > 0 ==> q == Some(
                Quota { replenish_period_nanos: (period_secs * 1_000_000_000) as u64, max_burst: 1 },
            ),
    {
        if period_secs == 0 {
            None
        } else {
            Some(Quota { replenish_period_nanos: (period_secs as u64) * 1_000_000_000u64, max_burst: 1 })
        }
    }

    /// The same quota with a different maximum burst.
    pub fn allow_burst(self, max_burst: u32) -> (q: Quota)
        ensures
            q == (Quota { max_burst, ..self }),
    {
        Quota { max_burst, ..self }
    }
}

/// Describes a static rate limit quota for a product type.
#[derive(Copy, Clone, Debug, PartialEq, Eq, Structural)]
pub struct AsterRateLimitQuota {
    /// Rate limit type.
    pub rate_limit_type: AsterRateLimitType,
    /// Time interval unit.
    pub interval: AsterRateLimitInterval,
    /// Number of intervals.
    pub interval_num: u32,
    /// Maximum allowed requests for the interval.
    pub limit: u32,
}

/// A rate limit row.
pub open spec fn row(
    rate_limit_type: AsterRateLimitType,
    interval: AsterRateLimitInterval,
    limit: u32,
) -> AsterRateLimitQuota {
    AsterRateLimitQuota { rate_limit_type, interval, interval_num: 1, limit }
}

fn mk_row(rate_limit_type: AsterRateLimitType, interval: AsterRateLimitInterval, limit: u32) -> (q:
    AsterRateLimitQuota)
    ensures
        q == row(rate_limit_type, interval, limit),
{
    AsterRateLimitQuota { rate_limit_type, interval, interval_num: 1, limit }
}

/// Spot and margin REST limits (default IP weights).
pub open spec fn spot_rate_limits() -> Seq<AsterRateLimitQuota> {
    seq![
        row(AsterRateLimitType::RequestWeight, AsterRateLimitInterval::Minute, 1_200),
        row(AsterRateLimitType::Orders, AsterRateLimitInterval::Second, 10),
        row(AsterRateLimitType::Orders, AsterRateLimitInterval::Day, 100_000),
    ]
}

/// USD-M Futures REST limits (default IP weights).
pub open spec fn fapi_rate_limits() -> Seq<AsterRateLimitQuota> {
    seq![
        row(AsterRateLimitType::RequestWeight, AsterRateLimitInterval::Minute, 2_400),
        row(AsterRateLimitType::Orders, AsterRateLimitInterval::Second, 50),
        row(AsterRateLimitType::Orders, AsterRateLimitInterval::Minute, 1_200),
    ]
}

/// COIN-M Futures REST limits (default IP weights).
pub open spec fn dapi_rate_limits() -> Seq<AsterRateLimitQuota> {
    seq![
        row(AsterRateLimitType::RequestWeight, AsterRateLimitInterval::Minute, 1_200),
        row(AsterRateLimitType::Orders, AsterRateLimitInterval::Second, 20),
        row(AsterRateLimitType::Orders, AsterRateLimitInterval::Minute, 1_200),
    ]
}

/// Options REST limits (default IP weights).
pub open spec fn eapi_rate_limits() -> Seq<AsterRateLimitQuota> {
    seq![
        row(AsterRateLimitType::RequestWeight, AsterRateLimitInterval::Minute, 3_000),
        row(AsterRateLimitType::Orders, AsterRateLimitInterval::Second, 5),
        row(AsterRateLimitType::Orders, AsterRateLimitInterval::Minute, 200),
    ]
}

/// Spot and margin REST limits (default IP weights).
pub fn aster_spot_rate_limits() -> (v: Vec<AsterRateLimitQuota>)
    ensures
        v@ == spot_rate_limits(),
{
    let v = vec![
        mk_row(AsterRateLimitType::RequestWeight, AsterRateLimitInterval::Minute, 1_200),
        mk_row(AsterRateLimitType::Orders, AsterRateLimitInterval::Second, 10),
        mk_row(AsterRateLimitType::Orders, AsterRateLimitInterval::Day, 100_000),
    ];
    assert(v@ =~= spot_rate_limits());
    v
}

/// USD-M Futures REST limits (default IP weights).
pub fn aster_fapi_rate_limits() -> (v: Vec<AsterRateLimitQuota>)
    ensures
        v@ == fapi_rate_limits(),
{
    let v = vec![
        mk_row(AsterRateLimitType::RequestWeight, AsterRateLimitInterval::Minute, 2_400),
        mk_row(AsterRateLimitType::Orders, AsterRateLimitInterval::Second, 50),
        mk_row(AsterRateLimitType::Orders, AsterRateLimitInterval::Minute, 1_200),
    ];
    assert(v@ =~= fapi_rate_limits());
    v
}

/// COIN-M Futures REST limits (default IP weights).
pub fn aster_dapi_rate_limits() -> (v: Vec<AsterRateLimitQuota>)
    ensures
        v@ == dapi_rate_limits(),
{
    let v = vec![
        mk_row(AsterRateLimitType::RequestWeight, AsterRateLimitInterval::Minute, 1_200),
        mk_row(AsterRateLimitType::Orders, AsterRateLimitInterval::Second, 20),
        mk_row(AsterRateLimitType::Orders, AsterRateLimitInterval::Minute, 1_200),
    ];
    assert(v@ =~= dapi_rate_limits());
    v
}

/// Options REST limits (default IP weights).
pub fn aster_eapi_rate_limits() -> (v: Vec<AsterRateLimitQuota>)
    ensures
        v@ == eapi_rate_limits(),
{
    let v = vec![
        mk_row(AsterRateLimitType::RequestWeight, AsterRateLimitInterval::Minute, 3_000),
        mk_row(AsterRateLimitType::Orders, AsterRateLimitInterval::Second, 5),
        mk_row(AsterRateLimitType::Orders, AsterRateLimitInterval::Minute, 200),
    ];
    assert(v@ =~= eapi_rate_limits());
    v
}

/// Seconds in a day.
pub const SECONDS_IN_DAY: u32 = 86_400;

/// The quota a static rate limit row describes: none for a zero limit or an
/// unknown interval.
pub open spec fn spec_quota_from(q: AsterRateLimitQuota) -> Option<Quota> {
    if q.limit == 0 {
        None
    } else {
        match q.interval {
            AsterRateLimitInterval::Second => spec_per_second(q.limit),
            AsterRateLimitInterval::Minute => Some(spec_per_minute(q.limit)),
            AsterRateLimitInterval::Day => Some(
                Quota { replenish_period_nanos: 86_400_000_000_000u64, max_burst: q.limit },
            ),
            AsterRateLimitInterval::Unknown => None,
        }
    }
}

/// The length of a rate-limit interval in nanoseconds: a second, a minute, or
/// `SECONDS_IN_DAY` seconds; none for an unknown interval.
pub open spec fn interval_nanos(interval: AsterRateLimitInterval) -> Option<nat> {
    match interval {
        AsterRateLimitInterval::Second => Some(1_000_000_000nat),
        AsterRateLimitInterval::Minute => Some(60 * 1_000_000_000nat),
        AsterRateLimitInterval::Day => Some((SECONDS_IN_DAY as nat) * 1_000_000_000nat),
        AsterRateLimitInterval::Unknown => None,
    }
}

proof fn lemma_quotient_bounds(n: int, d: int)
    requires
        n >= 0,
        d > 0,
    ensures
        (n / d) * d <= n < (n / d + 1) * d,
{
    vstd::arithmetic::div_mod::lemma_fundamental_div_mod(n, d);
    vstd::arithmetic::div_mod::lemma_mod_pos_bound(n, d);
    assert((n / d) * d == d * (n / d)) by (nonlinear_arith);
    assert((n / d + 1) * d == d * (n / d) + d) by (nonlinear_arith);
}

/// The quota of a row allows a burst of `limit` requests. For a per-second or
/// per-minute row the replenish period is the interval shared out among the
/// `limit` requests (rounded down); a daily row replenishes one request per day.
/// A row with a zero limit or an unknown interval has no quota, and neither has
/// a per-second row whose limit leaves less than a nanosecond per request.
pub proof fn quota_spans_the_interval(q: AsterRateLimitQuota)
    ensures
        (q.limit == 0 || q.interval == AsterRateLimitInterval::Unknown) ==> spec_quota_from(q)
            is None,
        q.limit > 0 && q.interval == AsterRateLimitInterval::Day ==> spec_quota_from(q) == Some(
            Quota {
                replenish_period_nanos: ((SECONDS_IN_DAY as nat) * 1_000_000_000nat) as u64,
                max_burst: q.limit,
            },
        ),
        q.limit > 0 && q.interval == AsterRateLimitInterval::Second ==> (spec_quota_from(q) is None
            <==> (q.limit as nat) > 1_000_000_000nat),
        q.limit > 0 && q.interval == AsterRateLimitInterval::Minute ==> spec_quota_from(q) is Some,
        spec_quota_from(q) is Some ==> ({
            let r = spec_quota_from(q)->Some_0;
            let span = interval_nanos(q.interval)->Some_0;
            &&& interval_nanos(q.interval) is Some
            &&& r.max_burst == q.limit
            &&& r.replenish_period_nanos > 0
            &&& q.interval == AsterRateLimitInterval::Day ==> r.replenish_period_nanos == span
            &&& q.interval != AsterRateLimitInterval::Day ==> (r.replenish_period_nanos as nat) * (
            q.limit as nat) <= span && span < (r.replenish_period_nanos as nat + 1) * (
            q.limit as nat)
        }),
{
    if q.limit > 0 {
        let l = q.limit as int;
        match q.interval {
            AsterRateLimitInterval::Second => {
                lemma_quotient_bounds(1_000_000_000int, l);
                vstd::arithmetic::div_mod::lemma_div_is_ordered_by_denominator(
                    1_000_000_000int,
                    1,
                    l,
                );
                if l > 1_000_000_000 {
                    vstd::arithmetic::div_mod::lemma_basic_div(1_000_000_000int, l);
                } else {
                    vstd::arithmetic::div_mod::lemma_div_non_zero(1_000_000_000int, l);
                }
            },
            AsterRateLimitInterval::Minute => {
                lemma_quotient_bounds(60_000_000_000int, l);
                assert(60_000_000_000int / l > 0) by {
                    vstd::arithmetic::div_mod::lemma_div_non_zero(60_000_000_000int, l);
                }
                assert(60_000_000_000int / l <= 60_000_000_000int) by {
                    vstd::arithmetic::div_mod::lemma_div_is_ordered_by_denominator(
                        60_000_000_000int,
                        1,
                        l,
                    );
                }
            },
            AsterRateLimitInterval::Day => {},
            AsterRateLimitInterval::Unknown => {},
        }
    }
}

/// Converts a static rate limit row into a quota.
pub fn quota_from(quota: &AsterRateLimitQuota) -> (r: Option<Quota>)
    ensures
        r == spec_quota_from(*quota),
        quota.limit > 0 && quota.interval == AsterRateLimitInterval::Day ==> r == Some(
            Quota {
                replenish_period_nanos: ((SECONDS_IN_DAY as nat) * 1_000_000_000nat) as u64,
                max_burst: quota.limit,
            },
        ),
        r matches Some(q) ==> q.max_burst == quota.limit,
{
    proof {
        quota_spans_the_interval(*quota);
    }
    if quota.limit == 0 {
        return None;
    }
    match quota.interval {
        AsterRateLimitInterval::Second => Quota::per_second(quota.limit),
        AsterRateLimitInterval::Minute => Some(Quota::per_minute(quota.limit)),
        AsterRateLimitInterval::Day => match Quota::with_period(SECONDS_IN_DAY) {
            Some(q) => Some(q.allow_burst(quota.limit)),
            None => None,
        },
        AsterRateLimitInterval::Unknown => None,
    }
}

/// The rate-limit key shared by every request.
pub const ASTER_GLOBAL_RATE_KEY: &'static str = "aster:global";

/// The prefix of the order rate-limit keys.
pub const ASTER_ORDERS_RATE_KEY: &'static str = "aster:orders";

/// The order rate-limit key of an interval: `aster:orders:<Interval>`.
pub open spec fn order_rate_key(interval: AsterRateLimitInterval) -> Seq<char> {
    "aster:orders"@ + ":"@ + rate_limit_interval_name(interval)
}

/// The state of a rate-limit configuration while the quota rows are read in order.
pub struct RateLimitFold {
    /// The first request-weight quota, if any row gave one.
    pub default_quota: Option<Quota>,
    /// The keyed order quotas so far.
    pub keyed: Seq<(Seq<char>, Quota)>,
    /// The order keys so far.
    pub order_keys: Seq<Seq<char>>,
}

/// Reads the quota rows in order: the first request-weight row becomes the
/// default quota, every order row adds an order key with its quota, and rows
/// without a quota or of another type are skipped.
pub open spec fn fold_rate_limits(rows: Seq<AsterRateLimitQuota>) -> RateLimitFold
    decreases rows.len(),
{
    if rows.len() == 0 {
        RateLimitFold { default_quota: None, keyed: seq![], order_keys: seq![] }
    } else {
        let prev = fold_rate_limits(rows.drop_last());
        let row = rows.last();
        match spec_quota_from(row) {
            None => prev,
            Some(q) => if row.rate_limit_type == AsterRateLimitType::RequestWeight
                && prev.default_quota is None {
                RateLimitFold { default_quota: Some(q), ..prev }
            } else if row.rate_limit_type == AsterRateLimitType::Orders {
                let key = order_rate_key(row.interval);
                RateLimitFold {
                    default_quota: prev.default_quota,
                    keyed: prev.keyed.push((key, q)),
                    order_keys: prev.order_keys.push(key),
                }
            } else {
                prev
            },
        }
    }
}

/// The quota rows a futures client of a product type uses (USD-M rows unless COIN-M).
pub open spec fn futures_rate_limits(p: AsterProductType) -> Seq<AsterRateLimitQuota> {
    if p == AsterProductType::CoinM {
        dapi_rate_limits()
    } else {
        fapi_rate_limits()
    }
}

/// The quota used when no request-weight row gives one: 10 requests per second.
pub open spec fn fallback_quota() -> Quota {
    spec_per_second(10)->Some_0
}

/// Rate-limit configuration of a futures HTTP client.
#[derive(Clone, Debug)]
pub struct RateLimitConfig {
    /// The default quota (always present).
    pub default_quota: Option<Quota>,
    /// Quotas keyed by rate-limit key; the global key comes last.
    pub keyed_quotas: Vec<(String, Quota)>,
    /// The order rate-limit keys.
    pub order_keys: Vec<String>,
}

/// The view of keyed quotas as key strings and quotas.
pub open spec fn keyed_view(v: Seq<(String, Quota)>) -> Seq<(Seq<char>, Quota)> {
    v.map_values(|e: (String, Quota)| (e.0@, e.1))
}

/// The view of a list of strings.
pub open spec fn strings_view(v: Seq<String>) -> Seq<Seq<char>> {
    v.map_values(|s: String| s@)
}

/// Builds the rate-limit configuration of a futures client for a product type.
pub fn rate_limit_config(product_type: AsterProductType) -> (c: RateLimitConfig)
    ensures
        ({
            let f = fold_rate_limits(futures_rate_limits(product_type));
            let d = match f.default_quota {
                Some(q) => q,
                None => fallback_quota(),
            };
            &&& c.default_quota == Some(d)
            &&& keyed_view(c.keyed_quotas@) == f.keyed.push(("aster:global"@, d))
            &&& strings_view(c.order_keys@) == f.order_keys
        }),
{
    let quotas = if product_type == AsterProductType::CoinM {
        aster_dapi_rate_limits()
    } else {
        aster_fapi_rate_limits()
    };
    let ghost rows = quotas@;
    let mut keyed: Vec<(String, Quota)> = Vec::new();
    let mut order_keys: Vec<String> = Vec::new();
    let mut default: Option<Quota> = None;
    let mut i: usize = 0;
    while i < quotas.len()
        invariant
            rows == quotas@,
            rows == futures_rate_limits(product_type),
            i <= rows.len(),
            ({
                let f = fold_rate_limits(rows.take(i as int));
                &&& default == f.default_quota
                &&& keyed_view(keyed@) == f.keyed
                &&& strings_view(order_keys@) == f.order_keys
            }),
        decreases rows.len() - i,
    {
        let quota = &quotas[i];
        assert(rows.take(i + 1).drop_last() =~= rows.take(i as int));
        assert(rows.take(i + 1).last() == rows[i as int]);
        match quota_from(quota) {
            Some(q) => {
                if quota.rate_limit_type == AsterRateLimitType::RequestWeight && default.is_none() {
                    default = Some(q);
                } else if quota.rate_limit_type == AsterRateLimitType::Orders {
                    let mut key = String::new();
                    push_str(&mut key, ASTER_ORDERS_RATE_KEY);
                    push_str(&mut key, ":");
                    push_str(&mut key, quota.interval.variant_name());
                    let ghost old_keyed = keyed@;
                    let ghost old_order_keys = order_keys@;
                    order_keys.push(key.clone());
                    keyed.push((key, q));
                    assert(keyed_view(keyed@) =~= keyed_view(old_keyed).push((key@, q)));
                    assert(strings_view(order_keys@) =~= strings_view(old_order_keys).push(key@));
                }
            },
            None => {},
        }
        i = i + 1;
    }
    assert(rows.take(rows.len() as int) =~= rows);
    let default_quota = match default {
        Some(q) => q,
        None => {
            let fallback = Quota::per_second(10);
            assert(fallback is Some);
            fallback.unwrap()
        },
    };
    let ghost old_keyed = keyed@;
    keyed.push((ASTER_GLOBAL_RATE_KEY.to_owned(), default_quota));
    assert(keyed_view(keyed@) =~= keyed_view(old_keyed).push(("aster:global"@, default_quota)));
    RateLimitConfig { default_quota: Some(default_quota), keyed_quotas: keyed, order_keys }
}

/// The rate-limit keys of a request: the global key, followed by the order keys
/// when the request uses the order quota.
pub open spec fn spec_rate_limit_keys(order_keys: Seq<Seq<char>>, use_orders: bool) -> Seq<
    Seq<char>,
> {
    if use_orders {
        seq!["aster:global"@] + order_keys
    } else {
        seq!["aster:global"@]
    }
}

/// Returns the rate-limit keys of a request.
pub fn rate_limit_keys(order_rate_keys: &Vec<String>, use_orders: bool) -> (keys: Vec<String>)
    ensures
        strings_view(keys@) == spec_rate_limit_keys(strings_view(order_rate_keys@), use_orders),
{
    let mut keys: Vec<String> = Vec::new();
    keys.push(ASTER_GLOBAL_RATE_KEY.to_owned());
    if use_orders {
        let mut i: usize = 0;
        while i < order_rate_keys.len()
            invariant
                i <= order_rate_keys@.len(),
                strings_view(keys@) == seq!["aster:global"@] + strings_view(
                    order_rate_keys@.take(i as int),
                ),
            decreases order_rate_keys@.len() - i,
        {
            let ghost old_keys = keys@;
            keys.push(order_rate_keys[i].clone());
            assert(order_rate_keys@.take(i + 1) =~= order_rate_keys@.take(i as int).push(
                order_rate_keys@[i as int],
            ));
            assert(strings_view(keys@) =~= strings_view(old_keys).push(order_rate_keys@[i as int]@));
            assert(strings_view(order_rate_keys@.take(i + 1)) =~= strings_view(
                order_rate_keys@.take(i as int),
            ).push(order_rate_keys@[i as int]@));
            i = i + 1;
        }
        assert(order_rate_keys@.take(order_rate_keys@.len() as int) =~= order_rate_keys@);
    }
    assert(strings_view(keys@) =~= spec_rate_limit_keys(strings_view(order_rate_keys@), use_orders));
    keys
}

/// Reading the quota rows pairs every order key with a keyed quota: the keyed
/// quotas and the order keys list the same keys in the same order.
pub proof fn lemma_fold_keys_match(rows: Seq<AsterRateLimitQuota>)
    ensures
        fold_rate_limits(rows).keyed.len() == fold_rate_limits(rows).order_keys.len(),
        forall|i: int|
            0 <= i < fold_rate_limits(rows).order_keys.len() ==> (#[trigger] fold_rate_limits(
                rows,
            ).keyed[i]).0 == fold_rate_limits(rows).order_keys[i],
    decreases rows.len(),
{
    if rows.len() > 0 {
        lemma_fold_keys_match(rows.drop_last());
    }
}

/// The default quota of a futures configuration.
pub open spec fn config_default_quota(p: AsterProductType) -> Quota {
    match fold_rate_limits(futures_rate_limits(p)).default_quota {
        Some(q) => q,
        None => fallback_quota(),
    }
}

/// The keyed quotas of a futures configuration.
pub open spec fn config_keyed(p: AsterProductType) -> Seq<(Seq<char>, Quota)> {
    fold_rate_limits(futures_rate_limits(p)).keyed.push(("aster:global"@, config_default_quota(p)))
}

/// The rate-limit keys of a request of a futures client.
pub open spec fn config_request_keys(p: AsterProductType, use_orders: bool) -> Seq<Seq<char>> {
    spec_rate_limit_keys(fold_rate_limits(futures_rate_limits(p)).order_keys, use_orders)
}

/// Whether a futures configuration has a quota for a key.
pub open spec fn has_quota(p: AsterProductType, key: Seq<char>) -> bool {
    exists|i: int| 0 <= i < config_keyed(p).len() && (#[trigger] config_keyed(p)[i]).0 == key
}

/// Every rate-limit key that a request of a futures client uses, with or
/// without the order quota, has a quota in the client's configuration.
pub proof fn request_keys_have_quotas(p: AsterProductType, use_orders: bool)
    ensures
        forall|j: int|
            0 <= j < config_request_keys(p, use_orders).len() ==> has_quota(
                p,
                #[trigger] config_request_keys(p, use_orders)[j],
            ),
{
    let f = fold_rate_limits(futures_rate_limits(p));
    lemma_fold_keys_match(futures_rate_limits(p));
    let keys = config_request_keys(p, use_orders);
    let keyed = config_keyed(p);
    assert forall|j: int| 0 <= j < keys.len() implies has_quota(p, #[trigger] keys[j]) by {
        if j == 0 {
            assert(keyed[keyed.len() - 1].0 == keys[j]);
        } else {
            assert(keyed[j - 1] == f.keyed[j - 1]);
            assert(keyed[j - 1].0 == keys[j]);
        }
    }
}

} // verus!
