use nautilus_aster::enums::{AsterProductType, AsterRateLimitInterval, AsterRateLimitType};
use nautilus_aster::rate_limit::{
    aster_dapi_rate_limits, aster_fapi_rate_limits, quota_from, rate_limit_config,
    rate_limit_keys, AsterRateLimitQuota, Quota,
};

#[test]
fn test_rate_limit_config_usdm_has_request_weight_and_orders() {
    let config = rate_limit_config(AsterProductType::UsdM);

    assert!(config.default_quota.is_some());
    assert_eq!(config.order_keys.len(), 2);
    assert!(config.order_keys.iter().any(|k| k.contains("Second")));
    assert!(config.order_keys.iter().any(|k| k.contains("Minute")));
}

#[test]
fn test_rate_limit_config_coinm_has_request_weight_and_orders() {
    let config = rate_limit_config(AsterProductType::CoinM);

    assert!(config.default_quota.is_some());
    assert_eq!(config.order_keys.len(), 2);
}

#[test]
fn test_quota_from_unknown_interval_returns_none() {
    let quota = AsterRateLimitQuota {
        rate_limit_type: AsterRateLimitType::Orders,
        interval: AsterRateLimitInterval::Unknown,
        interval_num: 1,
        limit: 10,
    };

    assert!(quota_from(&quota).is_none());
}

#[test]
fn quota_from_intervals() {
    let per_second = AsterRateLimitQuota {
        rate_limit_type: AsterRateLimitType::Orders,
        interval: AsterRateLimitInterval::Second,
        interval_num: 10,
        limit: 300,
    };
    assert_eq!(quota_from(&per_second), Quota::per_second(300));
    let per_minute = AsterRateLimitQuota {
        rate_limit_type: AsterRateLimitType::RequestWeight,
        interval: AsterRateLimitInterval::Minute,
        interval_num: 1,
        limit: 2400,
    };
    assert_eq!(quota_from(&per_minute), Some(Quota::per_minute(2400)));
    let zero = AsterRateLimitQuota { limit: 0, ..per_second };
    assert_eq!(quota_from(&zero), None);
}

#[test]
fn quota_constructors() {
    let q = Quota::per_second(10).unwrap();
    assert_eq!(q.max_burst, 10);
    assert_eq!(q.replenish_period_nanos, 100_000_000);
    let m = Quota::per_minute(60);
    assert_eq!(m.replenish_period_nanos, 1_000_000_000);
    assert_eq!(m.max_burst, 60);
    let d = Quota::with_period(2).unwrap().allow_burst(5);
    assert_eq!(d.replenish_period_nanos, 2_000_000_000);
    assert_eq!(d.max_burst, 5);
    assert_eq!(Quota::with_period(0), None);
}

#[test]
fn config_keys_and_global_quota() {
    let config = rate_limit_config(AsterProductType::UsdM);
    let keys: Vec<&str> = config.keyed_quotas.iter().map(|(k, _)| k.as_str()).collect();
    assert_eq!(keys, vec!["aster:orders:Second", "aster:orders:Minute", "aster:global"]);
    assert_eq!(config.keyed_quotas[2].1, config.default_quota.unwrap());
    assert_eq!(config.default_quota, Some(Quota::per_minute(2400)));
}

#[test]
fn request_keys_have_quotas_in_config() {
    for p in [AsterProductType::UsdM, AsterProductType::CoinM] {
        let config = rate_limit_config(p);
        for use_orders in [false, true] {
            for key in rate_limit_keys(&config.order_keys, use_orders) {
                assert!(config.keyed_quotas.iter().any(|(k, _)| *k == key));
            }
        }
    }
}

#[test]
fn rate_limit_keys_order() {
    let order_keys = vec!["aster:orders:Second".to_string(), "aster:orders:Minute".to_string()];
    assert_eq!(rate_limit_keys(&order_keys, false), vec!["aster:global".to_string()]);
    assert_eq!(
        rate_limit_keys(&order_keys, true),
        vec![
            "aster:global".to_string(),
            "aster:orders:Second".to_string(),
            "aster:orders:Minute".to_string()
        ]
    );
}

#[test]
fn futures_rate_limit_tables() {
    let fapi = aster_fapi_rate_limits();
    let dapi = aster_dapi_rate_limits();
    assert_eq!(fapi.len(), 3);
    assert_eq!(dapi.len(), 3);
    assert_eq!(fapi[0].rate_limit_type, AsterRateLimitType::RequestWeight);
}
