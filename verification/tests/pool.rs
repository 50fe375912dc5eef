use nautilus_aster::pool::{
    slot_for_instrument, HttpClientTemplate, HttpPool, PickHint, PoolError, ShardMode, WsPool,
};

fn ws_pool(n: usize, mode: ShardMode) -> WsPool<u8> {
    WsPool::new(vec![0u8; n], mode).unwrap()
}

#[test]
fn pickhint_variants_construct() {
    let _ = PickHint::Stateless;
    let _ = PickHint::WalletPrivateChannel {
        channel: "userFills",
    };
    let _ = PickHint::MarketDataChannel {
        instrument: "BTC",
        channel: "l2Book@BTC",
    };
}

#[test]
fn shardmode_variants_construct() {
    let _ = ShardMode::Instrument;
    let _ = ShardMode::RoundRobin;
}

#[test]
fn pool_error_variants_construct() {
    let _ = PoolError::Empty;
    let _ = PoolError::InvalidAddress {
        input: "x".into(),
        reason: "y".into(),
    };
    let _ = PoolError::BindFailed {
        address: "127.0.0.1".into(),
        cause: "z".into(),
    };
}

#[test]
fn http_client_template_default() {
    let t = HttpClientTemplate::default();
    assert!(t.headers.is_empty());
    assert!(t.header_keys.is_empty());
    assert!(t.keyed_quotas.is_empty());
    assert!(t.default_quota.is_none());
    assert!(t.timeout_secs.is_none());
    assert!(t.proxy_url.is_none());
}

#[test]
fn empty_input_errors() {
    let err = HttpPool::<u8>::new(vec![]).unwrap_err();
    assert!(matches!(err, PoolError::Empty));
}

#[test]
fn loopback_constructs() {
    let pool = HttpPool::new(vec![1u8]).unwrap();
    assert_eq!(pool.len(), 1);
}

#[test]
fn new_no_bind_constructs_single_slot_pool() {
    let pool = HttpPool::new_no_bind(7u8);
    assert_eq!(pool.len(), 1);
    assert!(!pool.is_empty());
}

#[test]
fn pick_client_singleton_returns_slot_0() {
    let mut pool = HttpPool::new(vec![1u8]).unwrap();
    for _ in 0..5 {
        let (slot, _client) = pool.pick_client(PickHint::Stateless);
        assert_eq!(slot, 0);
    }
}

#[test]
fn pick_client_round_robins_across_slots() {
    let mut pool = HttpPool::new(vec![10u8, 11, 12]).unwrap();
    let slots: Vec<usize> = (0..6)
        .map(|_| pool.pick_client(PickHint::Stateless).0)
        .collect();
    assert_eq!(slots, vec![0, 1, 2, 0, 1, 2]);
}

#[test]
fn pick_client_returns_the_client_of_its_slot() {
    let mut pool = HttpPool::new(vec![10u8, 11, 12]).unwrap();
    for _ in 0..6 {
        let (slot, client) = pool.pick_client(PickHint::Stateless);
        assert_eq!(*client, 10 + slot as u8);
    }
}

#[test]
fn slot_for_instrument_deterministic() {
    let a = slot_for_instrument("BTC", 3);
    let b = slot_for_instrument("BTC", 3);
    assert_eq!(a, b);
}

#[test]
fn slot_for_instrument_known_values() {
    assert_eq!(slot_for_instrument("BTC", 3), 2);
    assert_eq!(slot_for_instrument("ETH", 3), 1);
    assert_eq!(slot_for_instrument("SOL", 3), 0);
    assert_eq!(slot_for_instrument("BTC", 1), 0);
}

#[test]
fn wallet_private_pins_slot_0_for_all_known_channels() {
    for n in [1, 2, 3, 5, 10] {
        for mode in [ShardMode::Instrument, ShardMode::RoundRobin] {
            let mut pool = ws_pool(n, mode);
            for chan in ["userFills", "userFundings", "webData2", "orderUpdates"] {
                let s = pool.pick_slot(PickHint::WalletPrivateChannel { channel: chan });
                assert_eq!(s, 0, "{chan} must pin to slot 0 (n={n}, mode={mode:?})");
            }
        }
    }
}

#[test]
fn instrument_mode_same_symbol_same_slot() {
    let mut pool = ws_pool(3, ShardMode::Instrument);
    let s1 = pool.pick_slot(PickHint::MarketDataChannel {
        instrument: "BTC",
        channel: "l2Book@BTC",
    });
    let s2 = pool.pick_slot(PickHint::MarketDataChannel {
        instrument: "BTC",
        channel: "trades@BTC",
    });
    let s3 = pool.pick_slot(PickHint::MarketDataChannel {
        instrument: "BTC",
        channel: "candle@BTC/4h",
    });
    assert_eq!(s1, s2);
    assert_eq!(s2, s3);
}

#[test]
fn round_robin_mode_advances_counter() {
    let mut pool = ws_pool(3, ShardMode::RoundRobin);
    let slots: Vec<_> = (0..9)
        .map(|_| {
            pool.pick_slot(PickHint::MarketDataChannel {
                instrument: "BTC",
                channel: "l2Book@BTC",
            })
        })
        .collect();
    assert_eq!(slots, vec![0, 1, 2, 0, 1, 2, 0, 1, 2]);
}

#[test]
fn instrument_mode_reasonable_distribution_over_100_symbols() {
    let mut pool = ws_pool(3, ShardMode::Instrument);
    let mut counts = [0usize; 3];
    for i in 0..100 {
        let name = format!("SYM{i}");
        let s = pool.pick_slot(PickHint::MarketDataChannel {
            instrument: &name,
            channel: "l2Book",
        });
        counts[s] += 1;
    }
    let max = *counts.iter().max().unwrap();
    assert!(
        max < 67,
        "max slot load {max} > 2x average: counts {counts:?}"
    );
}

#[test]
fn ws_pool_empty_input_errors() {
    assert!(matches!(
        WsPool::<u8>::new(vec![], ShardMode::Instrument),
        Err(PoolError::Empty)
    ));
}

#[test]
fn ws_pool_instrument_mode_uses_slot_for_instrument() {
    let mut pool = ws_pool(3, ShardMode::Instrument);
    let s = pool.pick_slot(PickHint::MarketDataChannel {
        instrument: "ETH",
        channel: "l2Book@ETH",
    });
    assert_eq!(s, slot_for_instrument("ETH", 3));
    assert_eq!(s, 1);
}

#[test]
fn record_subscription_counts_distinct_channels() {
    let mut pool = ws_pool(2, ShardMode::Instrument);
    assert_eq!(pool.slot_load(1), 0);
    pool.record_subscription(1, "l2Book@BTC".to_string());
    pool.record_subscription(1, "l2Book@BTC".to_string());
    pool.record_subscription(1, "trades@BTC".to_string());
    assert_eq!(pool.slot_load(1), 2);
    assert_eq!(pool.slot_load(0), 0);
}

#[test]
fn record_subscription_outside_pool_is_ignored() {
    let mut pool = ws_pool(2, ShardMode::RoundRobin);
    pool.record_subscription(5, "l2Book@BTC".to_string());
    assert_eq!(pool.slot_load(5), 0);
    assert_eq!(pool.slot_load(0), 0);
    assert_eq!(pool.slot_load(1), 0);
}

#[test]
fn ws_pool_len_and_client() {
    let pool = WsPool::new(vec![4u8, 5, 6], ShardMode::Instrument).unwrap();
    assert_eq!(pool.len(), 3);
    assert!(!pool.is_empty());
    assert_eq!(*pool.client(2), 6);
}

#[test]
fn pool_from_build_results_fails_on_first_failed_address() {
    let results: Vec<(String, Result<u8, String>)> = vec![
        ("10.0.0.1".to_string(), Ok(1)),
        ("10.0.0.2".to_string(), Err("bind refused".to_string())),
        ("10.0.0.3".to_string(), Err("later".to_string())),
    ];
    assert_eq!(
        HttpPool::from_bind_results(results).unwrap_err(),
        PoolError::BindFailed {
            address: "10.0.0.2".to_string(),
            cause: "bind refused".to_string()
        }
    );
    let empty: Vec<(String, Result<u8, String>)> = vec![];
    assert!(matches!(HttpPool::from_bind_results(empty), Err(PoolError::Empty)));
    let ok: Vec<(String, Result<u8, String>)> =
        vec![("a".to_string(), Ok(4)), ("b".to_string(), Ok(5))];
    let mut pool = HttpPool::from_bind_results(ok).unwrap();
    assert_eq!(pool.len(), 2);
    assert_eq!(*pool.pick_client(PickHint::Stateless).1, 4);
    assert_eq!(*pool.pick_client(PickHint::Stateless).1, 5);
}

#[test]
fn ws_pool_from_connect_results() {
    let failed: Vec<(String, Result<u8, String>)> = vec![
        ("x".to_string(), Err("refused".to_string())),
        ("y".to_string(), Ok(1)),
    ];
    assert_eq!(
        WsPool::from_connect_results(failed, ShardMode::Instrument).unwrap_err(),
        PoolError::BindFailed {
            address: "x".to_string(),
            cause: "refused".to_string()
        }
    );
    let ok: Vec<(String, Result<u8, String>)> =
        vec![("a".to_string(), Ok(7)), ("b".to_string(), Ok(8))];
    let pool = WsPool::from_connect_results(ok, ShardMode::RoundRobin).unwrap();
    assert_eq!(pool.len(), 2);
    assert_eq!(*pool.client(1), 8);
    assert_eq!(pool.slot_load(0), 0);
}
