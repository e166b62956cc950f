use arb_notify::hype::{classify, HypeAggregator, HypeConfig, PoolLogEvent};
use arb_notify::types::Pubkey;

fn swap_event(pool: Pubkey, ts_ms: u64, trader: Option<Pubkey>) -> PoolLogEvent {
    PoolLogEvent {
        program: Pubkey::from_words(1, 1, 1, 1),
        pool,
        signature: String::from("sig"),
        slot: 0,
        logs: vec![String::from("Program log: Swap executed")],
        ts_ms,
        trader,
    }
}

#[test]
fn classify_matches_keywords() {
    let logs = vec![
        String::from("Instruction: SWAP done"),
        String::from("buy 100 units"),
        String::from("Increase Liquidity by 5"),
    ];
    let (is_swap, is_buy, is_sell, lp_add, lp_rem) = classify(&logs);
    assert!(is_swap);
    assert!(is_buy);
    assert!(!is_sell);
    assert!(lp_add);
    assert!(!lp_rem);

    let logs2 = vec![String::from("remove liquidity"), String::from("sell 3")];
    let (s2, b2, sl2, a2, r2) = classify(&logs2);
    assert!(!s2);
    assert!(!b2);
    assert!(sl2);
    assert!(!a2);
    assert!(r2);
}

#[test]
fn hype_counts_swaps_within_window() {
    let pool = Pubkey::from_words(9, 9, 9, 9);
    let mut agg = HypeAggregator::new(HypeConfig::default());
    for i in 0..10u64 {
        agg.ingest(&swap_event(pool, 0, Some(Pubkey::from_words(i, 0, 0, 0))));
    }
    let snap = agg.snapshot(&pool, 0).expect("series");
    assert_eq!(snap.swaps_60s, 10);
    assert_eq!(snap.unique_traders_60s, 10);
    assert_eq!(snap.lp_net_300s, 0);
}

#[test]
fn hype_decay_after_window() {
    let pool = Pubkey::from_words(9, 9, 9, 9);
    let mut agg = HypeAggregator::new(HypeConfig::default());
    for _ in 0..10 {
        agg.ingest(&swap_event(pool, 0, None));
    }
    let snap = agg.snapshot(&pool, 400_000).expect("series");
    assert_eq!(snap.swaps_60s, 0);
    assert_eq!(snap.buys_60s, 0);
    assert_eq!(snap.sells_60s, 0);
    assert_eq!(snap.unique_traders_60s, 0);
    assert_eq!(snap.lp_net_300s, 0);
}

#[test]
fn hype_unknown_pool_has_no_snapshot() {
    let agg = HypeAggregator::new(HypeConfig::default());
    assert!(agg.snapshot(&Pubkey::from_words(1, 2, 3, 4), 0).is_none());
}

#[test]
fn hype_old_buckets_are_evicted() {
    let pool = Pubkey::from_words(9, 9, 9, 9);
    let mut agg = HypeAggregator::new(HypeConfig::default());
    agg.ingest(&swap_event(pool, 0, None));
    // 400 s later: the old bucket lies past the 300 s horizon and leaves.
    agg.ingest(&swap_event(pool, 400_000, None));
    let snap = agg.snapshot(&pool, 400_000).expect("series");
    assert_eq!(snap.swaps_60s, 1);

    let series = &agg.pools.iter().find(|p| p.0 == pool).unwrap().1;
    assert_eq!(series.buckets.len(), 1);
    assert_eq!(series.buckets[0].0, 400_000);
}

#[test]
fn hype_tracks_lp_net() {
    let pool = Pubkey::from_words(9, 9, 9, 9);
    let mut agg = HypeAggregator::new(HypeConfig::default());
    let mut ev = swap_event(pool, 0, None);
    ev.logs = vec![String::from("add liquidity")];
    agg.ingest(&ev);
    ev.logs = vec![String::from("ADD LIQUIDITY again")];
    agg.ingest(&ev);
    ev.logs = vec![String::from("decrease liquidity")];
    agg.ingest(&ev);
    let snap = agg.snapshot(&pool, 0).expect("series");
    assert_eq!(snap.lp_net_300s, 1);
    assert_eq!(snap.swaps_60s, 0);
}
