use arb_notify::enrich::{
    analyze_mint_cached, assemble_bundle, arrange_pair_reports, dedup_cache_new, mint_cache_new,
    should_process, sol_pair, sol_report, FetchError, MintFetcher,
};
use arb_notify::mint_reader::{token_v1_id, MintAccount};
use arb_notify::policy::Policy;
use arb_notify::types::Pubkey;

#[test]
fn test_dedup_recent() {
    let mut cache = dedup_cache_new(2);
    let key = Pubkey::from_words(42, 43, 44, 45);
    assert!(should_process(&mut cache, key, 0, 1000));
    assert!(!should_process(&mut cache, key, 500, 1000));
    assert!(should_process(&mut cache, key, 2000, 1000));
}

#[test]
fn dedup_keys_are_independent() {
    let mut cache = dedup_cache_new(10);
    let k1 = Pubkey::from_words(1, 0, 0, 0);
    let k2 = Pubkey::from_words(2, 0, 0, 0);
    assert!(should_process(&mut cache, k1, 0, 1000));
    assert!(should_process(&mut cache, k2, 10, 1000));
    assert!(!should_process(&mut cache, k1, 900, 1000));
    assert!(!should_process(&mut cache, k2, 900, 1000));
}

#[test]
fn test_sol_pair_detect() {
    let sol = arb_notify::types::sol_mint();
    let other = Pubkey::from_words(5, 6, 7, 8);
    assert!(sol_pair(sol, other).is_some());
    assert!(sol_pair(other, sol).is_some());
    assert!(sol_pair(other, Pubkey::from_words(9, 9, 9, 9)).is_none());
    assert_eq!(sol_pair(sol, other), Some((other, false)));
    assert_eq!(sol_pair(other, sol), Some((other, true)));
}

#[test]
fn sol_report_is_safe_nine_decimals() {
    let rep = sol_report();
    assert!(rep.decision_safe);
    assert_eq!(rep.decimals, 9);
    assert!(rep.reasons.is_empty());
    assert_eq!(rep.mint, arb_notify::types::sol_mint());
}

#[test]
fn arrange_pair_puts_sol_on_the_right_side() {
    let mut rep = sol_report();
    rep.decimals = 6;
    let (a, b, da, db) = arrange_pair_reports(rep.clone(), true);
    assert_eq!(da, 6);
    assert_eq!(db, 9);
    assert_eq!(a.decimals, 6);
    assert_eq!(b.decimals, 9);
    let (a2, _b2, da2, db2) = arrange_pair_reports(rep, false);
    assert_eq!(da2, 9);
    assert_eq!(db2, 6);
    assert_eq!(a2.decimals, 9);
}

#[test]
fn bundle_carries_all_fields() {
    let pool = Pubkey::from_words(1, 2, 3, 4);
    let program = Pubkey::from_words(5, 6, 7, 8);
    let bundle = assemble_bundle(pool, program, sol_report(), sol_report(), Some(5), Some(3), 777);
    assert_eq!(bundle.pool, pool);
    assert_eq!(bundle.program, program);
    assert_eq!(bundle.fee_bps, Some(5));
    assert_eq!(bundle.tick_spacing, Some(3));
    assert_eq!(bundle.ts_ms, 777);
}

struct CountingRpc {
    account: MintAccount,
    calls: std::cell::Cell<u32>,
}

impl MintFetcher for CountingRpc {
    fn get_account(&self, _mint: &Pubkey) -> Result<MintAccount, FetchError> {
        self.calls.set(self.calls.get() + 1);
        Ok(self.account.clone())
    }

    fn get_epoch(&self) -> Result<u64, FetchError> {
        Ok(0)
    }
}

#[test]
fn mint_cache_analyzes_only_once() {
    let rpc = CountingRpc {
        account: MintAccount { owner: token_v1_id(), data: vec![0u8; 82] },
        calls: std::cell::Cell::new(0),
    };
    let mut cache = mint_cache_new(16);
    let mint = Pubkey::from_words(21, 22, 23, 24);
    let pol = Policy::default();
    let (rep1, ran1) = analyze_mint_cached(&mut cache, &rpc, &mint, 0, 1_000, true, &pol).unwrap();
    assert!(ran1);
    assert_eq!(rpc.calls.get(), 1);
    let (rep2, ran2) = analyze_mint_cached(&mut cache, &rpc, &mint, 0, 1_000, true, &pol).unwrap();
    assert!(!ran2);
    assert_eq!(rpc.calls.get(), 1);
    assert_eq!(rep1.decision_safe, rep2.decision_safe);
    assert_eq!(rep1.decimals, rep2.decimals);
}
