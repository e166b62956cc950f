use arb_notify::decoders::{ConfigFees, TokenIntrospectionProvider, TokenLookupError};
use arb_notify::types::{DexKind, PoolEvent, PoolId, PoolInfo, Pubkey};
use arb_notify::watcher::{
    clamp_resync_minutes, process_live_update, process_snapshot_accounts, Inventory,
    PoolWatcherConfig,
};

struct NoTokens;

impl TokenIntrospectionProvider for NoTokens {
    fn is_token2022(&self, _mint: &Pubkey) -> Result<bool, TokenLookupError> {
        Ok(false)
    }
}

fn put_key_at(data: &mut [u8], off: usize, key: &Pubkey) {
    data[off..off + 8].copy_from_slice(&key.w0.to_le_bytes());
    data[off + 8..off + 16].copy_from_slice(&key.w1.to_le_bytes());
    data[off + 16..off + 24].copy_from_slice(&key.w2.to_le_bytes());
    data[off + 24..off + 32].copy_from_slice(&key.w3.to_le_bytes());
}

fn orca_account_data(token_a: &Pubkey, token_b: &Pubkey) -> Vec<u8> {
    let mut data = vec![0u8; 200];
    put_key_at(&mut data, 69, token_a);
    put_key_at(&mut data, 149, token_b);
    data[9..11].copy_from_slice(&7u16.to_le_bytes());
    data[13..15].copy_from_slice(&30u16.to_le_bytes());
    data
}

#[test]
fn inventory_upsert_remove_count() {
    let mut inv = Inventory::new();
    let program = Pubkey::from_words(1, 1, 1, 1);
    let info = PoolInfo {
        dex: DexKind::OrcaWhirlpools,
        id: PoolId { program, account: Pubkey::from_words(2, 2, 2, 2) },
        base_mint: Some(Pubkey::from_words(3, 3, 3, 3)),
        quote_mint: Some(Pubkey::from_words(4, 4, 4, 4)),
        fee_bps: None,
        tick_spacing: None,
        lp_mint: None,
        is_token2022_base: false,
        is_token2022_quote: false,
    };
    assert_eq!(inv.count_program(&program), 0);
    inv.upsert(info.clone());
    assert_eq!(inv.count_program(&program), 1);
    inv.upsert(info.clone());
    assert_eq!(inv.count_program(&program), 1);
    inv.remove(&info.id);
    assert_eq!(inv.count_program(&program), 0);
}

#[test]
fn live_update_classifies_new_then_changed() {
    let program = Pubkey::from_words(1, 1, 1, 1);
    let account = Pubkey::from_words(2, 2, 2, 2);
    let data = orca_account_data(&Pubkey::from_words(3, 3, 3, 3), &Pubkey::from_words(4, 4, 4, 4));
    let b64 = base64::encode(&data);
    let mut fees = ConfigFees::new();
    let mut inv = Inventory::new();
    let ev1 = process_live_update(
        DexKind::OrcaWhirlpools,
        program,
        account,
        &b64,
        &NoTokens,
        &mut fees,
        &mut inv,
    )
    .expect("event");
    assert!(matches!(ev1, PoolEvent::AccountNew { .. }));
    let ev2 = process_live_update(
        DexKind::OrcaWhirlpools,
        program,
        account,
        &b64,
        &NoTokens,
        &mut fees,
        &mut inv,
    )
    .expect("event");
    assert!(matches!(ev2, PoolEvent::AccountChanged { .. }));
}

#[test]
fn live_update_rejects_bad_base64_and_short_data() {
    let program = Pubkey::from_words(1, 1, 1, 1);
    let account = Pubkey::from_words(2, 2, 2, 2);
    let mut fees = ConfigFees::new();
    let mut inv = Inventory::new();
    assert!(process_live_update(
        DexKind::OrcaWhirlpools,
        program,
        account,
        "!!!not-base64!!!",
        &NoTokens,
        &mut fees,
        &mut inv,
    )
    .is_none());
    let b64 = base64::encode(&[0u8; 10]);
    assert!(process_live_update(
        DexKind::OrcaWhirlpools,
        program,
        account,
        &b64,
        &NoTokens,
        &mut fees,
        &mut inv,
    )
    .is_none());
}

#[test]
fn snapshot_batch_decodes_and_counts() {
    let program = Pubkey::from_words(1, 1, 1, 1);
    let mut fees = ConfigFees::new();
    let mut inv = Inventory::new();
    let accounts = vec![
        (
            Pubkey::from_words(2, 2, 2, 2),
            orca_account_data(&Pubkey::from_words(3, 3, 3, 3), &Pubkey::from_words(4, 4, 4, 4)),
        ),
        (Pubkey::from_words(5, 5, 5, 5), vec![0u8; 16]),
        (
            Pubkey::from_words(6, 6, 6, 6),
            orca_account_data(&Pubkey::from_words(7, 7, 7, 7), &Pubkey::from_words(8, 8, 8, 8)),
        ),
    ];
    let events = process_snapshot_accounts(
        DexKind::OrcaWhirlpools,
        program,
        &accounts,
        &NoTokens,
        &mut fees,
        &mut inv,
    );
    assert_eq!(events.len(), 2);
    assert_eq!(inv.count_program(&program), 2);
    for ev in &events {
        match ev {
            PoolEvent::AccountNew { info, .. } => {
                assert!(info.base_mint.is_some() && info.quote_mint.is_some());
            }
            other => panic!("unexpected event: {:?}", other),
        }
    }
}

#[test]
fn default_config_watches_three_programs() {
    let cfg = PoolWatcherConfig::default();
    assert_eq!(cfg.programs.len(), 3);
    assert_eq!(cfg.programs[0].kind, DexKind::OrcaWhirlpools);
    assert_eq!(cfg.programs[1].kind, DexKind::RaydiumClmm);
    assert_eq!(cfg.programs[2].kind, DexKind::RaydiumCpmm);
    assert_eq!(cfg.periodic_resync_min, 30);
    assert_eq!(cfg.rpc_url, "https://api.mainnet-beta.solana.com");
}

#[test]
fn resync_minutes_clamp_up_to_five() {
    assert_eq!(clamp_resync_minutes(0), 5);
    assert_eq!(clamp_resync_minutes(4), 5);
    assert_eq!(clamp_resync_minutes(5), 5);
    assert_eq!(clamp_resync_minutes(30), 30);
}
