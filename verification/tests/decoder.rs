use arb_notify::decoders::{
    apply_token_flags, orca_try_decode, raydium_try_decode, decode_pool, ConfigFees,
    TokenIntrospectionProvider, TokenLookupError,
};
use arb_notify::types::{DexKind, Pubkey};

fn put_key(data: &mut [u8], off: usize, key: &Pubkey) {
    data[off..off + 8].copy_from_slice(&key.w0.to_le_bytes());
    data[off + 8..off + 16].copy_from_slice(&key.w1.to_le_bytes());
    data[off + 16..off + 24].copy_from_slice(&key.w2.to_le_bytes());
    data[off + 24..off + 32].copy_from_slice(&key.w3.to_le_bytes());
}

fn key(n: u64) -> Pubkey {
    Pubkey::from_words(n, n.wrapping_mul(7), n.wrapping_add(13), n ^ 0xdead_beef)
}

#[test]
fn test_orca_decode() {
    let program = key(1);
    let account = key(2);
    let token_a = key(3);
    let token_b = key(4);
    let mut data = vec![0u8; 200];
    put_key(&mut data, 69, &token_a);
    put_key(&mut data, 149, &token_b);
    data[9..11].copy_from_slice(&3u16.to_le_bytes());
    data[13..15].copy_from_slice(&5u16.to_le_bytes());
    let info = orca_try_decode(program, account, &data).expect("decode");
    assert_eq!(info.base_mint, Some(token_a));
    assert_eq!(info.quote_mint, Some(token_b));
    assert_eq!(info.tick_spacing, Some(3));
    assert_eq!(info.fee_bps, Some(5));
}

#[test]
fn orca_decode_rejects_short_input() {
    let program = key(1);
    let account = key(2);
    for len in 0..181 {
        let data = vec![0u8; len];
        assert!(orca_try_decode(program, account, &data).is_none());
    }
    let data = vec![0u8; 181];
    assert!(orca_try_decode(program, account, &data).is_some());
}

#[test]
fn test_raydium_decode() {
    let program = key(1);
    let account = key(2);
    let cfg_account = key(5);
    let token_a = key(3);
    let token_b = key(4);
    let mut fees = ConfigFees::new();

    // feed config with trade fee
    let mut cfg = vec![0u8; 117];
    cfg[47..51].copy_from_slice(&300u32.to_le_bytes());
    assert!(raydium_try_decode(program, cfg_account, &cfg, &mut fees).is_none());

    let mut data = vec![0u8; 240];
    put_key(&mut data, 9, &cfg_account);
    put_key(&mut data, 73, &token_a);
    put_key(&mut data, 105, &token_b);
    data[235..237].copy_from_slice(&9u16.to_le_bytes());
    let info = raydium_try_decode(program, account, &data, &mut fees).expect("decode");
    assert_eq!(info.base_mint, Some(token_a));
    assert_eq!(info.quote_mint, Some(token_b));
    assert_eq!(info.fee_bps, Some(3));
    assert_eq!(info.tick_spacing, Some(9));
}

#[test]
fn raydium_decode_unknown_config_has_no_fee() {
    let program = key(1);
    let account = key(2);
    let cfg_account = key(5);
    let mut fees = ConfigFees::new();
    let mut data = vec![0u8; 240];
    put_key(&mut data, 9, &cfg_account);
    let info = raydium_try_decode(program, account, &data, &mut fees).expect("decode");
    assert_eq!(info.fee_bps, None);
}

#[test]
fn decoders_never_panic_on_arbitrary_lengths() {
    let program = key(1);
    let account = key(2);
    let mut fees = ConfigFees::new();
    for len in 0..300 {
        let data: Vec<u8> = (0..len).map(|i| (i * 31 + 7) as u8).collect();
        let o = orca_try_decode(program, account, &data);
        assert!(o.is_none() || o.is_some());
        let r = raydium_try_decode(program, account, &data, &mut fees);
        assert!(r.is_none() || r.is_some());
    }
}

struct MockTokenProvider {
    tokens: Vec<Pubkey>,
}

impl TokenIntrospectionProvider for MockTokenProvider {
    fn is_token2022(&self, mint: &Pubkey) -> Result<bool, TokenLookupError> {
        Ok(self.tokens.contains(mint))
    }
}

#[test]
fn test_decode_pool_token2022() {
    let program = key(1);
    let account = key(2);
    let token_a = key(3);
    let token_b = key(4);
    let mut data = vec![0u8; 200];
    put_key(&mut data, 69, &token_a);
    put_key(&mut data, 149, &token_b);
    data[9..11].copy_from_slice(&3u16.to_le_bytes());
    data[13..15].copy_from_slice(&5u16.to_le_bytes());
    let provider = MockTokenProvider { tokens: vec![token_a] };
    let mut fees = ConfigFees::new();
    let info = decode_pool(
        DexKind::OrcaWhirlpools,
        program,
        account,
        &data,
        &provider,
        &mut fees,
    )
    .expect("decode");
    assert!(info.is_token2022_base);
    assert!(!info.is_token2022_quote);
}

#[test]
fn test_decode_pool_raydium_cpmm_kind() {
    let program = key(1);
    let account = key(2);
    let cfg_account = key(5);
    let token_a = key(3);
    let token_b = key(4);
    let provider = MockTokenProvider { tokens: Vec::new() };
    let mut fees = ConfigFees::new();

    let mut cfg = vec![0u8; 117];
    cfg[47..51].copy_from_slice(&300u32.to_le_bytes());
    assert!(decode_pool(DexKind::RaydiumCpmm, program, cfg_account, &cfg, &provider, &mut fees)
        .is_none());

    let mut data = vec![0u8; 240];
    put_key(&mut data, 9, &cfg_account);
    put_key(&mut data, 73, &token_a);
    put_key(&mut data, 105, &token_b);
    data[235..237].copy_from_slice(&9u16.to_le_bytes());
    let info = decode_pool(DexKind::RaydiumCpmm, program, account, &data, &provider, &mut fees)
        .expect("decode");
    assert_eq!(info.dex, DexKind::RaydiumCpmm);
    assert_eq!(info.base_mint, Some(token_a));
    assert_eq!(info.quote_mint, Some(token_b));
    assert_eq!(info.fee_bps, Some(3));
}

#[test]
fn token_flags_demote_failures_to_false() {
    let program = key(1);
    let account = key(2);
    let mut data = vec![0u8; 200];
    put_key(&mut data, 69, &key(3));
    put_key(&mut data, 149, &key(4));
    let info = orca_try_decode(program, account, &data).expect("decode");
    let flagged = apply_token_flags(info, Ok(true), Err(TokenLookupError));
    assert!(flagged.is_token2022_base);
    assert!(!flagged.is_token2022_quote);
    assert_eq!(flagged.base_mint, info.base_mint);
    let cleared = apply_token_flags(info, Ok(false), Ok(true));
    assert!(!cleared.is_token2022_base);
    assert!(cleared.is_token2022_quote);
}
