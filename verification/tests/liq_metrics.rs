use arb_notify::liq::{is_quote, read_token_balance};
use arb_notify::report::{effective_transfer_fee, SafetyReport, TransferFeeInfo};
use arb_notify::types::Pubkey;

#[test]
fn token_balance_reads_bytes_64_to_72() {
    let mut data = vec![0u8; 72];
    data[64..72].copy_from_slice(&123_456_789u64.to_le_bytes());
    assert_eq!(read_token_balance(Some(&data)), 123_456_789);
}

#[test]
fn token_balance_of_short_or_missing_account_is_zero() {
    assert_eq!(read_token_balance(None), 0);
    assert_eq!(read_token_balance(Some(&vec![0u8; 71])), 0);
}

#[test]
fn quote_side_prefers_side_a() {
    let a = Pubkey::from_words(1, 0, 0, 0);
    let b = Pubkey::from_words(2, 0, 0, 0);
    let c = Pubkey::from_words(3, 0, 0, 0);
    assert_eq!(is_quote(&a, &b, &vec![a]), Some(true));
    assert_eq!(is_quote(&a, &b, &vec![b]), Some(false));
    assert_eq!(is_quote(&a, &b, &vec![a, b]), Some(true));
    assert_eq!(is_quote(&a, &b, &vec![c]), None);
}

fn fee_report(fee_bps: u16, max_fee: u64) -> SafetyReport {
    SafetyReport {
        mint: Pubkey::default(),
        program_owner: arb_notify::report::ProgramOwner::Token2022,
        decimals: 6,
        supply: 0,
        flags: arb_notify::report::Flags::default(),
        transfer_fee: Some(TransferFeeInfo { epoch: 0, fee_bps, max_fee }),
        other_extensions: vec![],
    }
}

#[test]
fn effective_fee_applies_bps_and_cap() {
    let eff = effective_transfer_fee(&fee_report(150, 1_000_000), 100_000);
    assert_eq!(eff.fee_bps, Some(150));
    // 100_000 * 150 / 10_000
    assert_eq!(eff.fee_abs, Some(1_500));

    let capped = effective_transfer_fee(&fee_report(150, 100), 100_000);
    assert_eq!(capped.fee_abs, Some(100));
}

#[test]
fn effective_fee_absent_without_config() {
    let mut rep = fee_report(0, 0);
    rep.transfer_fee = None;
    let eff = effective_transfer_fee(&rep, 100_000);
    assert_eq!(eff.fee_bps, None);
    assert_eq!(eff.fee_abs, None);
}

#[test]
fn simulate_sell_reports_unsupported() {
    let k = Pubkey::from_words(1, 2, 3, 4);
    let r = arb_notify::sim::simulate_sell(k, k, k, k, 1_000, 50);
    assert!(!r.ok);
    assert_eq!(r.error.as_deref(), Some("unsupported_pool_program"));
    assert!(r.amount_out.is_none());
}
