use arb_notify::enrich::{
    analyze_mint, analyze_mint_account, AnalyzeError, FetchError, MintFetcher, TokenSafetyProvider,
};
use arb_notify::mint_reader::MintError;
use arb_notify::decoders::TokenIntrospectionProvider;
use arb_notify::mint_reader::{analyze_mint as read_mint, token_2022_id, token_v1_id, MintAccount};
use arb_notify::policy::{is_safe, Policy};
use arb_notify::report::{Flags, ProgramOwner, SafetyReport, TransferFeeInfo};
use arb_notify::types::Pubkey;

fn v1_mint_data(decimals: u8, mint_auth_present: bool, freeze_auth_present: bool) -> Vec<u8> {
    let mut d = vec![0u8; 82];
    if mint_auth_present {
        d[0] = 1;
    }
    d[44] = decimals;
    if freeze_auth_present {
        d[46] = 1;
    }
    d
}

fn mint_2022_with_tlv(entries: &[(u16, Vec<u8>)]) -> MintAccount {
    let mut d = v1_mint_data(6, false, false);
    for (t, payload) in entries {
        d.extend_from_slice(&t.to_le_bytes());
        d.extend_from_slice(&(payload.len() as u16).to_le_bytes());
        d.extend_from_slice(payload);
    }
    MintAccount { owner: token_2022_id(), data: d }
}

fn create_v1_mint() -> MintAccount {
    MintAccount { owner: token_v1_id(), data: v1_mint_data(6, false, false) }
}

fn create_2022_mint_non_transferable() -> MintAccount {
    mint_2022_with_tlv(&[(9, Vec::new())])
}

#[test]
fn decision_safe_v1() {
    let account = create_v1_mint();
    let report = read_mint(&account, 0, 0).unwrap();
    let policy = Policy::default();
    let d = is_safe(&report, &policy, false);
    assert!(d.safe);
}

#[test]
fn lib_decision_safe_v1() {
    let account = create_v1_mint();
    let report = read_mint(&account, 0, 0).unwrap();
    let policy = Policy::default();
    let d = is_safe(&report, &policy, false);
    assert!(d.safe);
}

#[test]
fn detect_non_transferable() {
    let account = create_2022_mint_non_transferable();
    let report = read_mint(&account, 0, 0).unwrap();
    assert!(report.flags.non_transferable);
    let policy = Policy::default();
    let d = is_safe(&report, &policy, false);
    assert!(!d.safe);
}

#[test]
fn lib_detect_non_transferable() {
    let account = create_2022_mint_non_transferable();
    let report = read_mint(&account, 0, 0).unwrap();
    assert!(report.flags.non_transferable);
    let policy = Policy::default();
    let d = is_safe(&report, &policy, false);
    assert!(!d.safe);
}

#[test]
fn parse_transfer_fee() {
    // TransferFee payload: epoch, maximum fee, basis points.
    let mut payload = Vec::new();
    payload.extend_from_slice(&0u64.to_le_bytes());
    payload.extend_from_slice(&500u64.to_le_bytes());
    payload.extend_from_slice(&150u16.to_le_bytes());
    let account = mint_2022_with_tlv(&[(1, payload)]);
    let report = read_mint(&account, 0, 0).unwrap();
    let tf = report.transfer_fee.unwrap();
    assert_eq!(tf.fee_bps, 150);
    assert_eq!(tf.max_fee, 500);
}

#[test]
fn unknown_extension_is_recorded() {
    let account = mint_2022_with_tlv(&[(99, vec![1, 2, 3])]);
    let report = read_mint(&account, 0, 0).unwrap();
    assert_eq!(report.other_extensions.len(), 1);
    assert_eq!(report.other_extensions[0], "ext_99");
}

fn high_fee_report() -> SafetyReport {
    SafetyReport {
        mint: Pubkey::default(),
        program_owner: ProgramOwner::Token2022,
        decimals: 6,
        supply: 0,
        flags: Flags {
            mint_authority_none: true,
            freeze_authority_none: true,
            ..Flags::default()
        },
        transfer_fee: Some(TransferFeeInfo { epoch: 0, fee_bps: 200, max_fee: 0 }),
        other_extensions: vec![],
    }
}

#[test]
fn transfer_fee_policy() {
    let policy = Policy::default();
    let d = is_safe(&high_fee_report(), &policy, false);
    assert!(!d.safe);
}

#[test]
fn lib_transfer_fee_policy() {
    let policy = Policy::default();
    let d = is_safe(&high_fee_report(), &policy, false);
    assert!(!d.safe);
}

#[test]
fn freeze_authority_present_is_unsafe() {
    let account = MintAccount { owner: token_v1_id(), data: v1_mint_data(6, false, true) };
    let rep = analyze_mint_account(&account, 0, 1_000, true, &Policy::default()).unwrap();
    assert!(!rep.decision_safe);
    assert!(rep.reasons.iter().any(|r| r == "freeze_authority"));
}

#[derive(Clone)]
struct MockRpc {
    account: MintAccount,
}

impl MintFetcher for MockRpc {
    fn get_account(&self, _mint: &Pubkey) -> Result<MintAccount, FetchError> {
        Ok(self.account.clone())
    }

    fn get_epoch(&self) -> Result<u64, FetchError> {
        Ok(0)
    }
}

#[test]
fn v1_ok() {
    let rpc = MockRpc { account: create_v1_mint() };
    let pol = Policy::default();
    let mint = Pubkey::from_words(11, 12, 13, 14);
    let rep = analyze_mint(&rpc, &mint, 0, 1_000, true, &pol).unwrap();
    assert!(rep.decision_safe);
}

#[test]
fn non_transferable_ban() {
    let rpc = MockRpc { account: create_2022_mint_non_transferable() };
    let pol = Policy::default();
    let mint = Pubkey::from_words(11, 12, 13, 14);
    let rep = analyze_mint(&rpc, &mint, 0, 1_000, true, &pol).unwrap();
    assert!(!rep.decision_safe);
    assert!(rep.reasons.iter().any(|r| r.contains("non_transferable")));
}

#[test]
fn default_frozen_ban() {
    let rpc = MockRpc { account: mint_2022_with_tlv(&[(6, vec![2])]) };
    let pol = Policy::default();
    let mint = Pubkey::from_words(11, 12, 13, 14);
    let rep = analyze_mint(&rpc, &mint, 0, 1_000, true, &pol).unwrap();
    assert!(!rep.decision_safe);
}

#[test]
fn transfer_fee_too_high() {
    let mut payload = Vec::new();
    payload.extend_from_slice(&0u64.to_le_bytes());
    payload.extend_from_slice(&10u64.to_le_bytes());
    payload.extend_from_slice(&250u16.to_le_bytes());
    let rpc = MockRpc { account: mint_2022_with_tlv(&[(1, payload)]) };
    let pol = Policy::default();
    let mint = Pubkey::from_words(11, 12, 13, 14);
    let rep = analyze_mint(&rpc, &mint, 0, 1_000, true, &pol).unwrap();
    assert!(!rep.decision_safe);
    assert!(rep.reasons.iter().any(|r| r.contains("transfer_fee")));
}

#[test]
fn detects_token2022_mints() {
    let provider = TokenSafetyProvider::new(MockRpc { account: create_2022_mint_non_transferable() });
    let mint = Pubkey::from_words(11, 12, 13, 14);
    assert!(provider.is_token2022(&mint).unwrap());
}

#[test]
fn detects_token_v1_mints() {
    let provider = TokenSafetyProvider::new(MockRpc { account: create_v1_mint() });
    let mint = Pubkey::from_words(11, 12, 13, 14);
    assert!(!provider.is_token2022(&mint).unwrap());
}

#[test]
fn malformed_v1_mint_is_an_error() {
    let account = MintAccount { owner: token_v1_id(), data: vec![0u8; 10] };
    assert_eq!(read_mint(&account, 0, 0).unwrap_err(), MintError::InvalidTokenV1Mint);
}

#[test]
fn malformed_2022_mint_is_an_error() {
    // long enough, but an invalid authority tag
    let mut data = vec![0u8; 82];
    data[0] = 7;
    let account = MintAccount { owner: token_2022_id(), data };
    assert_eq!(read_mint(&account, 0, 0).unwrap_err(), MintError::InvalidToken2022Mint);
}

#[test]
fn unknown_owner_decodes_best_effort() {
    let account = MintAccount { owner: Pubkey::from_words(1, 2, 3, 4), data: vec![0u8; 5] };
    let rep = read_mint(&account, 0, 0).unwrap();
    assert!(matches!(rep.program_owner, ProgramOwner::Other));
    assert_eq!(rep.decimals, 0);
    assert_eq!(rep.supply, 0);
}

struct FailingRpc;

impl MintFetcher for FailingRpc {
    fn get_account(&self, _mint: &Pubkey) -> Result<MintAccount, FetchError> {
        Err(FetchError)
    }

    fn get_epoch(&self) -> Result<u64, FetchError> {
        Err(FetchError)
    }
}

#[test]
fn fetch_failure_surfaces() {
    let mint = Pubkey::from_words(1, 2, 3, 4);
    let err = analyze_mint(&FailingRpc, &mint, 0, 1_000, true, &Policy::default()).unwrap_err();
    assert!(matches!(err, AnalyzeError::Fetch(_)));
}

#[test]
fn tolerated_mint_close_authority_is_a_warning() {
    let account = mint_2022_with_tlv(&[(3, Vec::new())]);
    let rep = read_mint(&account, 0, 0).unwrap();
    assert!(rep.flags.mint_close_authority);
    let d = is_safe(&rep, &Policy::default(), false);
    assert!(d.safe);
    assert!(d.warnings.iter().any(|w| w == "mint_close_authority"));

    let mut strict = Policy::default();
    strict.forbid_mint_close_authority = true;
    let d2 = is_safe(&rep, &strict, false);
    assert!(!d2.safe);
    assert!(d2.reasons.iter().any(|r| r == "mint_close_authority"));
}

#[test]
fn uninitialized_byte_out_of_range_is_an_error() {
    let mut data = v1_mint_data(6, false, false);
    data[45] = 7;
    let account = MintAccount { owner: token_v1_id(), data };
    assert_eq!(read_mint(&account, 0, 0).unwrap_err(), MintError::InvalidTokenV1Mint);
}

#[test]
fn unknown_owner_has_both_authorities_absent() {
    let account = MintAccount { owner: Pubkey::from_words(1, 2, 3, 4), data: vec![0u8; 5] };
    let rep = read_mint(&account, 0, 0).unwrap();
    assert!(rep.flags.mint_authority_none);
    assert!(rep.flags.freeze_authority_none);
    let d = is_safe(&rep, &Policy::default(), false);
    assert!(d.safe);
}

#[test]
fn introspection_goes_by_owner_alone() {
    // Token-2022 owner with data too short to be a mint: still Token-2022.
    let provider = TokenSafetyProvider::new(MockRpc {
        account: MintAccount { owner: token_2022_id(), data: vec![0u8; 3] },
    });
    let mint = Pubkey::from_words(11, 12, 13, 14);
    assert!(provider.is_token2022(&mint).unwrap());
}
