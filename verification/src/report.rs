//! Results of analyzing a token mint: owning program, authority flags,
//! Token-2022 extension flags, and transfer-fee details.

use vstd::prelude::*;
use crate::types::Pubkey;

verus! {

/// Which token program owns the mint account.
#[derive(Clone, Copy, PartialEq, Eq, Structural, Debug)]
pub enum ProgramOwner {
    TokenV1,
    Token2022,
    Other,
}

/// Flags extracted during mint analysis.
#[derive(Clone, Copy, PartialEq, Eq, Structural, Debug)]
pub struct Flags {
    pub mint_authority_none: bool,
    pub freeze_authority_none: bool,
    pub non_transferable: bool,
    pub default_frozen: bool,
    pub permanent_delegate: bool,
    pub transfer_hook: bool,
    pub memo_required: bool,
    pub confidential: bool,
    pub mint_close_authority: bool,
}

/// All flags clear.
pub open spec fn spec_default_flags() -> Flags {
    Flags {
        mint_authority_none: false,
        freeze_authority_none: false,
        non_transferable: false,
        default_frozen: false,
        permanent_delegate: false,
        transfer_hook: false,
        memo_required: false,
        confidential: false,
        mint_close_authority: false,
    }
}

impl Default for Flags {
    fn default() -> (r: Flags)
        ensures
            r == spec_default_flags(),
    {
        Flags {
            mint_authority_none: false,
            freeze_authority_none: false,
            non_transferable: false,
            default_frozen: false,
            permanent_delegate: false,
            transfer_hook: false,
            memo_required: false,
            confidential: false,
            mint_close_authority: false,
        }
    }
}

/// Transfer fee details if present.
#[derive(Clone, Copy, PartialEq, Eq, Structural, Debug)]
pub struct TransferFeeInfo {
    pub epoch: u64,
    pub fee_bps: u16,
    pub max_fee: u64,
}

/// Result of analyzing a mint account.
#[derive(Clone, Debug)]
pub struct SafetyReport {
    pub mint: Pubkey,
    pub program_owner: ProgramOwner,
    pub decimals: u8,
    pub supply: u64,
    pub flags: Flags,
    pub transfer_fee: Option<TransferFeeInfo>,
    pub other_extensions: Vec<String>,
}

/// Computed effective fee for a given amount.
#[derive(Clone, Copy, PartialEq, Eq, Structural, Debug)]
pub struct EffectiveFee {
    pub fee_bps: Option<u16>,
    pub fee_abs: Option<u64>,
}

impl Default for EffectiveFee {
    fn default() -> (r: EffectiveFee)
        ensures
            r == (EffectiveFee { fee_bps: None::<u16>, fee_abs: None::<u64> }),
    {
        EffectiveFee { fee_bps: None, fee_abs: None }
    }
}

/// The absolute fee a transfer of `amount` would pay under `cfg`:
/// `amount * fee_bps / 10_000` (saturating at `u64::MAX` before the
/// division), capped at `cfg.max_fee`.
pub open spec fn spec_effective_fee_abs(cfg: TransferFeeInfo, amount: u64) -> u64 {
    let product = if amount * cfg.fee_bps > u64::MAX {
        u64::MAX as int
    } else {
        amount * cfg.fee_bps
    };
    let fee = product / 10_000;
    if fee > cfg.max_fee {
        cfg.max_fee
    } else {
        fee as u64
    }
}

/// Compute the effective transfer fee of `report` for `amount`.
pub fn effective_transfer_fee(report: &SafetyReport, amount: u64) -> (r: EffectiveFee)
    ensures
        report.transfer_fee matches Some(cfg) ==> r == (EffectiveFee {
            fee_bps: Some(cfg.fee_bps),
            fee_abs: Some(spec_effective_fee_abs(cfg, amount)),
        }),
        report.transfer_fee is None ==> r == (EffectiveFee {
            fee_bps: None::<u16>,
            fee_abs: None::<u64>,
        }),
{
    if let Some(cfg) = &report.transfer_fee {
        let product = amount.checked_mul(cfg.fee_bps as u64).unwrap_or(u64::MAX);
        let mut fee = product / 10_000;
        if fee > cfg.max_fee {
            fee = cfg.max_fee;
        }
        EffectiveFee { fee_bps: Some(cfg.fee_bps), fee_abs: Some(fee) }
    } else {
        EffectiveFee { fee_bps: None, fee_abs: None }
    }
}

} // verus!
