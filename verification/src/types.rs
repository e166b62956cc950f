//! Core data model: addresses, pool identity and decoded pool metadata.

use vstd::prelude::*;

verus! {

/// A 32-byte Solana account address, held as four little-endian 64-bit
/// words (`w0` covers bytes 0..8 of the raw key, `w3` bytes 24..32).
#[derive(Clone, Copy, PartialEq, Eq, Structural, Debug)]
pub struct Pubkey {
    pub w0: u64,
    pub w1: u64,
    pub w2: u64,
    pub w3: u64,
}

/// Key form used where an address indexes an outside collection.
pub type AddrKey = (u64, u64, u64, u64);

impl Pubkey {
    pub open spec fn spec_key(self) -> AddrKey {
        (self.w0, self.w1, self.w2, self.w3)
    }

    /// The tuple form of the address, for keying collections.
    pub fn key(&self) -> (r: AddrKey)
        ensures
            r == self.spec_key(),
    {
        (self.w0, self.w1, self.w2, self.w3)
    }

    pub fn from_words(w0: u64, w1: u64, w2: u64, w3: u64) -> (r: Pubkey)
        ensures
            r == (Pubkey { w0, w1, w2, w3 }),
    {
        Pubkey { w0, w1, w2, w3 }
    }
}

impl Default for Pubkey {
    /// The all-zero address.
    fn default() -> (r: Pubkey)
        ensures
            r == (Pubkey { w0: 0u64, w1: 0u64, w2: 0u64, w3: 0u64 }),
    {
        Pubkey { w0: 0, w1: 0, w2: 0, w3: 0 }
    }
}

/// The wrapped-SOL mint `So11111111111111111111111111111111111111112`.
pub open spec fn spec_sol_mint() -> Pubkey {
    Pubkey {
        w0: 0x8481abfe57889b06u64,
        w1: 0x35c01846637f68fbu64,
        w2: 0x553beb1adc39c4dau64,
        w3: 0x0100000000f0a098u64,
    }
}

pub fn sol_mint() -> (r: Pubkey)
    ensures
        r == spec_sol_mint(),
{
    Pubkey {
        w0: 0x8481abfe57889b06u64,
        w1: 0x35c01846637f68fbu64,
        w2: 0x553beb1adc39c4dau64,
        w3: 0x0100000000f0a098u64,
    }
}

/// Which decentralized-exchange program a pool account belongs to.
#[derive(Clone, Copy, PartialEq, Eq, Structural, Debug)]
pub enum DexKind {
    OrcaWhirlpools,
    RaydiumClmm,
    RaydiumCpmm,
}

impl Default for DexKind {
    fn default() -> (r: DexKind)
        ensures
            r == DexKind::OrcaWhirlpools,
    {
        DexKind::OrcaWhirlpools
    }
}

/// Identity of a pool: the owning program and the pool account.
#[derive(Clone, Copy, PartialEq, Eq, Structural, Debug)]
pub struct PoolId {
    pub program: Pubkey,
    pub account: Pubkey,
}

/// Normalized pool metadata extracted from a raw account by a decoder.
#[derive(Clone, Copy, PartialEq, Eq, Structural, Debug)]
pub struct PoolInfo {
    pub dex: DexKind,
    pub id: PoolId,
    pub base_mint: Option<Pubkey>,
    pub quote_mint: Option<Pubkey>,
    pub fee_bps: Option<u16>,
    pub tick_spacing: Option<u16>,
    pub lp_mint: Option<Pubkey>,
    pub is_token2022_base: bool,
    pub is_token2022_quote: bool,
}

impl PoolInfo {
    /// Every decoder output carries both mint addresses.
    pub open spec fn wf(self) -> bool {
        self.base_mint is Some && self.quote_mint is Some
    }
}

/// An event published on the internal bus by the pool watcher.
#[derive(Clone, Debug)]
pub enum PoolEvent {
    SnapshotStarted { program: Pubkey },
    SnapshotFinished { program: Pubkey, count: usize },
    AccountNew { info: PoolInfo, data_len: usize, slot: u64 },
    AccountChanged { info: PoolInfo, data_len: usize, slot: u64 },
    AccountDeleted { id: PoolId, slot: u64 },
    ProgramLog { program: Pubkey, signature: String, slot: u64 },
    ResyncTick { program: Pubkey },
}


/// Which token program owns a mint, as carried in enriched alerts; an
/// unknown owner keeps its address.
#[derive(Clone, Debug)]
pub enum TokenProgramKind {
    TokenV1,
    Token2022,
    Other(Pubkey),
}

/// The flat bag of Token-2022 extension flags carried in alerts.
#[derive(Clone, Copy, PartialEq, Eq, Structural, Debug)]
pub struct TokenExtensionFlags {
    pub non_transferable: bool,
    pub default_frozen: bool,
    pub permanent_delegate: bool,
    pub transfer_hook: bool,
    pub memo_required: bool,
    pub confidential: bool,
    pub mint_close_authority: bool,
    pub transfer_fee_bps: Option<u16>,
    pub transfer_fee_max: Option<u64>,
}

pub open spec fn spec_default_token_flags() -> TokenExtensionFlags {
    TokenExtensionFlags {
        non_transferable: false,
        default_frozen: false,
        permanent_delegate: false,
        transfer_hook: false,
        memo_required: false,
        confidential: false,
        mint_close_authority: false,
        transfer_fee_bps: None,
        transfer_fee_max: None,
    }
}

impl Default for TokenExtensionFlags {
    fn default() -> (r: TokenExtensionFlags)
        ensures
            r == spec_default_token_flags(),
    {
        TokenExtensionFlags {
            non_transferable: false,
            default_frozen: false,
            permanent_delegate: false,
            transfer_hook: false,
            memo_required: false,
            confidential: false,
            mint_close_authority: false,
            transfer_fee_bps: None,
            transfer_fee_max: None,
        }
    }
}

/// Classification result for a single mint, as carried in alerts.
#[derive(Clone, Debug)]
pub struct TokenSafetyReport {
    pub mint: Pubkey,
    pub program: TokenProgramKind,
    pub decimals: u8,
    pub supply: u64,
    pub mint_authority_none: bool,
    pub freeze_authority_none: bool,
    pub flags: TokenExtensionFlags,
    pub decision_safe: bool,
    pub reasons: Vec<String>,
    pub warnings: Vec<String>,
}

/// The assembled per-pool alert core: identity, both token reports, fee,
/// tick spacing and the wall-clock timestamp in milliseconds.
#[derive(Clone, Debug)]
pub struct PoolTokenBundle {
    pub pool: Pubkey,
    pub program: Pubkey,
    pub token_a: TokenSafetyReport,
    pub token_b: TokenSafetyReport,
    pub fee_bps: Option<u16>,
    pub tick_spacing: Option<u16>,
    pub ts_ms: u64,
}

} // verus!
