//! Binary pool-account decoders for the supported DEX programs, and the
//! Raydium fee-config side table they share.

use vstd::prelude::*;
use crate::types::{AddrKey, DexKind, PoolId, PoolInfo, Pubkey};
use crate::util::{le_u16, le_u32, pubkey_at, spec_le_u16, spec_le_u32, spec_pubkey_at};

verus! {

/// Side table of Raydium AMM-config accounts to their trading fee in
/// basis points. Config records may arrive before or after the pools
/// that reference them. Holds a `dashmap::DashMap` keyed by address words.
#[verifier::external_body]
pub struct ConfigFees {
    inner: dashmap::DashMap<AddrKey, u16>,
}

/// What the side table holds: config account address to fee basis points.
pub uninterp spec fn spec_config_fees(m: ConfigFees) -> Map<AddrKey, u16>;

/// The contents of an empty side table.
pub open spec fn spec_no_config_fees() -> Map<AddrKey, u16> {
    Map::empty()
}

/// Relies on `dashmap::DashMap::new`: a fresh map holds nothing.
#[verifier::external_body]
fn config_fees_new_raw() -> (r: ConfigFees)
    ensures
        spec_config_fees(r) == spec_no_config_fees(),
{
    ConfigFees { inner: dashmap::DashMap::new() }
}

/// Relies on `dashmap::DashMap::insert`: the map then holds `v` at `k`
/// and every other entry is untouched.
#[verifier::external_body]
fn config_fees_insert_raw(m: &mut ConfigFees, k: AddrKey, v: u16)
    ensures
        spec_config_fees(*final(m)) == spec_config_fees(*old(m)).insert(k, v),
{
    m.inner.insert(k, v);
}

/// Relies on `dashmap::DashMap::get`: returns the entry at `k`, if any.
#[verifier::external_body]
fn config_fees_get_raw(m: &ConfigFees, k: AddrKey) -> (r: Option<u16>)
    ensures
        r == (if spec_config_fees(*m).contains_key(k) {
            Some(spec_config_fees(*m)[k])
        } else {
            None::<u16>
        }),
{
    m.inner.get(&k).map(|v| *v)
}

impl ConfigFees {
    /// An empty side table.
    pub fn new() -> (r: ConfigFees)
        ensures
            spec_config_fees(r) == spec_no_config_fees(),
    {
        config_fees_new_raw()
    }

    /// Record the fee of a config account.
    pub fn insert(&mut self, key: &Pubkey, fee_bps: u16)
        ensures
            spec_config_fees(*final(self)) == spec_config_fees(*old(self)).insert(
                key.spec_key(),
                fee_bps,
            ),
    {
        config_fees_insert_raw(self, key.key(), fee_bps)
    }

    /// Look up the fee of a config account.
    pub fn get(&self, key: &Pubkey) -> (r: Option<u16>)
        ensures
            r == (if spec_config_fees(*self).contains_key(key.spec_key()) {
                Some(spec_config_fees(*self)[key.spec_key()])
            } else {
                None::<u16>
            }),
    {
        config_fees_get_raw(self, key.key())
    }
}

/// Byte layout of an Orca Whirlpools pool account.
pub const ORCA_MIN_LEN: usize = 181;

pub const ORCA_TICK_SPACING_OFFSET: usize = 9;

pub const ORCA_FEE_RATE_OFFSET: usize = 13;

pub const ORCA_TOKEN_A_OFFSET: usize = 69;

pub const ORCA_TOKEN_B_OFFSET: usize = 149;

/// The pool decoded from an Orca Whirlpools account, or `None` when the
/// data is shorter than the 181 bytes that hold both mints.
pub open spec fn spec_orca_decode(program: Pubkey, account: Pubkey, data: Seq<u8>) -> Option<
    PoolInfo,
> {
    if data.len() < ORCA_MIN_LEN {
        None
    } else {
        Some(
            PoolInfo {
                dex: DexKind::OrcaWhirlpools,
                id: PoolId { program, account },
                base_mint: Some(spec_pubkey_at(data, 69)),
                quote_mint: Some(spec_pubkey_at(data, 149)),
                fee_bps: Some(spec_le_u16(data, 13) as u16),
                tick_spacing: Some(spec_le_u16(data, 9) as u16),
                lp_mint: None,
                is_token2022_base: false,
                is_token2022_quote: false,
            },
        )
    }
}

/// Decode an Orca Whirlpools pool account.
pub fn orca_try_decode(program: Pubkey, account: Pubkey, data: &[u8]) -> (r: Option<PoolInfo>)
    ensures
        r == spec_orca_decode(program, account, data@),
{
    if data.len() < ORCA_MIN_LEN {
        return None;
    }
    let token_a = pubkey_at(data, ORCA_TOKEN_A_OFFSET);
    let token_b = pubkey_at(data, ORCA_TOKEN_B_OFFSET);
    let tick_spacing = le_u16(data, ORCA_TICK_SPACING_OFFSET);
    let fee_bps = le_u16(data, ORCA_FEE_RATE_OFFSET);
    Some(
        PoolInfo {
            dex: DexKind::OrcaWhirlpools,
            id: PoolId { program, account },
            base_mint: Some(token_a),
            quote_mint: Some(token_b),
            fee_bps: Some(fee_bps),
            tick_spacing: Some(tick_spacing),
            lp_mint: None,
            is_token2022_base: false,
            is_token2022_quote: false,
        },
    )
}

/// Byte layout of Raydium CLMM/CPMM accounts.
pub const RAYDIUM_CONFIG_LEN: usize = 117;

pub const RAYDIUM_TRADE_FEE_OFFSET: usize = 47;

pub const RAYDIUM_AMM_CONFIG_OFFSET: usize = 9;

pub const RAYDIUM_TOKEN_BASE_OFFSET: usize = 73;

pub const RAYDIUM_TOKEN_QUOTE_OFFSET: usize = 105;

pub const RAYDIUM_TICK_SPACING_OFFSET: usize = 235;

/// The fee in basis points recorded by a 117-byte Raydium config record:
/// the trade fee is stated in millionths and converts by
/// `fee * 10_000 / 1_000_000`, truncated to the 16 bits the side table
/// stores.
pub open spec fn spec_raydium_config_fee_bps(data: Seq<u8>) -> u16 {
    ((spec_le_u32(data, 47) * 10_000 / 1_000_000) % 0x1_0000) as u16
}

/// The pool decoded from a Raydium pool account, or `None` when the data
/// is a config record or too short. `fees` is the side-table contents at
/// the time of the decode.
pub open spec fn spec_raydium_decode(
    program: Pubkey,
    account: Pubkey,
    data: Seq<u8>,
    fees: Map<AddrKey, u16>,
) -> Option<PoolInfo> {
    if data.len() == RAYDIUM_CONFIG_LEN || data.len() <= RAYDIUM_TICK_SPACING_OFFSET + 2 {
        None
    } else {
        let amm_config = spec_pubkey_at(data, 9);
        Some(
            PoolInfo {
                dex: DexKind::RaydiumClmm,
                id: PoolId { program, account },
                base_mint: Some(spec_pubkey_at(data, 73)),
                quote_mint: Some(spec_pubkey_at(data, 105)),
                fee_bps: if fees.contains_key(amm_config.spec_key()) {
                    Some(fees[amm_config.spec_key()])
                } else {
                    None
                },
                tick_spacing: Some(spec_le_u16(data, 235) as u16),
                lp_mint: None,
                is_token2022_base: false,
                is_token2022_quote: false,
            },
        )
    }
}

/// The side-table contents after feeding `data`: a 117-byte config record
/// stores its fee under the config account; anything else changes nothing.
pub open spec fn spec_raydium_fees_after(
    account: Pubkey,
    data: Seq<u8>,
    fees: Map<AddrKey, u16>,
) -> Map<AddrKey, u16> {
    if data.len() == RAYDIUM_CONFIG_LEN {
        fees.insert(account.spec_key(), spec_raydium_config_fee_bps(data))
    } else {
        fees
    }
}

/// Convert the trade fee of a config record from millionths to basis
/// points, truncated to 16 bits.
fn raydium_config_fee(data: &[u8]) -> (r: u16)
    requires
        data@.len() == RAYDIUM_CONFIG_LEN,
    ensures
        r == spec_raydium_config_fee_bps(data@),
{
    let fee = le_u32(data, RAYDIUM_TRADE_FEE_OFFSET);
    let q: u64 = fee as u64 * 10_000 / 1_000_000;
    (q % 0x1_0000) as u16
}

/// Decode a Raydium CLMM/CPMM account. A 117-byte buffer is an AMM-config
/// record: its fee is stored in the side table and no pool is returned. A
/// buffer longer than 237 bytes is a pool record; its fee is looked up by
/// the referenced config account and may be absent.
pub fn raydium_try_decode(
    program: Pubkey,
    account: Pubkey,
    data: &[u8],
    fees: &mut ConfigFees,
) -> (r: Option<PoolInfo>)
    ensures
        r == spec_raydium_decode(program, account, data@, spec_config_fees(*old(fees))),
        spec_config_fees(*final(fees)) == spec_raydium_fees_after(
            account,
            data@,
            spec_config_fees(*old(fees)),
        ),
{
    if data.len() == RAYDIUM_CONFIG_LEN {
        let fee_bps = raydium_config_fee(data);
        fees.insert(&account, fee_bps);
        return None;
    }
    if data.len() <= RAYDIUM_TICK_SPACING_OFFSET + 2 {
        return None;
    }
    let amm_config = pubkey_at(data, RAYDIUM_AMM_CONFIG_OFFSET);
    let token_base = pubkey_at(data, RAYDIUM_TOKEN_BASE_OFFSET);
    let token_quote = pubkey_at(data, RAYDIUM_TOKEN_QUOTE_OFFSET);
    let tick_spacing = le_u16(data, RAYDIUM_TICK_SPACING_OFFSET);
    let fee_bps = fees.get(&amm_config);
    Some(
        PoolInfo {
            dex: DexKind::RaydiumClmm,
            id: PoolId { program, account },
            base_mint: Some(token_base),
            quote_mint: Some(token_quote),
            fee_bps,
            tick_spacing: Some(tick_spacing),
            lp_mint: None,
            is_token2022_base: false,
            is_token2022_quote: false,
        },
    )
}

/// Capability for deciding whether a mint is owned by the Token-2022
/// program; the pool watcher injects an RPC-backed implementation and
/// tests inject doubles. Nothing is assumed of an implementation.
pub trait TokenIntrospectionProvider {
    fn is_token2022(&self, mint: &Pubkey) -> Result<bool, TokenLookupError>;
}

/// The mint's owning program could not be determined.
#[derive(Clone, Copy, PartialEq, Eq, Structural, Debug)]
pub struct TokenLookupError;

/// `info` with the two token-program flags cleared; decoding determines
/// every other field, the flags come from introspection afterwards.
pub open spec fn spec_strip_flags(info: PoolInfo) -> PoolInfo {
    PoolInfo { is_token2022_base: false, is_token2022_quote: false, ..info }
}

/// A token-program lookup demoted to a flag: only a positive answer sets
/// it; a negative answer or a failed lookup leaves it clear.
pub open spec fn spec_demoted_flag(r: Result<bool, TokenLookupError>) -> bool {
    r == Ok::<bool, TokenLookupError>(true)
}

/// Fill the two token-program flags of a decoded pool from the two
/// introspection results: each flag is set exactly when its lookup
/// answered `Ok(true)`; every other field is unchanged.
pub fn apply_token_flags(
    info: PoolInfo,
    base: Result<bool, TokenLookupError>,
    quote: Result<bool, TokenLookupError>,
) -> (r: PoolInfo)
    ensures
        r == (PoolInfo {
            is_token2022_base: spec_demoted_flag(base),
            is_token2022_quote: spec_demoted_flag(quote),
            ..info
        }),
{
    let base_flag = match base {
        Ok(b) => b,
        Err(_) => false,
    };
    let quote_flag = match quote {
        Ok(b) => b,
        Err(_) => false,
    };
    PoolInfo { is_token2022_base: base_flag, is_token2022_quote: quote_flag, ..info }
}

/// The decoder output for `kind` before token introspection, with the
/// requested DEX kind stamped on.
pub open spec fn spec_decode_pool_raw(
    kind: DexKind,
    program: Pubkey,
    account: Pubkey,
    data: Seq<u8>,
    fees: Map<AddrKey, u16>,
) -> Option<PoolInfo> {
    let raw = if kind == DexKind::OrcaWhirlpools {
        spec_orca_decode(program, account, data)
    } else {
        spec_raydium_decode(program, account, data, fees)
    };
    match raw {
        Some(info) => Some(PoolInfo { dex: kind, ..info }),
        None => None,
    }
}

/// Decode a pool account of the given DEX kind, then fill the two
/// token-program flags by asking `token` about each mint; a failed
/// lookup demotes the flag to `false`.
pub fn decode_pool<T: TokenIntrospectionProvider>(
    kind: DexKind,
    program: Pubkey,
    account: Pubkey,
    data: &[u8],
    token: &T,
    fees: &mut ConfigFees,
) -> (r: Option<PoolInfo>)
    ensures
        r matches Some(info) ==> Some(spec_strip_flags(info)) == spec_decode_pool_raw(
            kind,
            program,
            account,
            data@,
            spec_config_fees(*old(fees)),
        ),
        r is None ==> spec_decode_pool_raw(
            kind,
            program,
            account,
            data@,
            spec_config_fees(*old(fees)),
        ) is None,
        r matches Some(info) ==> info.wf(),
        spec_config_fees(*final(fees)) == (if kind != DexKind::OrcaWhirlpools {
            spec_raydium_fees_after(account, data@, spec_config_fees(*old(fees)))
        } else {
            spec_config_fees(*old(fees))
        }),
{
    let raw = match kind {
        DexKind::OrcaWhirlpools => orca_try_decode(program, account, data),
        DexKind::RaydiumClmm | DexKind::RaydiumCpmm => raydium_try_decode(
            program,
            account,
            data,
            fees,
        ),
    };
    match raw {
        Some(info) => {
            let mut info = info;
            info.dex = kind;
            let base_lookup = match &info.base_mint {
                Some(m) => token.is_token2022(m),
                None => Ok(false),
            };
            let quote_lookup = match &info.quote_mint {
                Some(m) => token.is_token2022(m),
                None => Ok(false),
            };
            Some(apply_token_flags(info, base_lookup, quote_lookup))
        },
        None => None,
    }
}

/// Every pool a decoder returns names both mints: a well-formed Orca or
/// Raydium record always carries the two mint addresses.
pub proof fn lemma_decoded_pool_has_mints(
    kind: DexKind,
    program: Pubkey,
    account: Pubkey,
    data: Seq<u8>,
    fees: Map<AddrKey, u16>,
)
    ensures
        spec_orca_decode(program, account, data) matches Some(info) ==> info.base_mint is Some
            && info.quote_mint is Some,
        spec_raydium_decode(program, account, data, fees) matches Some(info) ==> info.base_mint
            is Some && info.quote_mint is Some,
        spec_decode_pool_raw(kind, program, account, data, fees) matches Some(info)
            ==> info.wf(),
{
}

} // verus!
