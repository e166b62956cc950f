//! Mint account analysis: route by the owning token program, decode the
//! fixed mint layout, and for Token-2022 walk the TLV extensions.

use vstd::prelude::*;
use crate::extensions::{MINT_BASE_LEN, analyze_extensions, spec_extensions};
use crate::util::views_of;
use crate::report::{Flags, ProgramOwner, SafetyReport, spec_default_flags};
use crate::types::Pubkey;
use crate::util::{le_u32, le_u64, spec_le_u32, spec_le_u64};

verus! {

/// The legacy token program `TokenkegQfeZyiNwAJbNbGKPFXCWuBvf9Ss623VQ5DA`.
pub open spec fn spec_token_v1_id() -> Pubkey {
    Pubkey {
        w0: 0x93a165d7e1f6dd06u64,
        w1: 0xac79ebce46e1cbd9u64,
        w2: 0x91375b5fed85b41cu64,
        w3: 0xa900ff7e85f58c3au64,
    }
}

pub fn token_v1_id() -> (r: Pubkey)
    ensures
        r == spec_token_v1_id(),
{
    Pubkey {
        w0: 0x93a165d7e1f6dd06u64,
        w1: 0xac79ebce46e1cbd9u64,
        w2: 0x91375b5fed85b41cu64,
        w3: 0xa900ff7e85f58c3au64,
    }
}

/// The Token-2022 program `TokenzQdBNbLqP5VEhdkAS6EPFLC1PHnBqCXEpPxuEb`.
pub open spec fn spec_token_2022_id() -> Pubkey {
    Pubkey {
        w0: 0xde8f75eee1f6dd06u64,
        w1: 0xdacd6ce4bc5d4218u64,
        w2: 0x270db9834dfc1ab6u64,
        w3: 0xfc8ba1d828f9bdfeu64,
    }
}

pub fn token_2022_id() -> (r: Pubkey)
    ensures
        r == spec_token_2022_id(),
{
    Pubkey {
        w0: 0xde8f75eee1f6dd06u64,
        w1: 0xdacd6ce4bc5d4218u64,
        w2: 0x270db9834dfc1ab6u64,
        w3: 0xfc8ba1d828f9bdfeu64,
    }
}

/// A mint account as handed to the analyzer: the owning program and the
/// raw account bytes.
#[derive(Clone, Debug)]
pub struct MintAccount {
    pub owner: Pubkey,
    pub data: Vec<u8>,
}

/// Why a mint account failed to decode.
#[derive(Clone, Copy, PartialEq, Eq, Structural, Debug)]
pub enum MintError {
    /// The account is owned by the legacy token program but its data does
    /// not hold a valid fixed mint layout.
    InvalidTokenV1Mint,
    /// The account is owned by the Token-2022 program but its data does
    /// not hold a valid fixed mint layout.
    InvalidToken2022Mint,
}

/// The fields of the fixed 82-byte mint layout.
#[derive(Clone, Copy, PartialEq, Eq, Structural, Debug)]
pub struct MintBase {
    pub mint_authority_none: bool,
    pub freeze_authority_none: bool,
    pub supply: u64,
    pub decimals: u8,
}

/// The fixed mint layout holds an optional authority as a 4-byte
/// little-endian tag (0 = absent, 1 = present) followed by the key, and
/// an is-initialized byte at offset 45 that must be 0 or 1. The layout
/// is valid when the data is long enough and all three are in range.
pub open spec fn spec_mint_base_valid(data: Seq<u8>) -> bool {
    data.len() >= MINT_BASE_LEN && (spec_le_u32(data, 0) == 0 || spec_le_u32(data, 0) == 1) && (
    spec_le_u32(data, 46) == 0 || spec_le_u32(data, 46) == 1) && (data[45] == 0 || data[45] == 1)
}

/// The decoded fixed mint layout: authority-absence tags at bytes 0 and
/// 46, supply at byte 36, decimals at byte 44.
pub open spec fn spec_mint_base(data: Seq<u8>) -> MintBase {
    MintBase {
        mint_authority_none: spec_le_u32(data, 0) == 0,
        freeze_authority_none: spec_le_u32(data, 46) == 0,
        supply: spec_le_u64(data, 36) as u64,
        decimals: data[44] as u8,
    }
}

/// Decode the fixed mint layout, or `None` when the data is too short,
/// an authority tag is invalid, or the is-initialized byte is invalid.
pub fn unpack_mint(data: &[u8]) -> (r: Option<MintBase>)
    ensures
        r is Some <==> spec_mint_base_valid(data@),
        r matches Some(b) ==> b == spec_mint_base(data@),
{
    if data.len() < MINT_BASE_LEN {
        return None;
    }
    let mint_tag = le_u32(data, 0);
    let freeze_tag = le_u32(data, 46);
    let init_byte = data[45];
    if (mint_tag == 0 || mint_tag == 1) && (freeze_tag == 0 || freeze_tag == 1) && (init_byte
        == 0 || init_byte == 1) {
        Some(
            MintBase {
                mint_authority_none: mint_tag == 0,
                freeze_authority_none: freeze_tag == 0,
                supply: le_u64(data, 36),
                decimals: data[44],
            },
        )
    } else {
        None
    }
}

/// Analyze a mint account into a [`SafetyReport`].
///
/// Routing is by account owner: the legacy token program and Token-2022
/// require a valid fixed mint layout; Token-2022 additionally walks the
/// TLV extensions and then overrides the authority flags from the fixed
/// layout; any other owner yields a report with zeroed fields and both
/// authorities absent.
pub fn analyze_mint(account: &MintAccount, now_epoch: u64, _probe_amount: u64) -> (r: Result<
    SafetyReport,
    MintError,
>)
    ensures
        account.owner == spec_token_v1_id() ==> {
            &&& r is Ok <==> spec_mint_base_valid(account.data@)
            &&& r is Err ==> r == Err::<SafetyReport, MintError>(MintError::InvalidTokenV1Mint)
            &&& r matches Ok(rep) ==> {
                let base = spec_mint_base(account.data@);
                &&& rep.mint == Pubkey { w0: 0u64, w1: 0u64, w2: 0u64, w3: 0u64 }
                &&& rep.program_owner == ProgramOwner::TokenV1
                &&& rep.decimals == base.decimals
                &&& rep.supply == base.supply
                &&& rep.flags == Flags {
                    mint_authority_none: base.mint_authority_none,
                    freeze_authority_none: base.freeze_authority_none,
                    ..spec_default_flags()
                }
                &&& rep.transfer_fee is None
                &&& rep.other_extensions@.len() == 0
            }
        },
        account.owner != spec_token_v1_id() && account.owner == spec_token_2022_id() ==> {
            &&& r is Ok <==> spec_mint_base_valid(account.data@)
            &&& r is Err ==> r == Err::<SafetyReport, MintError>(MintError::InvalidToken2022Mint)
            &&& r matches Ok(rep) ==> {
                let base = spec_mint_base(account.data@);
                let scan = spec_extensions(account.data@);
                &&& rep.mint == Pubkey { w0: 0u64, w1: 0u64, w2: 0u64, w3: 0u64 }
                &&& rep.program_owner == ProgramOwner::Token2022
                &&& rep.decimals == base.decimals
                &&& rep.supply == base.supply
                &&& rep.flags == Flags {
                    mint_authority_none: base.mint_authority_none,
                    freeze_authority_none: base.freeze_authority_none,
                    ..scan.flags
                }
                &&& rep.transfer_fee == scan.fee
                &&& views_of(rep.other_extensions@) == scan.others
            }
        },
        account.owner != spec_token_v1_id() && account.owner != spec_token_2022_id() ==> {
            &&& r matches Ok(rep)
            &&& rep.mint == Pubkey { w0: 0u64, w1: 0u64, w2: 0u64, w3: 0u64 }
            &&& rep.program_owner == ProgramOwner::Other
            &&& rep.decimals == (if spec_mint_base_valid(account.data@) {
                spec_mint_base(account.data@).decimals
            } else {
                0u8
            })
            &&& rep.supply == (if spec_mint_base_valid(account.data@) {
                spec_mint_base(account.data@).supply
            } else {
                0u64
            })
            &&& rep.flags == Flags {
                mint_authority_none: true,
                freeze_authority_none: true,
                ..spec_default_flags()
            }
            &&& rep.transfer_fee is None
            &&& rep.other_extensions@.len() == 0
        },
{
    let owner = account.owner;
    let mint_pubkey = Pubkey::default();
    if owner == token_v1_id() {
        match unpack_mint(account.data.as_slice()) {
            Some(base) => Ok(
                SafetyReport {
                    mint: mint_pubkey,
                    program_owner: ProgramOwner::TokenV1,
                    decimals: base.decimals,
                    supply: base.supply,
                    flags: Flags {
                        mint_authority_none: base.mint_authority_none,
                        freeze_authority_none: base.freeze_authority_none,
                        ..Flags::default()
                    },
                    transfer_fee: None,
                    other_extensions: Vec::new(),
                },
            ),
            None => Err(MintError::InvalidTokenV1Mint),
        }
    } else if owner == token_2022_id() {
        match unpack_mint(account.data.as_slice()) {
            Some(base) => {
                let (mut flags, transfer_fee, other_ext) = analyze_extensions(
                    account.data.as_slice(),
                    now_epoch,
                );
                flags.mint_authority_none = base.mint_authority_none;
                flags.freeze_authority_none = base.freeze_authority_none;
                Ok(
                    SafetyReport {
                        mint: mint_pubkey,
                        program_owner: ProgramOwner::Token2022,
                        decimals: base.decimals,
                        supply: base.supply,
                        flags,
                        transfer_fee,
                        other_extensions: other_ext,
                    },
                )
            },
            None => Err(MintError::InvalidToken2022Mint),
        }
    } else {
        let base = unpack_mint(account.data.as_slice());
        let decimals = match &base {
            Some(b) => b.decimals,
            None => 0,
        };
        let supply = match &base {
            Some(b) => b.supply,
            None => 0,
        };
        Ok(
            SafetyReport {
                mint: mint_pubkey,
                program_owner: ProgramOwner::Other,
                decimals,
                supply,
                flags: Flags {
                    mint_authority_none: true,
                    freeze_authority_none: true,
                    ..Flags::default()
                },
                transfer_fee: None,
                other_extensions: Vec::new(),
            },
        )
    }
}

} // verus!
