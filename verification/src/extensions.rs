//! Token-2022 TLV extension parsing: walk the bytes after the fixed mint
//! base, reading `u16` type / `u16` length headers, and accumulate the
//! extension flags and the transfer-fee record.

use vstd::prelude::*;
use vstd::string::*;
use crate::util::views_of;
use crate::report::{Flags, TransferFeeInfo, spec_default_flags};
use crate::util::{append_dec, le_u16, le_u64, spec_dec, spec_le_u16, spec_le_u64};

verus! {

/// Byte length of the fixed mint layout that precedes the TLV region.
pub const MINT_BASE_LEN: usize = 82;

pub const EXT_TRANSFER_FEE_CONFIG: u16 = 1;
pub const EXT_MINT_CLOSE_AUTHORITY: u16 = 3;
pub const EXT_CONFIDENTIAL_TRANSFER_MINT: u16 = 4;
pub const EXT_DEFAULT_ACCOUNT_STATE: u16 = 6;
pub const EXT_MEMO_TRANSFER: u16 = 8;
pub const EXT_NON_TRANSFERABLE: u16 = 9;
pub const EXT_PERMANENT_DELEGATE: u16 = 12;
pub const EXT_TRANSFER_HOOK: u16 = 14;

/// Accumulated result of a TLV walk.
#[verifier::ext_equal]
pub struct ExtScan {
    pub flags: Flags,
    pub fee: Option<TransferFeeInfo>,
    pub others: Seq<Seq<char>>,
}

/// The transfer-fee record held in a TLV payload of length `l` at byte
/// offset `start`: epoch, then maximum fee, then basis points. A payload
/// too short to carry them marks presence with zeroed fields.
pub open spec fn spec_fee_at(data: Seq<u8>, start: int, l: int) -> TransferFeeInfo {
    if l >= 18 {
        TransferFeeInfo {
            epoch: spec_le_u64(data, start) as u64,
            max_fee: spec_le_u64(data, start + 8) as u64,
            fee_bps: spec_le_u16(data, start + 16) as u16,
        }
    } else {
        TransferFeeInfo { epoch: 0u64, max_fee: 0u64, fee_bps: 0u16 }
    }
}

/// One TLV entry applied to the accumulated state.
pub open spec fn spec_ext_step(data: Seq<u8>, start: int, l: int, t: int, acc: ExtScan) -> ExtScan {
    if t == EXT_NON_TRANSFERABLE {
        ExtScan { flags: Flags { non_transferable: true, ..acc.flags }, ..acc }
    } else if t == EXT_DEFAULT_ACCOUNT_STATE {
        if l >= 1 && data[start] == 2 {
            ExtScan { flags: Flags { default_frozen: true, ..acc.flags }, ..acc }
        } else {
            acc
        }
    } else if t == EXT_PERMANENT_DELEGATE {
        ExtScan { flags: Flags { permanent_delegate: true, ..acc.flags }, ..acc }
    } else if t == EXT_TRANSFER_HOOK {
        ExtScan { flags: Flags { transfer_hook: true, ..acc.flags }, ..acc }
    } else if t == EXT_MEMO_TRANSFER {
        if l >= 1 {
            ExtScan { flags: Flags { memo_required: data[start] != 0, ..acc.flags }, ..acc }
        } else {
            acc
        }
    } else if t == EXT_CONFIDENTIAL_TRANSFER_MINT {
        ExtScan { flags: Flags { confidential: true, ..acc.flags }, ..acc }
    } else if t == EXT_MINT_CLOSE_AUTHORITY {
        ExtScan { flags: Flags { mint_close_authority: true, ..acc.flags }, ..acc }
    } else if t == EXT_TRANSFER_FEE_CONFIG {
        ExtScan { fee: Some(spec_fee_at(data, start, l)), ..acc }
    } else {
        ExtScan { others: acc.others.push("ext_"@ + spec_dec(t)), ..acc }
    }
}

/// The TLV walk from byte offset `i`: stop when the next header does not
/// fit or its payload would overrun the data.
pub open spec fn spec_ext_scan(data: Seq<u8>, i: int, acc: ExtScan) -> ExtScan
    decreases data.len() - i,
{
    if i < 0 || i + 4 > data.len() {
        acc
    } else {
        let t = spec_le_u16(data, i);
        let l = spec_le_u16(data, i + 2);
        let start = i + 4;
        if start + l > data.len() {
            acc
        } else {
            spec_ext_scan(data, start + l, spec_ext_step(data, start, l, t, acc))
        }
    }
}

/// The initial accumulator: no flags, no fee, no unknown extensions.
pub open spec fn spec_ext_init() -> ExtScan {
    ExtScan { flags: spec_default_flags(), fee: None, others: Seq::<Seq<char>>::empty() }
}

/// The result of walking the whole TLV region of `data`.
pub open spec fn spec_extensions(data: Seq<u8>) -> ExtScan {
    spec_ext_scan(data, MINT_BASE_LEN as int, spec_ext_init())
}

/// Parse Token-2022 TLV extensions from raw mint account data.
#[verifier::rlimit(100)]
pub fn analyze_extensions(data: &[u8], _now_epoch: u64) -> (r: (
    Flags,
    Option<TransferFeeInfo>,
    Vec<String>,
))
    ensures
        r.0 == spec_extensions(data@).flags,
        r.1 == spec_extensions(data@).fee,
        views_of(r.2@) == spec_extensions(data@).others,
{
    let n = data.len();
    let mut flags = Flags::default();
    let mut fee: Option<TransferFeeInfo> = None;
    let mut others: Vec<String> = Vec::new();
    let mut i: usize = MINT_BASE_LEN;
    proof {
        assert(views_of(others@) =~= Seq::<Seq<char>>::empty());
        assert((ExtScan { flags, fee, others: views_of(others@) }) =~= spec_ext_init());
    }

    loop
        invariant_except_break
            n == data@.len(),
            i <= n || i == MINT_BASE_LEN,
            spec_extensions(data@) == spec_ext_scan(
                data@,
                i as int,
                ExtScan { flags, fee, others: views_of(others@) },
            ),
        ensures
            spec_extensions(data@) == (ExtScan { flags, fee, others: views_of(others@) }),
        decreases n - i,
    {
        if i > n || n - i < 4 {
            proof {
                assert(spec_ext_scan(
                    data@,
                    i as int,
                    ExtScan { flags, fee, others: views_of(others@) },
                ) == (ExtScan { flags, fee, others: views_of(others@) }));
            }
            break;
        }
        let t = le_u16(data, i);
        let l = le_u16(data, i + 2) as usize;
        let start = i + 4;
        if l > n - start {
            proof {
                assert(spec_ext_scan(
                    data@,
                    i as int,
                    ExtScan { flags, fee, others: views_of(others@) },
                ) == (ExtScan { flags, fee, others: views_of(others@) }));
            }
            break;
        }
        let ghost pre = ExtScan { flags, fee, others: views_of(others@) };
        proof {
            assert(spec_ext_scan(data@, i as int, pre) == spec_ext_scan(
                data@,
                start + l,
                spec_ext_step(data@, start as int, l as int, t as int, pre),
            ));
        }
        if t == EXT_NON_TRANSFERABLE {
            flags.non_transferable = true;
        } else if t == EXT_DEFAULT_ACCOUNT_STATE {
            if l >= 1 && data[start] == 2 {
                flags.default_frozen = true;
            }
        } else if t == EXT_PERMANENT_DELEGATE {
            flags.permanent_delegate = true;
        } else if t == EXT_TRANSFER_HOOK {
            flags.transfer_hook = true;
        } else if t == EXT_MEMO_TRANSFER {
            if l >= 1 {
                flags.memo_required = data[start] != 0;
            }
        } else if t == EXT_CONFIDENTIAL_TRANSFER_MINT {
            flags.confidential = true;
        } else if t == EXT_MINT_CLOSE_AUTHORITY {
            flags.mint_close_authority = true;
        } else if t == EXT_TRANSFER_FEE_CONFIG {
            if l >= 18 {
                fee = Some(
                    TransferFeeInfo {
                        epoch: le_u64(data, start),
                        max_fee: le_u64(data, start + 8),
                        fee_bps: le_u16(data, start + 16),
                    },
                );
            } else {
                fee = Some(TransferFeeInfo { epoch: 0, max_fee: 0, fee_bps: 0 });
            }
        } else {
            let mut s = String::from_str("ext_");
            append_dec(&mut s, t as u64);
            others.push(s);
            proof {
                assert(views_of(others@) =~= pre.others.push("ext_"@ + spec_dec(t as int)));
            }
        }
        proof {
            assert((ExtScan { flags, fee, others: views_of(others@) }) == spec_ext_step(
                data@,
                start as int,
                l as int,
                t as int,
                pre,
            ));
        }
        i = start + l;
    }
    (flags, fee, others)
}

} // verus!
