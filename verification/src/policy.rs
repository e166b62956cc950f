//! Safety policy: which mint flags demote a token to unsafe, which only
//! warn, and the thresholds on transfer fees.

use vstd::prelude::*;
use vstd::string::*;
use crate::report::{Flags, SafetyReport, TransferFeeInfo};
use crate::util::views_of;

verus! {

/// Controls how a [`SafetyReport`] is evaluated into a [`Decision`].
#[derive(Clone, Debug)]
pub struct Policy {
    pub require_freeze_authority_none: bool,
    pub forbid_non_transferable: bool,
    pub forbid_default_frozen: bool,
    pub forbid_permanent_delegate: bool,
    pub forbid_transfer_hook: bool,
    pub forbid_confidential: bool,
    pub max_fee_bps: u16,
    pub max_fee_absolute: u64,
    pub allow_mint_authority: bool,
    pub forbid_memo_required_if_route_has_no_memo: bool,
    pub forbid_mint_close_authority: bool,
}

pub open spec fn spec_default_policy() -> Policy {
    Policy {
        require_freeze_authority_none: true,
        forbid_non_transferable: true,
        forbid_default_frozen: true,
        forbid_permanent_delegate: true,
        forbid_transfer_hook: true,
        forbid_confidential: true,
        max_fee_bps: 100u16,
        max_fee_absolute: 0u64,
        allow_mint_authority: false,
        forbid_memo_required_if_route_has_no_memo: true,
        forbid_mint_close_authority: false,
    }
}

impl Default for Policy {
    fn default() -> (r: Policy)
        ensures
            r == spec_default_policy(),
    {
        Policy {
            require_freeze_authority_none: true,
            forbid_non_transferable: true,
            forbid_default_frozen: true,
            forbid_permanent_delegate: true,
            forbid_transfer_hook: true,
            forbid_confidential: true,
            max_fee_bps: 100,
            max_fee_absolute: 0,
            allow_mint_authority: false,
            forbid_memo_required_if_route_has_no_memo: true,
            forbid_mint_close_authority: false,
        }
    }
}

/// Decision produced by evaluating a [`SafetyReport`].
#[derive(Clone, Debug)]
pub struct Decision {
    pub safe: bool,
    pub reasons: Vec<String>,
    pub warnings: Vec<String>,
}

impl Decision {
    /// A decision with no findings: safe, with empty reason and warning lists.
    pub fn new() -> (r: Decision)
        ensures
            r.safe,
            r.reasons@ =~= Seq::<String>::empty(),
            r.warnings@ =~= Seq::<String>::empty(),
    {
        Decision { safe: true, reasons: Vec::new(), warnings: Vec::new() }
    }
}

/// Reasons earned from the two authority flags.
pub open spec fn spec_reasons_authority(fl: Flags, p: Policy) -> Seq<Seq<char>> {
    let s = Seq::<Seq<char>>::empty();
    let s = if !fl.freeze_authority_none && p.require_freeze_authority_none {
        s.push("freeze_authority"@)
    } else {
        s
    };
    let s = if !fl.mint_authority_none && !p.allow_mint_authority {
        s.push("mint_authority"@)
    } else {
        s
    };
    s
}

/// Warnings earned from the authority flags: a mint authority the policy
/// tolerates.
pub open spec fn spec_warnings_authority(fl: Flags, p: Policy) -> Seq<Seq<char>> {
    if !fl.mint_authority_none && p.allow_mint_authority {
        seq!["mint_authority"@]
    } else {
        Seq::<Seq<char>>::empty()
    }
}

/// Reasons earned from the Token-2022 extension flags.
pub open spec fn spec_reasons_ext(fl: Flags, p: Policy, route_supports_memo: bool) -> Seq<
    Seq<char>,
> {
    let s = Seq::<Seq<char>>::empty();
    let s = if fl.non_transferable && p.forbid_non_transferable {
        s.push("non_transferable"@)
    } else {
        s
    };
    let s = if fl.default_frozen && p.forbid_default_frozen {
        s.push("default_frozen"@)
    } else {
        s
    };
    let s = if fl.permanent_delegate && p.forbid_permanent_delegate {
        s.push("permanent_delegate"@)
    } else {
        s
    };
    let s = if fl.transfer_hook && p.forbid_transfer_hook {
        s.push("transfer_hook"@)
    } else {
        s
    };
    let s = if fl.memo_required && p.forbid_memo_required_if_route_has_no_memo
        && !route_supports_memo {
        s.push("memo_required"@)
    } else {
        s
    };
    let s = if fl.confidential && p.forbid_confidential {
        s.push("confidential"@)
    } else {
        s
    };
    let s = if fl.mint_close_authority && p.forbid_mint_close_authority {
        s.push("mint_close_authority"@)
    } else {
        s
    };
    s
}

/// Warnings earned from the extension flags: a close authority the policy
/// tolerates.
pub open spec fn spec_warnings_ext(fl: Flags, p: Policy) -> Seq<Seq<char>> {
    if fl.mint_close_authority && !p.forbid_mint_close_authority {
        seq!["mint_close_authority"@]
    } else {
        Seq::<Seq<char>>::empty()
    }
}

/// Reasons earned from the transfer-fee thresholds.
pub open spec fn spec_reasons_fee(tf: Option<TransferFeeInfo>, p: Policy) -> Seq<Seq<char>> {
    let s = Seq::<Seq<char>>::empty();
    let s = if tf matches Some(fee) && fee.fee_bps > p.max_fee_bps {
        s.push("transfer_fee"@)
    } else {
        s
    };
    let s = if tf matches Some(fee) && fee.max_fee > p.max_fee_absolute
        && p.max_fee_absolute > 0 {
        s.push("transfer_fee_max"@)
    } else {
        s
    };
    s
}

/// The canonical reason strings that `report` earns under `policy`, in
/// evaluation order. The decision is safe exactly when this is empty.
pub open spec fn spec_reasons_of(
    fl: Flags,
    tf: Option<TransferFeeInfo>,
    p: Policy,
    route_supports_memo: bool,
) -> Seq<Seq<char>> {
    spec_reasons_authority(fl, p) + spec_reasons_ext(fl, p, route_supports_memo)
        + spec_reasons_fee(tf, p)
}

pub open spec fn spec_reasons(r: SafetyReport, p: Policy, route_supports_memo: bool) -> Seq<
    Seq<char>,
> {
    spec_reasons_of(r.flags, r.transfer_fee, p, route_supports_memo)
}

/// The warning strings that `report` earns under `policy`, in evaluation
/// order: soft findings that do not make the decision unsafe.
pub open spec fn spec_warnings_of(fl: Flags, p: Policy) -> Seq<Seq<char>> {
    spec_warnings_authority(fl, p) + spec_warnings_ext(fl, p)
}

pub open spec fn spec_warnings(r: SafetyReport, p: Policy) -> Seq<Seq<char>> {
    spec_warnings_of(r.flags, p)
}

/// Record one hard failure: the decision becomes unsafe.
fn add_reason(d: &mut Decision, s: &str)
    ensures
        views_of(final(d).reasons@) == views_of(old(d).reasons@).push(s@),
        final(d).warnings@ == old(d).warnings@,
        !final(d).safe,
{
    d.safe = false;
    d.reasons.push(String::from_str(s));
    proof {
        assert(views_of(d.reasons@) =~= views_of(old(d).reasons@).push(s@));
    }
}

/// Record one soft finding: the decision keeps its safety.
fn add_warning(d: &mut Decision, s: &str)
    ensures
        views_of(final(d).warnings@) == views_of(old(d).warnings@).push(s@),
        final(d).reasons@ == old(d).reasons@,
        final(d).safe == old(d).safe,
{
    d.warnings.push(String::from_str(s));
    proof {
        assert(views_of(d.warnings@) =~= views_of(old(d).warnings@).push(s@));
    }
}

/// Apply the authority checks to a decision under construction.
fn collect_authority(d: &mut Decision, report: &SafetyReport, p: &Policy)
    ensures
        views_of(final(d).reasons@) == views_of(old(d).reasons@) + spec_reasons_authority(report.flags, *p),
        views_of(final(d).warnings@) == views_of(old(d).warnings@) + spec_warnings_authority(report.flags, *p),
        final(d).safe == (old(d).safe && spec_reasons_authority(report.flags, *p).len() == 0),
{
    if !report.flags.freeze_authority_none && p.require_freeze_authority_none {
        add_reason(d, "freeze_authority");
    }
    if !report.flags.mint_authority_none {
        if p.allow_mint_authority {
            add_warning(d, "mint_authority");
        } else {
            add_reason(d, "mint_authority");
        }
    }
    proof {
        assert(views_of(d.reasons@) =~= views_of(old(d).reasons@) + spec_reasons_authority(report.flags, *p));
        assert(views_of(d.warnings@) =~= views_of(old(d).warnings@) + spec_warnings_authority(report.flags, *p));
    }
}

/// Apply the extension-flag checks to a decision under construction.
#[verifier::rlimit(100)]
fn collect_ext(d: &mut Decision, report: &SafetyReport, p: &Policy, route_supports_memo: bool)
    ensures
        views_of(final(d).reasons@) == views_of(old(d).reasons@) + spec_reasons_ext(report.flags, *p, route_supports_memo),
        views_of(final(d).warnings@) == views_of(old(d).warnings@) + spec_warnings_ext(report.flags, *p),
        final(d).safe == (old(d).safe && spec_reasons_ext(report.flags, *p, route_supports_memo).len() == 0),
{
    if report.flags.non_transferable && p.forbid_non_transferable {
        add_reason(d, "non_transferable");
    }
    if report.flags.default_frozen && p.forbid_default_frozen {
        add_reason(d, "default_frozen");
    }
    if report.flags.permanent_delegate && p.forbid_permanent_delegate {
        add_reason(d, "permanent_delegate");
    }
    if report.flags.transfer_hook && p.forbid_transfer_hook {
        add_reason(d, "transfer_hook");
    }
    if report.flags.memo_required && p.forbid_memo_required_if_route_has_no_memo
        && !route_supports_memo {
        add_reason(d, "memo_required");
    }
    if report.flags.confidential && p.forbid_confidential {
        add_reason(d, "confidential");
    }
    if report.flags.mint_close_authority {
        if p.forbid_mint_close_authority {
            add_reason(d, "mint_close_authority");
        } else {
            add_warning(d, "mint_close_authority");
        }
    }
    proof {
        assert(views_of(d.reasons@) =~= views_of(old(d).reasons@) + spec_reasons_ext(report.flags, *p, route_supports_memo));
        assert(views_of(d.warnings@) =~= views_of(old(d).warnings@) + spec_warnings_ext(report.flags, *p));
    }
}

/// Apply the transfer-fee checks to a decision under construction.
fn collect_fee(d: &mut Decision, report: &SafetyReport, p: &Policy)
    ensures
        views_of(final(d).reasons@) == views_of(old(d).reasons@) + spec_reasons_fee(report.transfer_fee, *p),
        final(d).warnings@ == old(d).warnings@,
        final(d).safe == (old(d).safe && spec_reasons_fee(report.transfer_fee, *p).len() == 0),
{
    if let Some(fee) = &report.transfer_fee {
        if fee.fee_bps > p.max_fee_bps {
            add_reason(d, "transfer_fee");
        }
        if fee.max_fee > p.max_fee_absolute && p.max_fee_absolute > 0 {
            add_reason(d, "transfer_fee_max");
        }
    }
    proof {
        assert(views_of(d.reasons@) =~= views_of(old(d).reasons@) + spec_reasons_fee(
            report.transfer_fee,
            *p,
        ));
    }
}

impl Policy {
    /// Evaluate a [`SafetyReport`] into a [`Decision`]: collect the
    /// canonical reason and warning strings; the decision is safe exactly
    /// when no reason was collected.
    pub fn evaluate(&self, report: &SafetyReport, route_supports_memo: bool) -> (d: Decision)
        ensures
            views_of(d.reasons@) == spec_reasons(*report, *self, route_supports_memo),
            views_of(d.warnings@) == spec_warnings(*report, *self),
            d.safe == (spec_reasons(*report, *self, route_supports_memo).len() == 0),
    {
        let mut d = Decision::new();
        collect_authority(&mut d, report, self);
        collect_ext(&mut d, report, self, route_supports_memo);
        collect_fee(&mut d, report, self);
        proof {
            assert(views_of(d.reasons@) =~= spec_reasons(*report, *self, route_supports_memo));
            assert(views_of(d.warnings@) =~= spec_warnings(*report, *self));
        }
        d
    }
}

/// Decide whether a report is safe according to a policy and the route's
/// memo capability.
pub fn is_safe(report: &SafetyReport, policy: &Policy, route_supports_memo: bool) -> (d: Decision)
    ensures
        views_of(d.reasons@) == spec_reasons(*report, *policy, route_supports_memo),
        views_of(d.warnings@) == spec_warnings(*report, *policy),
        d.safe == (spec_reasons(*report, *policy, route_supports_memo).len() == 0),
{
    policy.evaluate(report, route_supports_memo)
}

} // verus!
