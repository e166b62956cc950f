//! Per-pool enrichment: the dedup window, the cached token-safety
//! analysis, pairing against the SOL mint, and alert-bundle assembly.

use vstd::prelude::*;
use crate::mint_reader::{MintAccount, MintError, analyze_mint as read_mint, spec_mint_base,
    spec_mint_base_valid, spec_token_2022_id, spec_token_v1_id, token_2022_id};
use crate::extensions::spec_extensions;
use crate::policy::{Policy, is_safe, spec_reasons_of, spec_warnings_of};
use crate::report::{Flags, TransferFeeInfo, spec_default_flags};
use crate::types::{AddrKey, Pubkey, TokenExtensionFlags, TokenProgramKind, TokenSafetyReport,
    spec_sol_mint, sol_mint};
use crate::util::views_of;

verus! {

#[verifier::external_type_specification]
#[verifier::external_body]
#[verifier::reject_recursive_types(K)]
#[verifier::reject_recursive_types(V)]
#[verifier::reject_recursive_types(S)]
pub struct ExLruCache<K, V, S>(lru::LruCache<K, V, S>);

/// What the dedup cache holds: pool address to the last accepted
/// wall-clock time in milliseconds.
pub uninterp spec fn spec_dedup_cache(c: lru::LruCache<AddrKey, u64>) -> Map<AddrKey, u64>;

/// The contents of an empty dedup cache.
pub open spec fn spec_no_dedup(c: lru::LruCache<AddrKey, u64>) -> bool {
    spec_dedup_cache(c) == Map::<AddrKey, u64>::empty()
}

/// Relies on `lru::LruCache::new`: a fresh cache holds nothing. A zero
/// capacity would make the `NonZeroUsize` conversion panic.
#[verifier::external_body]
pub fn dedup_cache_new(cap: usize) -> (r: lru::LruCache<AddrKey, u64>)
    requires
        cap >= 1,
    ensures
        spec_no_dedup(r),
{
    lru::LruCache::new(std::num::NonZeroUsize::new(cap).unwrap())
}

/// Relies on `lru::LruCache::get`: returns the entry at `k` and only
/// refreshes its recency, leaving the contents unchanged.
#[verifier::external_body]
fn dedup_cache_get(c: &mut lru::LruCache<AddrKey, u64>, k: &AddrKey) -> (r: Option<u64>)
    ensures
        spec_dedup_cache(*final(c)) == spec_dedup_cache(*old(c)),
        r == (if spec_dedup_cache(*old(c)).contains_key(*k) {
            Some(spec_dedup_cache(*old(c))[*k])
        } else {
            None::<u64>
        }),
{
    c.get(k).copied()
}

/// Relies on `lru::LruCache::put`: stores `v` at `k`; when the cache was
/// full and `k` absent, the least-recently-used other entry leaves.
#[verifier::external_body]
fn dedup_cache_put(c: &mut lru::LruCache<AddrKey, u64>, k: AddrKey, v: u64)
    ensures
        spec_dedup_cache(*final(c)) == spec_dedup_cache(*old(c)).insert(k, v) || (exists|j:
            AddrKey|
            j != k && spec_dedup_cache(*old(c)).contains_key(j) && spec_dedup_cache(*final(c))
                == spec_dedup_cache(*old(c)).remove(j).insert(k, v)),
{
    c.put(k, v);
}

/// Milliseconds elapsed since `then`, zero when the clock went backwards.
pub open spec fn spec_elapsed(now: u64, then: u64) -> u64 {
    if now >= then {
        (now - then) as u64
    } else {
        0u64
    }
}

/// Whether a pool seen at the times in `m` should be processed at `now`:
/// yes unless its last acceptance lies less than `ttl` ago.
pub open spec fn spec_should_process(m: Map<AddrKey, u64>, k: AddrKey, now: u64, ttl: u64) -> bool {
    !(m.contains_key(k) && spec_elapsed(now, m[k]) < ttl)
}

/// Decide whether to process a pool now, and on acceptance record the
/// time: at most one acceptance per `ttl` window.
pub fn should_process(
    cache: &mut lru::LruCache<AddrKey, u64>,
    key: Pubkey,
    now: u64,
    ttl: u64,
) -> (r: bool)
    ensures
        r == spec_should_process(spec_dedup_cache(*old(cache)), key.spec_key(), now, ttl),
        !r ==> spec_dedup_cache(*final(cache)) == spec_dedup_cache(*old(cache)),
        r ==> spec_dedup_cache(*final(cache)).contains_key(key.spec_key()) && spec_dedup_cache(
            *final(cache),
        )[key.spec_key()] == now,
        r ==> forall|j: AddrKey|
            j != key.spec_key() && #[trigger] spec_dedup_cache(*final(cache)).contains_key(j)
                ==> spec_dedup_cache(*old(cache)).contains_key(j) && spec_dedup_cache(
                *final(cache),
            )[j] == spec_dedup_cache(*old(cache))[j],
{
    let k = key.key();
    if let Some(ts) = dedup_cache_get(cache, &k) {
        let elapsed = if now >= ts {
            now - ts
        } else {
            0
        };
        if elapsed < ttl {
            return false;
        }
    }
    dedup_cache_put(cache, k, now);
    true
}

/// Dedup admits at most one acceptance per window: once a pool was
/// accepted at `t1`, every later check at `t2` within `[t1, t1 + ttl)`
/// against a cache still holding that record is rejected.
pub proof fn lemma_dedup_window(m: Map<AddrKey, u64>, k: AddrKey, t1: u64, t2: u64, ttl: u64)
    requires
        m.contains_key(k),
        m[k] == t1,
        t1 <= t2,
        t2 - t1 < ttl,
    ensures
        !spec_should_process(m, k, t2, ttl),
{
}

/// What the mint cache holds: mint address to its cached safety report.
pub uninterp spec fn spec_mint_cache(c: lru::LruCache<AddrKey, TokenSafetyReport>) -> Map<
    AddrKey,
    TokenSafetyReport,
>;

/// The contents of an empty mint cache.
pub open spec fn spec_no_mint_cache(c: lru::LruCache<AddrKey, TokenSafetyReport>) -> bool {
    spec_mint_cache(c) == Map::<AddrKey, TokenSafetyReport>::empty()
}

/// Relies on `lru::LruCache::new`: a fresh cache holds nothing. A zero
/// capacity would make the `NonZeroUsize` conversion panic.
#[verifier::external_body]
pub fn mint_cache_new(cap: usize) -> (r: lru::LruCache<AddrKey, TokenSafetyReport>)
    requires
        cap >= 1,
    ensures
        spec_no_mint_cache(r),
{
    lru::LruCache::new(std::num::NonZeroUsize::new(cap).unwrap())
}

/// Relies on `lru::LruCache::get`: returns a clone of the entry at `k`
/// and only refreshes its recency, leaving the contents unchanged.
#[verifier::external_body]
fn mint_cache_get(c: &mut lru::LruCache<AddrKey, TokenSafetyReport>, k: &AddrKey) -> (r: Option<
    TokenSafetyReport,
>)
    ensures
        spec_mint_cache(*final(c)) == spec_mint_cache(*old(c)),
        r == (if spec_mint_cache(*old(c)).contains_key(*k) {
            Some(spec_mint_cache(*old(c))[*k])
        } else {
            None::<TokenSafetyReport>
        }),
{
    c.get(k).cloned()
}

/// Relies on `lru::LruCache::put` and the derived field-wise clone of
/// the report: stores a copy of `v` at `k`; when the cache was full and
/// `k` absent, the least-recently-used other entry leaves.
#[verifier::external_body]
fn mint_cache_put(c: &mut lru::LruCache<AddrKey, TokenSafetyReport>, k: AddrKey, v: &TokenSafetyReport)
    ensures
        spec_mint_cache(*final(c)) == spec_mint_cache(*old(c)).insert(k, *v) || (exists|j: AddrKey|
            j != k && spec_mint_cache(*old(c)).contains_key(j) && spec_mint_cache(*final(c))
                == spec_mint_cache(*old(c)).remove(j).insert(k, *v)),
{
    c.put(k, v.clone());
}

/// Fetching a mint account or the epoch failed after the caller's retry
/// budget.
#[derive(Clone, Copy, PartialEq, Eq, Structural, Debug)]
pub struct FetchError;

/// Why an analysis failed: the fetch, or a malformed mint account.
#[derive(Clone, Copy, PartialEq, Eq, Structural, Debug)]
pub enum AnalyzeError {
    Fetch(FetchError),
    Mint(MintError),
}

/// Capability for fetching mint accounts and the current epoch; an
/// RPC-backed implementation is injected by the application and test
/// doubles stand in for it. Nothing is assumed of an implementation.
pub trait MintFetcher {
    fn get_account(&self, mint: &Pubkey) -> Result<MintAccount, FetchError>;

    fn get_epoch(&self) -> Result<u64, FetchError>;
}

pub open spec fn spec_pow2(n: int) -> int
    decreases n,
{
    if n <= 0 {
        1
    } else {
        2 * spec_pow2(n - 1)
    }
}

/// The account-fetch backoff schedule: five attempts, the delay starting
/// at 200 ms and doubling. After `attempt` failures (zero-based), the
/// milliseconds to wait before the next try, or `None` when the attempt
/// budget is spent and the failure surfaces.
pub fn retry_backoff_ms(attempt: usize) -> (r: Option<u64>)
    ensures
        attempt < 4 ==> r == Some((200 * spec_pow2(attempt as int)) as u64),
        attempt >= 4 ==> r is None,
{
    proof {
        assert(spec_pow2(0) == 1);
        assert(spec_pow2(1) == 2);
        assert(spec_pow2(2) == 4);
        assert(spec_pow2(3) == 8);
    }
    match attempt {
        0 => Some(200),
        1 => Some(400),
        2 => Some(800),
        3 => Some(1600),
        _ => None,
    }
}

/// The extension-flag bag of an alert report, carried over from the
/// analyzed flags and transfer fee.
pub open spec fn spec_map_flags(fl: Flags, tf: Option<TransferFeeInfo>) -> TokenExtensionFlags {
    TokenExtensionFlags {
        non_transferable: fl.non_transferable,
        default_frozen: fl.default_frozen,
        permanent_delegate: fl.permanent_delegate,
        transfer_hook: fl.transfer_hook,
        memo_required: fl.memo_required,
        confidential: fl.confidential,
        mint_close_authority: fl.mint_close_authority,
        transfer_fee_bps: match tf {
            Some(f) => Some(f.fee_bps),
            None => None,
        },
        transfer_fee_max: match tf {
            Some(f) => Some(f.max_fee),
            None => None,
        },
    }
}

/// The analyzed flags of a mint account: the authority tags of the fixed
/// layout, and for Token-2022 the extension flags of the TLV region.
pub open spec fn spec_analyzed_flags(owner: Pubkey, data: Seq<u8>) -> Flags {
    if owner == spec_token_v1_id() {
        Flags {
            mint_authority_none: spec_mint_base(data).mint_authority_none,
            freeze_authority_none: spec_mint_base(data).freeze_authority_none,
            ..spec_default_flags()
        }
    } else if owner == spec_token_2022_id() {
        Flags {
            mint_authority_none: spec_mint_base(data).mint_authority_none,
            freeze_authority_none: spec_mint_base(data).freeze_authority_none,
            ..spec_extensions(data).flags
        }
    } else {
        Flags { mint_authority_none: true, freeze_authority_none: true, ..spec_default_flags() }
    }
}

/// The transfer fee of an analyzed mint: only Token-2022 mints carry one.
pub open spec fn spec_analyzed_fee(owner: Pubkey, data: Seq<u8>) -> Option<TransferFeeInfo> {
    if owner != spec_token_v1_id() && owner == spec_token_2022_id() {
        spec_extensions(data).fee
    } else {
        None
    }
}

/// An analysis of `acc` succeeds: the two token programs demand a valid
/// fixed mint layout, any other owner is taken as-is.
pub open spec fn spec_analyze_ok(acc: MintAccount) -> bool {
    (acc.owner == spec_token_v1_id() || acc.owner == spec_token_2022_id())
        ==> spec_mint_base_valid(acc.data@)
}

/// `rep` is the report that analyzing `acc` under `policy` yields: the
/// owning program kind, the fixed-layout fields, the extension flags, and
/// the policy verdict with its canonical reason and warning strings.
pub open spec fn spec_analyzed_report(
    acc: MintAccount,
    policy: Policy,
    route_supports_memo: bool,
    rep: TokenSafetyReport,
) -> bool {
    let fl = spec_analyzed_flags(acc.owner, acc.data@);
    let tf = spec_analyzed_fee(acc.owner, acc.data@);
    let valid = spec_mint_base_valid(acc.data@);
    &&& rep.mint == Pubkey { w0: 0u64, w1: 0u64, w2: 0u64, w3: 0u64 }
    &&& rep.program == (if acc.owner == spec_token_v1_id() {
        TokenProgramKind::TokenV1
    } else if acc.owner == spec_token_2022_id() {
        TokenProgramKind::Token2022
    } else {
        TokenProgramKind::Other(acc.owner)
    })
    &&& rep.decimals == (if valid {
        spec_mint_base(acc.data@).decimals
    } else {
        0u8
    })
    &&& rep.supply == (if valid {
        spec_mint_base(acc.data@).supply
    } else {
        0u64
    })
    &&& rep.mint_authority_none == fl.mint_authority_none
    &&& rep.freeze_authority_none == fl.freeze_authority_none
    &&& rep.flags == spec_map_flags(fl, tf)
    &&& rep.decision_safe == (spec_reasons_of(fl, tf, policy, route_supports_memo).len() == 0)
    &&& views_of(rep.reasons@) == spec_reasons_of(fl, tf, policy, route_supports_memo)
    &&& views_of(rep.warnings@) == spec_warnings_of(fl, policy)
}

/// Analyze an already-fetched mint account under `policy` into an alert
/// report.
pub fn analyze_mint_account(
    acc: &MintAccount,
    now_epoch: u64,
    probe_amount: u64,
    route_supports_memo: bool,
    policy: &Policy,
) -> (r: Result<TokenSafetyReport, MintError>)
    ensures
        r is Ok <==> spec_analyze_ok(*acc),
        r matches Ok(rep) ==> spec_analyzed_report(*acc, *policy, route_supports_memo, rep),
        r is Err ==> acc.owner == spec_token_v1_id() && r == Err::<TokenSafetyReport, MintError>(
            MintError::InvalidTokenV1Mint,
        ) || acc.owner == spec_token_2022_id() && r == Err::<TokenSafetyReport, MintError>(
            MintError::InvalidToken2022Mint,
        ),
{
    let ts_report = match read_mint(acc, now_epoch, probe_amount) {
        Ok(t) => t,
        Err(e) => {
            return Err(e);
        },
    };
    let decision = is_safe(&ts_report, policy, route_supports_memo);
    let flags = TokenExtensionFlags {
        non_transferable: ts_report.flags.non_transferable,
        default_frozen: ts_report.flags.default_frozen,
        permanent_delegate: ts_report.flags.permanent_delegate,
        transfer_hook: ts_report.flags.transfer_hook,
        memo_required: ts_report.flags.memo_required,
        confidential: ts_report.flags.confidential,
        mint_close_authority: ts_report.flags.mint_close_authority,
        transfer_fee_bps: match &ts_report.transfer_fee {
            Some(f) => Some(f.fee_bps),
            None => None,
        },
        transfer_fee_max: match &ts_report.transfer_fee {
            Some(f) => Some(f.max_fee),
            None => None,
        },
    };
    let program = match ts_report.program_owner {
        crate::report::ProgramOwner::TokenV1 => TokenProgramKind::TokenV1,
        crate::report::ProgramOwner::Token2022 => TokenProgramKind::Token2022,
        crate::report::ProgramOwner::Other => TokenProgramKind::Other(acc.owner),
    };
    Ok(
        TokenSafetyReport {
            mint: ts_report.mint,
            program,
            decimals: ts_report.decimals,
            supply: ts_report.supply,
            mint_authority_none: ts_report.flags.mint_authority_none,
            freeze_authority_none: ts_report.flags.freeze_authority_none,
            flags,
            decision_safe: decision.safe,
            reasons: decision.reasons,
            warnings: decision.warnings,
        },
    )
}

/// Fetch a mint account through the injected fetcher and analyze it.
/// What the fetcher returns is outside this crate's control, so the
/// contract promises the analysis relation for whatever account came
/// back; [`analyze_mint_account`] pins the analysis itself down.
pub fn analyze_mint<F: MintFetcher>(
    rpc: &F,
    mint: &Pubkey,
    now_epoch: u64,
    probe_amount: u64,
    route_supports_memo: bool,
    policy: &Policy,
) -> (r: Result<TokenSafetyReport, AnalyzeError>)
    ensures
        r matches Ok(rep) ==> exists|acc: MintAccount|
            spec_analyze_ok(acc) && #[trigger] spec_analyzed_report(
                acc,
                *policy,
                route_supports_memo,
                rep,
            ),
{
    let acc = match rpc.get_account(mint) {
        Ok(a) => a,
        Err(e) => {
            return Err(AnalyzeError::Fetch(e));
        },
    };
    match analyze_mint_account(&acc, now_epoch, probe_amount, route_supports_memo, policy) {
        Ok(rep) => {
            proof {
                assert(spec_analyze_ok(acc) && spec_analyzed_report(
                    acc,
                    *policy,
                    route_supports_memo,
                    rep,
                ));
            }
            Ok(rep)
        },
        Err(e) => Err(AnalyzeError::Mint(e)),
    }
}

/// Analyze a mint with memoization: a cached report is returned without
/// a fetch; a fresh analysis is stored before it is returned. The second
/// component tells whether an analysis actually ran.
pub fn analyze_mint_cached<F: MintFetcher>(
    cache: &mut lru::LruCache<AddrKey, TokenSafetyReport>,
    rpc: &F,
    mint: &Pubkey,
    now_epoch: u64,
    probe_amount: u64,
    route_supports_memo: bool,
    policy: &Policy,
) -> (r: Result<(TokenSafetyReport, bool), AnalyzeError>)
    ensures
        spec_mint_cache(*old(cache)).contains_key(mint.spec_key()) ==> r == Ok::<
            (TokenSafetyReport, bool),
            AnalyzeError,
        >((spec_mint_cache(*old(cache))[mint.spec_key()], false)) && spec_mint_cache(
            *final(cache),
        ) == spec_mint_cache(*old(cache)),
        r matches Ok((rep, ran)) ==> ran == !spec_mint_cache(*old(cache)).contains_key(
            mint.spec_key(),
        ),
        r matches Ok((rep, ran)) ==> (ran ==> spec_mint_cache(*final(cache)).contains_key(
            mint.spec_key(),
        ) && spec_mint_cache(*final(cache))[mint.spec_key()] == rep && (exists|acc: MintAccount|
            spec_analyze_ok(acc) && #[trigger] spec_analyzed_report(
                acc,
                *policy,
                route_supports_memo,
                rep,
            ))),
        r is Err ==> spec_mint_cache(*final(cache)) == spec_mint_cache(*old(cache)),
{
    let k = mint.key();
    if let Some(rep) = mint_cache_get(cache, &k) {
        return Ok((rep, false));
    }
    match analyze_mint(rpc, mint, now_epoch, probe_amount, route_supports_memo, policy) {
        Ok(rep) => {
            mint_cache_put(cache, k, &rep);
            proof {
                assert(spec_mint_cache(*cache).contains_key(k) && spec_mint_cache(*cache)[k]
                    == rep);
            }
            Ok((rep, true))
        },
        Err(e) => Err(e),
    }
}

/// The mint cache runs the analysis at most once per mint: once a report
/// for a mint is stored, it stays stored under later stores of other
/// mints, so a later lookup of the same mint is served from the cache.
pub proof fn lemma_mint_cache_once(
    m0: Map<AddrKey, TokenSafetyReport>,
    m1: Map<AddrKey, TokenSafetyReport>,
    k: AddrKey,
    k2: AddrKey,
    v: TokenSafetyReport,
)
    requires
        m0.contains_key(k),
        k2 != k,
        m1 == m0.insert(k2, v) || (exists|j: AddrKey|
            j != k2 && j != k && m0.contains_key(j) && m1 == m0.remove(j).insert(k2, v)),
    ensures
        m1.contains_key(k),
        m1[k] == m0[k],
{
}

/// If one side of the pair is the SOL mint, the other side and whether it
/// sits on side A; `None` when neither side is SOL.
pub open spec fn spec_sol_pair(mint_a: Pubkey, mint_b: Pubkey) -> Option<(Pubkey, bool)> {
    if mint_a == spec_sol_mint() {
        Some((mint_b, false))
    } else if mint_b == spec_sol_mint() {
        Some((mint_a, true))
    } else {
        None
    }
}

/// Detect a SOL pairing: returns the non-SOL mint and whether it is on
/// side A.
pub fn sol_pair(mint_a: Pubkey, mint_b: Pubkey) -> (r: Option<(Pubkey, bool)>)
    ensures
        r == spec_sol_pair(mint_a, mint_b),
{
    let sol = sol_mint();
    if mint_a == sol {
        Some((mint_b, false))
    } else if mint_b == sol {
        Some((mint_a, true))
    } else {
        None
    }
}

/// The fixed report used for the SOL side of a pair: the wrapped-SOL
/// mint, legacy token program, 9 decimals, no authorities, and a safe
/// verdict with no findings.
pub fn sol_report() -> (r: TokenSafetyReport)
    ensures
        r.mint == spec_sol_mint(),
        r.program is TokenV1,
        r.decimals == 9,
        r.supply == 0,
        r.mint_authority_none,
        r.freeze_authority_none,
        r.flags == crate::types::spec_default_token_flags(),
        r.decision_safe,
        r.reasons@.len() == 0,
        r.warnings@.len() == 0,
{
    TokenSafetyReport {
        mint: sol_mint(),
        program: TokenProgramKind::TokenV1,
        decimals: 9,
        supply: 0,
        mint_authority_none: true,
        freeze_authority_none: true,
        flags: TokenExtensionFlags::default(),
        decision_safe: true,
        reasons: Vec::new(),
        warnings: Vec::new(),
    }
}


/// The reports and decimals arranged onto the pair's sides: the SOL side
/// carries the fixed SOL report and nine decimals, the other side its
/// analyzed report.
pub fn arrange_pair_reports(rep_non_sol: TokenSafetyReport, non_sol_is_a: bool) -> (r: (
    TokenSafetyReport,
    TokenSafetyReport,
    u8,
    u8,
))
    ensures
        non_sol_is_a ==> r.0 == rep_non_sol && r.1.mint == spec_sol_mint() && r.1.decision_safe
            && r.2 == rep_non_sol.decimals && r.3 == 9u8,
        !non_sol_is_a ==> r.1 == rep_non_sol && r.0.mint == spec_sol_mint() && r.0.decision_safe
            && r.2 == 9u8 && r.3 == rep_non_sol.decimals,
{
    let rep_sol = sol_report();
    let decimals = rep_non_sol.decimals;
    if non_sol_is_a {
        (rep_non_sol, rep_sol, decimals, 9)
    } else {
        (rep_sol, rep_non_sol, 9, decimals)
    }
}

/// Assemble the alert core from the pair's reports and the decoded pool
/// metadata, stamped with the wall-clock time.
pub fn assemble_bundle(
    pool: Pubkey,
    program: Pubkey,
    token_a: TokenSafetyReport,
    token_b: TokenSafetyReport,
    fee_bps: Option<u16>,
    tick_spacing: Option<u16>,
    ts_ms: u64,
) -> (r: crate::types::PoolTokenBundle)
    ensures
        r.pool == pool,
        r.program == program,
        r.token_a == token_a,
        r.token_b == token_b,
        r.fee_bps == fee_bps,
        r.tick_spacing == tick_spacing,
        r.ts_ms == ts_ms,
{
    crate::types::PoolTokenBundle { pool, program, token_a, token_b, fee_bps, tick_spacing, ts_ms }
}


/// Token introspection backed by a mint fetcher: a mint is Token-2022
/// exactly when its account is owned by the Token-2022 program. What the
/// fetcher returns is outside this crate's control, so the verdict is
/// promised only relative to whatever account came back.
pub struct TokenSafetyProvider<F: MintFetcher> {
    pub rpc: F,
}

impl<F: MintFetcher> TokenSafetyProvider<F> {
    pub fn new(rpc: F) -> (r: TokenSafetyProvider<F>)
        ensures
            r.rpc == rpc,
    {
        TokenSafetyProvider { rpc }
    }
}

impl<F: MintFetcher> crate::decoders::TokenIntrospectionProvider for TokenSafetyProvider<F> {
    fn is_token2022(&self, mint: &Pubkey) -> (r: Result<
        bool,
        crate::decoders::TokenLookupError,
    >)
        ensures
            r matches Ok(b) ==> exists|acc: MintAccount|
                b == (#[trigger] acc.owner == spec_token_2022_id()),
    {
        let acc = match self.rpc.get_account(mint) {
            Ok(a) => a,
            Err(_) => {
                return Err(crate::decoders::TokenLookupError);
            },
        };
        let b = acc.owner == token_2022_id();
        proof {
            assert(b == (acc.owner == spec_token_2022_id()));
        }
        Ok(b)
    }
}

} // verus!
