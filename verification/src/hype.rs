//! Rolling per-pool "hype" aggregation: fixed-width time buckets of swap,
//! buy/sell and liquidity counters with the distinct traders seen, evicted
//! past a 300-second horizon, and windowed snapshots over them. The
//! floating-point ratio and score are derived from a snapshot's counters
//! by the caller.

use vstd::prelude::*;
use crate::types::Pubkey;
use crate::util::{contains_ci, spec_contains_ci, views_of};

verus! {

/// A log event attributed to a pool, as handed to the aggregator.
#[derive(Clone, Debug)]
pub struct PoolLogEvent {
    pub program: Pubkey,
    pub pool: Pubkey,
    pub signature: String,
    pub slot: u64,
    pub logs: Vec<String>,
    pub ts_ms: u64,
    pub trader: Option<Pubkey>,
}

/// Aggregation windows: bucket width and the short and long horizons, in
/// seconds. The score weights live beside the score computation, outside
/// the aggregator.
#[derive(Clone, Copy, PartialEq, Eq, Structural, Debug)]
pub struct HypeConfig {
    pub bucket_secs: u64,
    pub window60s: u64,
    pub window300s: u64,
}

pub fn default_bucket_secs() -> (r: u64)
    ensures
        r == 10,
{
    10
}

pub fn default_window60s() -> (r: u64)
    ensures
        r == 60,
{
    60
}

pub fn default_window300s() -> (r: u64)
    ensures
        r == 300,
{
    300
}

impl HypeConfig {
    /// Widths small enough that millisecond conversions cannot overflow.
    pub open spec fn wf(self) -> bool {
        1 <= self.bucket_secs <= 86_400 && self.window300s <= 1_000_000 && self.window60s
            <= 1_000_000
    }
}

impl Default for HypeConfig {
    fn default() -> (r: HypeConfig)
        ensures
            r == (HypeConfig { bucket_secs: 10u64, window60s: 60u64, window300s: 300u64 }),
            r.wf(),
    {
        HypeConfig { bucket_secs: default_bucket_secs(), window60s: default_window60s(), window300s: default_window300s() }
    }
}

/// One time bucket of counters, plus the distinct traders seen in it.
#[derive(Clone, Debug)]
pub struct Bucket {
    pub swaps: u32,
    pub buys: u32,
    pub sells: u32,
    pub uniques: Vec<Pubkey>,
    pub lp_adds: i32,
    pub lp_rems: i32,
}

/// The mathematical content of a bucket.
#[verifier::ext_equal]
pub struct BucketView {
    pub swaps: u32,
    pub buys: u32,
    pub sells: u32,
    pub uniques: Seq<Pubkey>,
    pub lp_adds: i32,
    pub lp_rems: i32,
}

impl View for Bucket {
    type V = BucketView;

    open spec fn view(&self) -> BucketView {
        BucketView {
            swaps: self.swaps,
            buys: self.buys,
            sells: self.sells,
            uniques: self.uniques@,
            lp_adds: self.lp_adds,
            lp_rems: self.lp_rems,
        }
    }
}

/// An empty bucket.
pub open spec fn spec_empty_bucket() -> BucketView {
    BucketView {
        swaps: 0u32,
        buys: 0u32,
        sells: 0u32,
        uniques: Seq::<Pubkey>::empty(),
        lp_adds: 0i32,
        lp_rems: 0i32,
    }
}

impl Bucket {
    pub fn new() -> (r: Bucket)
        ensures
            r@ == spec_empty_bucket(),
    {
        let r = Bucket { swaps: 0, buys: 0, sells: 0, uniques: Vec::new(), lp_adds: 0, lp_rems: 0 };
        proof {
            assert(r@ =~= spec_empty_bucket());
        }
        r
    }
}

/// A pool's series of buckets, oldest first.
pub struct PoolSeries {
    pub buckets: Vec<(u64, Bucket)>,
}

/// The mathematical content of a series: timestamped bucket views,
/// oldest first.
pub open spec fn series_view(s: PoolSeries) -> Seq<(u64, BucketView)> {
    s.buckets@.map_values(|p: (u64, Bucket)| (p.0, p.1@))
}

/// What one event's logs say, classified by case-insensitive keyword
/// search: swap, buy, sell, liquidity-add and liquidity-remove.
pub open spec fn spec_any_ci(logs: Seq<Seq<char>>, pat: Seq<char>) -> bool {
    exists|k: int| 0 <= k < logs.len() && spec_contains_ci(#[trigger] logs[k], pat)
}

/// The five classification flags of a log batch: swap, buy, sell,
/// liquidity added, liquidity removed.
pub open spec fn spec_classify(logs: Seq<Seq<char>>) -> (bool, bool, bool, bool, bool) {
    (
        spec_any_ci(logs, "swap"@),
        spec_any_ci(logs, "buy "@),
        spec_any_ci(logs, "sell "@),
        spec_any_ci(logs, "increase liquidity"@) || spec_any_ci(logs, "add liquidity"@),
        spec_any_ci(logs, "decrease liquidity"@) || spec_any_ci(logs, "remove liquidity"@),
    )
}

/// Classify a batch of log lines: does any line mention a swap, a buy, a
/// sell, adding liquidity, removing liquidity? Matching is
/// case-insensitive substring search.
pub fn classify(logs: &[String]) -> (r: (bool, bool, bool, bool, bool))
    ensures
        r == spec_classify(views_of(logs@)),
{
    let ghost lv = views_of(logs@);
    let mut is_swap = false;
    let mut is_buy = false;
    let mut is_sell = false;
    let mut lp_add = false;
    let mut lp_rem = false;
    let n = logs.len();
    let mut i: usize = 0;
    while i < n
        invariant
            n == logs@.len(),
            lv == views_of(logs@),
            lv.len() == n,
            i <= n,
            is_swap == exists|k: int| 0 <= k < i && spec_contains_ci(#[trigger] lv[k], "swap"@),
            is_buy == exists|k: int| 0 <= k < i && spec_contains_ci(#[trigger] lv[k], "buy "@),
            is_sell == exists|k: int| 0 <= k < i && spec_contains_ci(#[trigger] lv[k], "sell "@),
            lp_add == exists|k: int|
                0 <= k < i && (spec_contains_ci(#[trigger] lv[k], "increase liquidity"@)
                    || spec_contains_ci(lv[k], "add liquidity"@)),
            lp_rem == exists|k: int|
                0 <= k < i && (spec_contains_ci(#[trigger] lv[k], "decrease liquidity"@)
                    || spec_contains_ci(lv[k], "remove liquidity"@)),
        decreases n - i,
    {
        let ghost ii = i as int;
        let l: &String = &logs[i];
        proof {
            assert(lv[ii] == l@);
        }
        if contains_ci(l.as_str(), "swap") {
            is_swap = true;
        }
        if contains_ci(l.as_str(), "increase liquidity") || contains_ci(
            l.as_str(),
            "add liquidity",
        ) {
            lp_add = true;
        }
        if contains_ci(l.as_str(), "decrease liquidity") || contains_ci(
            l.as_str(),
            "remove liquidity",
        ) {
            lp_rem = true;
        }
        if contains_ci(l.as_str(), "buy ") {
            is_buy = true;
        }
        if contains_ci(l.as_str(), "sell ") {
            is_sell = true;
        }
        i = i + 1;
    }
    (is_swap, is_buy, is_sell, lp_add, lp_rem)
}

/// `x + 1` held at the numeric ceiling.
pub open spec fn spec_inc_u32(x: u32, b: bool) -> u32 {
    if b {
        if x == u32::MAX {
            x
        } else {
            (x + 1) as u32
        }
    } else {
        x
    }
}

pub open spec fn spec_inc_i32(x: i32, b: bool) -> i32 {
    if b {
        if x == i32::MAX {
            x
        } else {
            (x + 1) as i32
        }
    } else {
        x
    }
}

fn inc_u32(x: u32, b: bool) -> (r: u32)
    ensures
        r == spec_inc_u32(x, b),
{
    if b && x < u32::MAX {
        x + 1
    } else {
        x
    }
}

fn inc_i32(x: i32, b: bool) -> (r: i32)
    ensures
        r == spec_inc_i32(x, b),
{
    if b && x < i32::MAX {
        x + 1
    } else {
        x
    }
}

/// The bucket timestamp of an event: its time rounded down to a bucket
/// boundary.
pub open spec fn spec_bucket_ts(ts_ms: u64, cfg: HypeConfig) -> u64 {
    ((ts_ms as int / (cfg.bucket_secs * 1000)) * (cfg.bucket_secs * 1000)) as u64
}

/// The eviction horizon in milliseconds.
pub open spec fn spec_horizon_ms(cfg: HypeConfig) -> u64 {
    (cfg.window300s * 1000) as u64
}

/// Drop front buckets that lie more than `horizon` before `bucket_ts`.
pub open spec fn spec_evict(s: Seq<(u64, BucketView)>, bucket_ts: u64, horizon: u64) -> Seq<
    (u64, BucketView),
>
    decreases s.len(),
{
    if s.len() == 0 {
        s
    } else {
        let age = if bucket_ts >= s[0].0 {
            bucket_ts - s[0].0
        } else {
            0
        };
        if age > horizon {
            spec_evict(s.drop_first(), bucket_ts, horizon)
        } else {
            s
        }
    }
}

/// Append an empty bucket unless the newest one already has this
/// timestamp.
pub open spec fn spec_arm(s: Seq<(u64, BucketView)>, bucket_ts: u64) -> Seq<(u64, BucketView)> {
    if s.len() > 0 && s.last().0 == bucket_ts {
        s
    } else {
        s.push((bucket_ts, spec_empty_bucket()))
    }
}

/// Apply one classified event to the newest bucket: bump the matched
/// counters (held at their ceiling) and record an unseen trader.
pub open spec fn spec_apply(
    s: Seq<(u64, BucketView)>,
    flags: (bool, bool, bool, bool, bool),
    trader: Option<Pubkey>,
) -> Seq<(u64, BucketView)> {
    let (ts, b) = s.last();
    let uniques = match trader {
        Some(t) => if b.uniques.contains(t) {
            b.uniques
        } else {
            b.uniques.push(t)
        },
        None => b.uniques,
    };
    s.update(
        s.len() - 1,
        (
            ts,
            BucketView {
                swaps: spec_inc_u32(b.swaps, flags.0),
                buys: spec_inc_u32(b.buys, flags.1),
                sells: spec_inc_u32(b.sells, flags.2),
                uniques,
                lp_adds: spec_inc_i32(b.lp_adds, flags.3),
                lp_rems: spec_inc_i32(b.lp_rems, flags.4),
            },
        ),
    )
}

/// The series after ingesting one event: evict old buckets, open the
/// event's bucket if needed, and apply the classified counters.
pub open spec fn spec_ingest_series(
    s: Seq<(u64, BucketView)>,
    ev: PoolLogEvent,
    cfg: HypeConfig,
) -> Seq<(u64, BucketView)> {
    let bts = spec_bucket_ts(ev.ts_ms, cfg);
    spec_apply(
        spec_arm(spec_evict(s, bts, spec_horizon_ms(cfg)), bts),
        spec_classify(views_of(ev.logs@)),
        ev.trader,
    )
}

/// Rolling aggregator over every pool's bucket series.
pub struct HypeAggregator {
    pub cfg: HypeConfig,
    pub pools: Vec<(Pubkey, PoolSeries)>,
}

impl HypeAggregator {
    /// The per-pool series, as an association list, oldest entries first.
    pub open spec fn pools_view(self) -> Seq<(Pubkey, Seq<(u64, BucketView)>)> {
        self.pools@.map_values(|p: (Pubkey, PoolSeries)| (p.0, series_view(p.1)))
    }

    pub open spec fn wf(self) -> bool {
        self.cfg.wf()
    }

    pub fn new(cfg: HypeConfig) -> (r: HypeAggregator)
        requires
            cfg.wf(),
        ensures
            r.wf(),
            r.cfg == cfg,
            r.pools_view() =~= Seq::<(Pubkey, Seq<(u64, BucketView)>)>::empty(),
    {
        let r = HypeAggregator { cfg, pools: Vec::new() };
        proof {
            assert(r.pools_view() =~= Seq::<(Pubkey, Seq<(u64, BucketView)>)>::empty());
        }
        r
    }
}

/// The series of `pool` in an association list, if present: the first
/// entry under that key.
pub open spec fn spec_find_series(
    pools: Seq<(Pubkey, Seq<(u64, BucketView)>)>,
    pool: Pubkey,
) -> Option<Seq<(u64, BucketView)>>
    decreases pools.len(),
{
    if pools.len() == 0 {
        None
    } else if pools[0].0 == pool {
        Some(pools[0].1)
    } else {
        spec_find_series(pools.drop_first(), pool)
    }
}


/// Membership scan over a bucket's trader list.
fn vec_contains(v: &Vec<Pubkey>, x: &Pubkey) -> (r: bool)
    ensures
        r == v@.contains(*x),
{
    let n = v.len();
    let mut i: usize = 0;
    while i < n
        invariant
            n == v@.len(),
            i <= n,
            forall|k: int| 0 <= k < i ==> v@[k] != *x,
        decreases n - i,
    {
        if v[i].w0 == x.w0 && v[i].w1 == x.w1 && v[i].w2 == x.w2 && v[i].w3 == x.w3 {
            proof {
                assert(v@[i as int] == *x);
            }
            return true;
        }
        i = i + 1;
    }
    false
}

/// Ingest one event into a single series.
fn ingest_series(series: &mut PoolSeries, ev: &PoolLogEvent, cfg: HypeConfig)
    requires
        cfg.wf(),
    ensures
        series_view(*final(series)) == spec_ingest_series(series_view(*old(series)), *ev, cfg),
{
    let width: u64 = cfg.bucket_secs * 1000;
    let q: u64 = ev.ts_ms / width;
    proof {
        assert(q * width <= ev.ts_ms) by (nonlinear_arith)
            requires
                width >= 1,
                q == ev.ts_ms / width,
        ;
    }
    let bucket_ts: u64 = q * width;
    let horizon: u64 = cfg.window300s * 1000;
    proof {
        assert(bucket_ts == spec_bucket_ts(ev.ts_ms, cfg));
        assert(horizon == spec_horizon_ms(cfg));
    }
    let ghost orig = series_view(*series);

    loop
        invariant_except_break
            spec_evict(orig, bucket_ts, horizon) == spec_evict(
                series_view(*series),
                bucket_ts,
                horizon,
            ),
        ensures
            series_view(*series) == spec_evict(orig, bucket_ts, horizon),
        decreases series.buckets@.len(),
    {
        let ghost cur = series_view(*series);
        if series.buckets.len() == 0 {
            proof {
                assert(spec_evict(cur, bucket_ts, horizon) == cur);
            }
            break;
        }
        let front_ts = series.buckets[0].0;
        proof {
            assert(cur[0].0 == front_ts);
        }
        let age: u64 = if bucket_ts >= front_ts {
            bucket_ts - front_ts
        } else {
            0
        };
        if age <= horizon {
            proof {
                assert(spec_evict(cur, bucket_ts, horizon) == cur);
            }
            break;
        }
        series.buckets.remove(0);
        proof {
            assert(series_view(*series) =~= cur.drop_first());
            assert(spec_evict(cur, bucket_ts, horizon) == spec_evict(
                cur.drop_first(),
                bucket_ts,
                horizon,
            ));
        }
    }

    let ghost evicted = series_view(*series);
    let len0 = series.buckets.len();
    let mut need_push = true;
    if len0 > 0 {
        if series.buckets[len0 - 1].0 == bucket_ts {
            need_push = false;
        }
    }
    if need_push {
        series.buckets.push((bucket_ts, Bucket::new()));
    }
    proof {
        assert(series_view(*series) =~= spec_arm(evicted, bucket_ts));
    }

    let ghost armed = series_view(*series);
    let flags = classify(ev.logs.as_slice());
    let popped = series.buckets.pop();
    let (ts, mut b) = match popped {
        Some(p) => p,
        None => (0u64, Bucket::new()),
    };
    proof {
        assert(armed.len() > 0);
        assert((ts, b@) == armed.last());
    }
    b.swaps = inc_u32(b.swaps, flags.0);
    b.buys = inc_u32(b.buys, flags.1);
    b.sells = inc_u32(b.sells, flags.2);
    b.lp_adds = inc_i32(b.lp_adds, flags.3);
    b.lp_rems = inc_i32(b.lp_rems, flags.4);
    if let Some(t) = &ev.trader {
        if !vec_contains(&b.uniques, t) {
            b.uniques.push(*t);
        }
    }
    series.buckets.push((ts, b));
    proof {
        assert(series_view(*series) =~= spec_apply(
            armed,
            spec_classify(views_of(ev.logs@)),
            ev.trader,
        ));
    }
}

/// `pools` holds an entry for `pool`.
pub open spec fn spec_has_pool(pools: Seq<(Pubkey, Seq<(u64, BucketView)>)>, pool: Pubkey) -> bool {
    exists|j: int| 0 <= j < pools.len() && pools[j].0 == pool
}

/// Looking a key up after an entry of another key was replaced finds what
/// it found before.
proof fn lemma_find_after_update(
    s: Seq<(Pubkey, Seq<(u64, BucketView)>)>,
    i: int,
    v: Seq<(u64, BucketView)>,
    q: Pubkey,
)
    requires
        0 <= i < s.len(),
        q != s[i].0,
    ensures
        spec_find_series(s.update(i, (s[i].0, v)), q) == spec_find_series(s, q),
    decreases s.len(),
{
    let s2 = s.update(i, (s[i].0, v));
    if i == 0 {
        assert(s2.drop_first() =~= s.drop_first());
    } else {
        assert(s2[0] == s[0]);
        if s[0].0 != q {
            assert(s2.drop_first() =~= s.drop_first().update(i - 1, (s[i].0, v)));
            lemma_find_after_update(s.drop_first(), i - 1, v, q);
        }
    }
}

/// Replacing the first entry of a key makes lookups of that key find the
/// new series.
proof fn lemma_find_at_update(
    s: Seq<(Pubkey, Seq<(u64, BucketView)>)>,
    i: int,
    v: Seq<(u64, BucketView)>,
)
    requires
        0 <= i < s.len(),
        forall|j: int| 0 <= j < i ==> s[j].0 != s[i].0,
    ensures
        spec_find_series(s.update(i, (s[i].0, v)), s[i].0) == Some(v),
    decreases s.len(),
{
    let s2 = s.update(i, (s[i].0, v));
    if i == 0 {
    } else {
        assert(s2[0] == s[0]);
        assert(s2.drop_first() =~= s.drop_first().update(i - 1, (s[i].0, v)));
        lemma_find_at_update(s.drop_first(), i - 1, v);
    }
}

/// Appending an entry of a fresh key leaves other lookups unchanged and
/// makes that key found.
proof fn lemma_find_after_push(
    s: Seq<(Pubkey, Seq<(u64, BucketView)>)>,
    x: (Pubkey, Seq<(u64, BucketView)>),
    q: Pubkey,
)
    ensures
        q != x.0 ==> spec_find_series(s.push(x), q) == spec_find_series(s, q),
        (forall|j: int| 0 <= j < s.len() ==> s[j].0 != x.0) ==> spec_find_series(s.push(x), x.0)
            == Some(x.1),
    decreases s.len(),
{
    if s.len() == 0 {
        assert(s.push(x)[0] == x);
        assert(s.push(x).drop_first() =~= Seq::<(Pubkey, Seq<(u64, BucketView)>)>::empty());
        assert(spec_find_series(s, q) is None);
        if q != x.0 {
            assert(spec_find_series(Seq::<(Pubkey, Seq<(u64, BucketView)>)>::empty(), q)
                is None);
            assert(spec_find_series(s.push(x), q) is None);
        }
        assert(spec_find_series(s.push(x), x.0) == Some(x.1));
    } else {
        assert(s.push(x)[0] == s[0]);
        assert(s.push(x).drop_first() =~= s.drop_first().push(x));
        assert(forall|j: int|
            0 <= j < s.drop_first().len() ==> #[trigger] s.drop_first()[j] == s[j + 1]);
        lemma_find_after_push(s.drop_first(), x, q);
        if s[0].0 != x.0 && (forall|j: int| 0 <= j < s.len() ==> s[j].0 != x.0) {
            lemma_find_after_push(s.drop_first(), x, x.0);
        }
    }
}

impl HypeAggregator {
    /// Ingest one pool log event: evict buckets older than the horizon,
    /// open the event's bucket if it is new, and bump the counters its
    /// logs match. Other pools are untouched.
    pub fn ingest(&mut self, ev: &PoolLogEvent)
        requires
            old(self).wf(),
        ensures
            final(self).wf(),
            final(self).cfg == old(self).cfg,
            spec_find_series(final(self).pools_view(), ev.pool) == Some(
                spec_ingest_series(
                    match spec_find_series(old(self).pools_view(), ev.pool) {
                        Some(sv) => sv,
                        None => Seq::<(u64, BucketView)>::empty(),
                    },
                    *ev,
                    old(self).cfg,
                ),
            ),
            forall|q: Pubkey|
                q != ev.pool ==> spec_find_series(final(self).pools_view(), q)
                    == spec_find_series(#[trigger] old(self).pools_view(), q),
    {
        let cfg = self.cfg;
        let ghost pv0 = self.pools_view();
        let n = self.pools.len();
        let mut idx: usize = 0;
        let mut found = false;
        loop
            invariant_except_break
                n == self.pools@.len(),
                idx <= n,
                !found,
                *self == *old(self),
                pv0 == self.pools_view(),
                forall|j: int| 0 <= j < idx ==> pv0[j].0 != ev.pool,
            ensures
                *self == *old(self),
                pv0 == self.pools_view(),
                found ==> idx < n && pv0[idx as int].0 == ev.pool && (forall|j: int|
                    0 <= j < idx ==> pv0[j].0 != ev.pool),
                !found ==> forall|j: int| 0 <= j < n ==> pv0[j].0 != ev.pool,
            decreases n - idx,
        {
            if idx >= n {
                break;
            }
            let k = &self.pools[idx].0;
            proof {
                assert(pv0[idx as int].0 == self.pools@[idx as int].0);
            }
            if k.w0 == ev.pool.w0 && k.w1 == ev.pool.w1 && k.w2 == ev.pool.w2 && k.w3
                == ev.pool.w3 {
                proof {
                    assert(*k == ev.pool);
                    assert(pv0[idx as int].0 == ev.pool);
                }
                found = true;
                break;
            }
            proof {
                assert(*k != ev.pool);
                assert(pv0[idx as int].0 != ev.pool);
            }
            idx = idx + 1;
        }

        proof {
            lemma_find_prefix_none(pv0, ev.pool, idx as int, found);
        }
        if found {
            let ghost old_series = pv0[idx as int].1;
            let pair = &mut self.pools[idx];
            ingest_series(&mut pair.1, ev, cfg);
            proof {
                assert(self.pools_view() =~= pv0.update(
                    idx as int,
                    (ev.pool, spec_ingest_series(old_series, *ev, cfg)),
                ));
                lemma_find_at_update(pv0, idx as int, spec_ingest_series(old_series, *ev, cfg));
                assert forall|q: Pubkey| q != ev.pool implies spec_find_series(
                    self.pools_view(),
                    q,
                ) == spec_find_series(pv0, q) by {
                    lemma_find_after_update(
                        pv0,
                        idx as int,
                        spec_ingest_series(old_series, *ev, cfg),
                        q,
                    );
                }
            }
        } else {
            let mut series = PoolSeries { buckets: Vec::new() };
            proof {
                assert(series_view(series) =~= Seq::<(u64, BucketView)>::empty());
            }
            ingest_series(&mut series, ev, cfg);
            let ghost new_series = series_view(series);
            self.pools.push((ev.pool, series));
            proof {
                assert(self.pools_view() =~= pv0.push((ev.pool, new_series)));
                assert forall|q: Pubkey| q != ev.pool implies spec_find_series(
                    self.pools_view(),
                    q,
                ) == spec_find_series(pv0, q) by {
                    lemma_find_after_push(pv0, (ev.pool, new_series), q);
                }
                lemma_find_after_push(pv0, (ev.pool, new_series), ev.pool);
            }
        }
    }
}

/// When the scan stopped, the entries walked past did not hold the key;
/// relate that to what the recursive lookup finds.
proof fn lemma_find_prefix_none(
    s: Seq<(Pubkey, Seq<(u64, BucketView)>)>,
    pool: Pubkey,
    idx: int,
    found: bool,
)
    requires
        found ==> 0 <= idx < s.len() && s[idx].0 == pool && (forall|j: int|
            0 <= j < idx ==> s[j].0 != pool),
        !found ==> forall|j: int| 0 <= j < s.len() ==> s[j].0 != pool,
    ensures
        found ==> spec_find_series(s, pool) == Some(s[idx].1),
        !found ==> spec_find_series(s, pool) is None,
    decreases s.len(),
{
    if s.len() == 0 {
    } else if found {
        if idx == 0 {
        } else {
            lemma_find_prefix_none(s.drop_first(), pool, idx - 1, found);
        }
    } else {
        lemma_find_prefix_none(s.drop_first(), pool, idx, found);
    }
}


/// A windowed snapshot of a pool's counters: swaps, buys, sells and
/// distinct traders within the last 60 seconds, and the net
/// liquidity-event delta within the last 300 seconds. The buy/sell ratio
/// and the score are derived from these by the caller.
#[derive(Clone, Copy, PartialEq, Eq, Structural, Debug)]
pub struct HypeCounts {
    pub swaps_60s: u32,
    pub buys_60s: u32,
    pub sells_60s: u32,
    pub unique_traders_60s: u32,
    pub lp_net_300s: i32,
}

/// Accumulator of a snapshot walk.
#[verifier::ext_equal]
pub struct SnapAcc {
    pub swaps: u32,
    pub buys: u32,
    pub sells: u32,
    pub uniq: Seq<Pubkey>,
    pub lp: i32,
}

pub open spec fn spec_empty_acc() -> SnapAcc {
    SnapAcc { swaps: 0u32, buys: 0u32, sells: 0u32, uniq: Seq::<Pubkey>::empty(), lp: 0i32 }
}

/// `a + b` held at the numeric ceiling.
pub open spec fn spec_sat_add_u32(a: u32, b: u32) -> u32 {
    if a + b > u32::MAX {
        u32::MAX
    } else {
        (a + b) as u32
    }
}

fn sat_add_u32(a: u32, b: u32) -> (r: u32)
    ensures
        r == spec_sat_add_u32(a, b),
{
    if a > u32::MAX - b {
        u32::MAX
    } else {
        a + b
    }
}

/// `a + adds - rems` held within the `i32` range.
pub open spec fn spec_clamp_add_lp(a: i32, adds: i32, rems: i32) -> i32 {
    let v = a + adds - rems;
    if v > i32::MAX {
        i32::MAX
    } else if v < i32::MIN {
        i32::MIN
    } else {
        v as i32
    }
}

fn clamp_add_lp(a: i32, adds: i32, rems: i32) -> (r: i32)
    ensures
        r == spec_clamp_add_lp(a, adds, rems),
{
    let v: i64 = a as i64 + adds as i64 - rems as i64;
    if v > i32::MAX as i64 {
        i32::MAX
    } else if v < i32::MIN as i64 {
        i32::MIN
    } else {
        v as i32
    }
}

/// Fold a bucket's traders into the accumulated list, keeping only
/// unseen ones, in order.
pub open spec fn spec_merge_uniques(acc: Seq<Pubkey>, add: Seq<Pubkey>) -> Seq<Pubkey>
    decreases add.len(),
{
    if add.len() == 0 {
        acc
    } else {
        let acc1 = if acc.contains(add[0]) {
            acc
        } else {
            acc.push(add[0])
        };
        spec_merge_uniques(acc1, add.drop_first())
    }
}

/// One bucket applied to the accumulator: the 60-second counters when the
/// bucket is recent enough, the liquidity delta always (the walk has
/// already stopped at the 300-second horizon).
pub open spec fn spec_snap_step(acc: SnapAcc, b: BucketView, age: u64) -> SnapAcc {
    let acc1 = if age <= 60_000 {
        SnapAcc {
            swaps: spec_sat_add_u32(acc.swaps, b.swaps),
            buys: spec_sat_add_u32(acc.buys, b.buys),
            sells: spec_sat_add_u32(acc.sells, b.sells),
            uniq: spec_merge_uniques(acc.uniq, b.uniques),
            ..acc
        }
    } else {
        acc
    };
    SnapAcc { lp: spec_clamp_add_lp(acc1.lp, b.lp_adds, b.lp_rems), ..acc1 }
}

/// Walk the series newest to oldest, stopping at the first bucket older
/// than 300 seconds.
pub open spec fn spec_snap_loop(s: Seq<(u64, BucketView)>, i: int, acc: SnapAcc, now: u64) -> SnapAcc
    decreases i + 1,
{
    if i < 0 || i >= s.len() {
        acc
    } else {
        let (ts, b) = s[i];
        let age = if now >= ts {
            (now - ts) as u64
        } else {
            0u64
        };
        if age > 300_000 {
            acc
        } else {
            spec_snap_loop(s, i - 1, spec_snap_step(acc, b, age), now)
        }
    }
}

/// The snapshot of a series at wall-clock `now`.
pub open spec fn spec_snapshot_counts(s: Seq<(u64, BucketView)>, now: u64) -> HypeCounts {
    let acc = spec_snap_loop(s, s.len() - 1, spec_empty_acc(), now);
    HypeCounts {
        swaps_60s: acc.swaps,
        buys_60s: acc.buys,
        sells_60s: acc.sells,
        unique_traders_60s: (if acc.uniq.len() > u32::MAX {
            u32::MAX
        } else {
            acc.uniq.len() as u32
        }),
        lp_net_300s: acc.lp,
    }
}

impl HypeAggregator {
    /// Snapshot the counters of `pool` at wall-clock `now_ms`, or `None`
    /// when the pool has no series yet.
    pub fn snapshot(&self, pool: &Pubkey, now_ms: u64) -> (r: Option<HypeCounts>)
        ensures
            r == match spec_find_series(self.pools_view(), *pool) {
                Some(sv) => Some(spec_snapshot_counts(sv, now_ms)),
                None => None::<HypeCounts>,
            },
    {
        let ghost pv0 = self.pools_view();
        let n = self.pools.len();
        let mut idx: usize = 0;
        let mut found = false;
        loop
            invariant_except_break
                n == self.pools@.len(),
                idx <= n,
                !found,
                pv0 == self.pools_view(),
                forall|j: int| 0 <= j < idx ==> pv0[j].0 != *pool,
            ensures
                pv0 == self.pools_view(),
                found ==> idx < n && pv0[idx as int].0 == *pool && (forall|j: int|
                    0 <= j < idx ==> pv0[j].0 != *pool),
                !found ==> forall|j: int| 0 <= j < n ==> pv0[j].0 != *pool,
            decreases n - idx,
        {
            if idx >= n {
                break;
            }
            let k = &self.pools[idx].0;
            proof {
                assert(pv0[idx as int].0 == self.pools@[idx as int].0);
            }
            if k.w0 == pool.w0 && k.w1 == pool.w1 && k.w2 == pool.w2 && k.w3 == pool.w3 {
                proof {
                    assert(*k == *pool);
                }
                found = true;
                break;
            }
            proof {
                assert(*k != *pool);
            }
            idx = idx + 1;
        }
        proof {
            lemma_find_prefix_none(pv0, *pool, idx as int, found);
        }
        if !found {
            return None;
        }

        let series = &self.pools[idx].1;
        let ghost sv = series_view(*series);
        proof {
            assert(pv0[idx as int] == (self.pools@[idx as int].0, series_view(
                self.pools@[idx as int].1,
            )));
            assert(sv == pv0[idx as int].1);
        }
        let m = series.buckets.len();
        let mut swaps: u32 = 0;
        let mut buys: u32 = 0;
        let mut sells: u32 = 0;
        let mut uniq: Vec<Pubkey> = Vec::new();
        let mut lp: i32 = 0;
        let mut i: usize = m;
        proof {
            assert(uniq@ =~= Seq::<Pubkey>::empty());
            assert((SnapAcc { swaps, buys, sells, uniq: uniq@, lp }) =~= spec_empty_acc());
        }
        loop
            invariant_except_break
                m == sv.len(),
                sv == series_view(*series),
                i <= m,
                spec_snap_loop(sv, m - 1, spec_empty_acc(), now_ms) == spec_snap_loop(
                    sv,
                    i - 1,
                    SnapAcc { swaps, buys, sells, uniq: uniq@, lp },
                    now_ms,
                ),
            ensures
                m == sv.len(),
                spec_snap_loop(sv, m - 1, spec_empty_acc(), now_ms) == (SnapAcc {
                    swaps,
                    buys,
                    sells,
                    uniq: uniq@,
                    lp,
                }),
            decreases i,
        {
            let ghost acc0 = SnapAcc { swaps, buys, sells, uniq: uniq@, lp };
            if i == 0 {
                break;
            }
            let pair = &series.buckets[i - 1];
            let ts = pair.0;
            let b = &pair.1;
            proof {
                assert(sv[i - 1] == (ts, b@));
            }
            let age: u64 = if now_ms >= ts {
                now_ms - ts
            } else {
                0
            };
            if age > 300_000 {
                proof {
                    assert(spec_snap_loop(sv, i - 1, acc0, now_ms) == acc0);
                }
                break;
            }
            if age <= 60_000 {
                swaps = sat_add_u32(swaps, b.swaps);
                buys = sat_add_u32(buys, b.buys);
                sells = sat_add_u32(sells, b.sells);
                let ghost u0 = uniq@;
                proof {
                    assert(b.uniques@.skip(0) =~= b.uniques@);
                }
                let k = b.uniques.len();
                let mut j: usize = 0;
                while j < k
                    invariant
                        k == b.uniques@.len(),
                        j <= k,
                        spec_merge_uniques(u0, b.uniques@) == spec_merge_uniques(
                            uniq@,
                            b.uniques@.skip(j as int),
                        ),
                    decreases k - j,
                {
                    let ghost uj = uniq@;
                    let t = &b.uniques[j];
                    proof {
                        assert(b.uniques@.skip(j as int)[0] == b.uniques@[j as int]);
                    }
                    if !vec_contains(&uniq, t) {
                        uniq.push(*t);
                    }
                    proof {
                        assert(b.uniques@.skip(j as int).drop_first() =~= b.uniques@.skip(
                            j + 1,
                        ));
                        assert(spec_merge_uniques(uj, b.uniques@.skip(j as int))
                            == spec_merge_uniques(uniq@, b.uniques@.skip(j + 1)));
                    }
                    j = j + 1;
                }
                proof {
                    assert(b.uniques@.skip(k as int) =~= Seq::<Pubkey>::empty());
                    assert(uniq@ == spec_merge_uniques(u0, b.uniques@));
                }
            }
            lp = clamp_add_lp(lp, b.lp_adds, b.lp_rems);
            proof {
                assert((SnapAcc { swaps, buys, sells, uniq: uniq@, lp }) =~= spec_snap_step(
                    acc0,
                    b@,
                    age,
                ));
                assert(spec_snap_loop(sv, i - 1, acc0, now_ms) == spec_snap_loop(
                    sv,
                    i - 2,
                    spec_snap_step(acc0, b@, age),
                    now_ms,
                ));
            }
            i = i - 1;
        }
        let ul = uniq.len();
        let unique_traders: u32 = if ul >= u32::MAX as usize {
            u32::MAX
        } else {
            ul as u32
        };
        proof {
            assert(spec_snapshot_counts(sv, now_ms) == (HypeCounts {
                swaps_60s: swaps,
                buys_60s: buys,
                sells_60s: sells,
                unique_traders_60s: unique_traders,
                lp_net_300s: lp,
            }));
        }
        Some(
            HypeCounts {
                swaps_60s: swaps,
                buys_60s: buys,
                sells_60s: sells,
                unique_traders_60s: unique_traders,
                lp_net_300s: lp,
            },
        )
    }
}


/// Total swaps counted over a whole series.
pub open spec fn spec_sum_swaps(s: Seq<(u64, BucketView)>) -> int
    decreases s.len(),
{
    if s.len() == 0 {
        0
    } else {
        s[0].1.swaps + spec_sum_swaps(s.drop_first())
    }
}

proof fn lemma_sum_swaps_nonneg(s: Seq<(u64, BucketView)>)
    ensures
        spec_sum_swaps(s) >= 0,
    decreases s.len(),
{
    if s.len() > 0 {
        lemma_sum_swaps_nonneg(s.drop_first());
    }
}

proof fn lemma_sum_swaps_push(s: Seq<(u64, BucketView)>, x: (u64, BucketView))
    ensures
        spec_sum_swaps(s.push(x)) == spec_sum_swaps(s) + x.1.swaps,
    decreases s.len(),
{
    if s.len() == 0 {
        assert(s.push(x)[0] == x);
        assert(s.push(x).drop_first() =~= Seq::<(u64, BucketView)>::empty());
        assert(spec_sum_swaps(Seq::<(u64, BucketView)>::empty()) == 0);
    } else {
        assert(s.push(x)[0] == s[0]);
        assert(s.push(x).drop_first() =~= s.drop_first().push(x));
        lemma_sum_swaps_push(s.drop_first(), x);
    }
}

proof fn lemma_sum_swaps_update_last(s: Seq<(u64, BucketView)>, y: (u64, BucketView))
    requires
        s.len() > 0,
    ensures
        spec_sum_swaps(s.update(s.len() - 1, y)) == spec_sum_swaps(s) - s.last().1.swaps
            + y.1.swaps,
    decreases s.len(),
{
    let s2 = s.update(s.len() - 1, y);
    if s.len() == 1 {
        assert(s2[0] == y);
        assert(s2.drop_first() =~= Seq::<(u64, BucketView)>::empty());
        assert(s.drop_first() =~= Seq::<(u64, BucketView)>::empty());
    } else {
        assert(s2[0] == s[0]);
        assert(s2.drop_first() =~= s.drop_first().update(s.drop_first().len() - 1, y));
        lemma_sum_swaps_update_last(s.drop_first(), y);
    }
}

proof fn lemma_evict_sum_le(s: Seq<(u64, BucketView)>, bts: u64, h: u64)
    ensures
        spec_sum_swaps(spec_evict(s, bts, h)) <= spec_sum_swaps(s),
    decreases s.len(),
{
    if s.len() > 0 {
        let age = if bts >= s[0].0 {
            bts - s[0].0
        } else {
            0
        };
        if age > h {
            lemma_evict_sum_le(s.drop_first(), bts, h);
        }
    }
}

/// One event adds at most one swap to a series: the total swap count of
/// the series after ingesting an event exceeds the old total by at most
/// one, and an empty series counts zero. Chained over N ingests from
/// empty, the total stays at most N.
pub proof fn lemma_ingest_sum_swaps(s: Seq<(u64, BucketView)>, ev: PoolLogEvent, cfg: HypeConfig)
    ensures
        spec_sum_swaps(spec_ingest_series(s, ev, cfg)) <= spec_sum_swaps(s) + 1,
        spec_sum_swaps(Seq::<(u64, BucketView)>::empty()) == 0,
{
    let bts = spec_bucket_ts(ev.ts_ms, cfg);
    let h = spec_horizon_ms(cfg);
    let e = spec_evict(s, bts, h);
    lemma_evict_sum_le(s, bts, h);
    let a = spec_arm(e, bts);
    if !(e.len() > 0 && e.last().0 == bts) {
        lemma_sum_swaps_push(e, (bts, spec_empty_bucket()));
    }
    let flags = spec_classify(views_of(ev.logs@));
    let applied = spec_apply(a, flags, ev.trader);
    let (ts, b) = a.last();
    lemma_sum_swaps_update_last(
        a,
        (
            ts,
            BucketView {
                swaps: spec_inc_u32(b.swaps, flags.0),
                buys: spec_inc_u32(b.buys, flags.1),
                sells: spec_inc_u32(b.sells, flags.2),
                uniques: match ev.trader {
                    Some(t) => if b.uniques.contains(t) {
                        b.uniques
                    } else {
                        b.uniques.push(t)
                    },
                    None => b.uniques,
                },
                lp_adds: spec_inc_i32(b.lp_adds, flags.3),
                lp_rems: spec_inc_i32(b.lp_rems, flags.4),
            },
        ),
    );
}

proof fn lemma_sum_swaps_take(s: Seq<(u64, BucketView)>, i: int)
    requires
        0 <= i < s.len(),
    ensures
        spec_sum_swaps(s.take(i + 1)) == spec_sum_swaps(s.take(i)) + s[i].1.swaps,
{
    assert(s.take(i + 1) =~= s.take(i).push(s[i]));
    lemma_sum_swaps_push(s.take(i), s[i]);
}

proof fn lemma_snap_loop_swaps(s: Seq<(u64, BucketView)>, i: int, acc: SnapAcc, now: u64)
    requires
        -1 <= i < s.len(),
    ensures
        spec_snap_loop(s, i, acc, now).swaps <= acc.swaps + spec_sum_swaps(s.take(i + 1)),
    decreases i + 1,
{
    if i < 0 {
        assert(s.take(i + 1) =~= Seq::<(u64, BucketView)>::empty());
    } else {
        lemma_sum_swaps_take(s, i);
        lemma_sum_swaps_nonneg(s.take(i));
        let (ts, b) = s[i];
        let age = if now >= ts {
            (now - ts) as u64
        } else {
            0u64
        };
        if age > 300_000 {
            lemma_sum_swaps_nonneg(s.take(i + 1));
        } else {
            lemma_snap_loop_swaps(s, i - 1, spec_snap_step(acc, b, age), now);
        }
    }
}

/// A snapshot never reports more swaps than the series holds: the
/// 60-second window counts at most the series' total.
pub proof fn lemma_snapshot_swaps_le_sum(s: Seq<(u64, BucketView)>, now: u64)
    ensures
        spec_snapshot_counts(s, now).swaps_60s <= spec_sum_swaps(s),
{
    lemma_snap_loop_swaps(s, s.len() - 1, spec_empty_acc(), now);
    assert(s.take(s.len() as int) =~= s);
}

/// Timestamps strictly increase along a series.
pub open spec fn spec_series_sorted(s: Seq<(u64, BucketView)>) -> bool {
    forall|i: int, j: int| 0 <= i < j < s.len() ==> s[i].0 < s[j].0
}

/// No bucket lies more than `horizon` before the newest one.
pub open spec fn spec_series_within(s: Seq<(u64, BucketView)>, horizon: u64) -> bool {
    forall|i: int| 0 <= i < s.len() ==> s.last().0 - #[trigger] s[i].0 <= horizon
}

proof fn lemma_evict_props(s: Seq<(u64, BucketView)>, bts: u64, h: u64)
    requires
        spec_series_sorted(s),
    ensures
        spec_series_sorted(spec_evict(s, bts, h)),
        forall|i: int|
            0 <= i < spec_evict(s, bts, h).len() ==> bts - #[trigger] spec_evict(
                s,
                bts,
                h,
            )[i].0 <= h,
        spec_evict(s, bts, h).len() > 0 ==> spec_evict(s, bts, h).last() == s.last(),
    decreases s.len(),
{
    if s.len() > 0 {
        let age = if bts >= s[0].0 {
            bts - s[0].0
        } else {
            0
        };
        if age > h {
            assert(spec_series_sorted(s.drop_first()));
            lemma_evict_props(s.drop_first(), bts, h);
            if s.drop_first().len() > 0 {
                assert(s.drop_first().last() == s.last());
            }
        } else {
            assert forall|i: int| 0 <= i < s.len() implies bts - #[trigger] s[i].0 <= h by {
                if i > 0 {
                    assert(s[0].0 < s[i].0);
                }
            }
        }
    }
}

/// Freshly ingested series stay inside the horizon: when events arrive in
/// bucket order (each event's bucket no older than the newest bucket),
/// ingesting keeps the series sorted and evicts every bucket older than
/// the horizon relative to the newest, which is the event's bucket. An
/// event older than the series (a backdated timestamp) can append an old
/// bucket at the end and break the bound, so such inputs are excluded.
pub proof fn lemma_ingest_horizon(s: Seq<(u64, BucketView)>, ev: PoolLogEvent, cfg: HypeConfig)
    requires
        cfg.wf(),
        spec_series_sorted(s),
        s.len() > 0 ==> spec_bucket_ts(ev.ts_ms, cfg) >= s.last().0,
    ensures
        spec_series_sorted(spec_ingest_series(s, ev, cfg)),
        spec_ingest_series(s, ev, cfg).len() > 0,
        spec_ingest_series(s, ev, cfg).last().0 == spec_bucket_ts(ev.ts_ms, cfg),
        spec_series_within(spec_ingest_series(s, ev, cfg), spec_horizon_ms(cfg)),
{
    let bts = spec_bucket_ts(ev.ts_ms, cfg);
    let h = spec_horizon_ms(cfg);
    let e = spec_evict(s, bts, h);
    lemma_evict_props(s, bts, h);
    let a = spec_arm(e, bts);
    if e.len() > 0 && e.last().0 == bts {
        assert(a == e);
        assert(a.last().0 == bts);
    } else {
        assert(a =~= e.push((bts, spec_empty_bucket())));
        assert forall|i: int, j: int| 0 <= i < j < a.len() implies a[i].0 < a[j].0 by {
            if j < a.len() - 1 {
                assert(e[i].0 < e[j].0);
            } else {
                if s.len() > 0 && e.len() > 0 {
                    assert(e.last() == s.last());
                    if i < e.len() - 1 {
                        assert(e[i].0 < e.last().0);
                    }
                    assert(e[i].0 <= s.last().0);
                    assert(e[i].0 < bts || e[i].0 == bts);
                    assert(e[i].0 != bts);
                }
            }
        }
    }
    let flags = spec_classify(views_of(ev.logs@));
    let applied = spec_apply(a, flags, ev.trader);
    assert(applied.len() == a.len());
    assert(applied.last().0 == a.last().0);
    assert(forall|i: int| 0 <= i < applied.len() - 1 ==> #[trigger] applied[i].0 == a[i].0);
    assert forall|i: int, j: int| 0 <= i < j < applied.len() implies applied[i].0 < applied[j].0
        by {
        assert(a[i].0 < a[j].0);
    }
    assert forall|i: int| 0 <= i < applied.len() implies applied.last().0 - #[trigger] applied[i].0
        <= h by {
        assert(a[i].0 == applied[i].0);
        if i < a.len() - 1 || a == e {
            assert(bts - a[i].0 <= h);
        }
    }
}

} // verus!
