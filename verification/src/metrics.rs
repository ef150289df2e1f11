//! In-memory request metrics: a bounded ring of per-request samples and the
//! aggregations the admin dashboard and the capabilities endpoint read.
//!
//! Every query that looks back from "now" has an `_at` form that takes the
//! current time as an argument and is specified exactly; the plain form reads
//! the clock and calls it.
use std::collections::VecDeque;
use vstd::prelude::*;
use crate::lexorder::{
    distinct_names, holds_index, is_ranked_selection, lex_lt, rank_before, select_ranked, string_views,
};
use crate::percentile::{percentile_of_sorted, percentile_spec, sorted_copy};

verus! {

broadcast use vstd::seq_lib::group_filter_ensures;

/// Number of samples the ring keeps; recording into a full ring drops the
/// oldest sample.
pub const RING_CAPACITY: usize = 100_000;

/// One proxied request.
pub struct MetricSample {
    pub ts_unix: i64,
    pub provider: String,
    pub status: u16,
    pub duration_ms: u32,
    pub cache_hit: bool,
}

/// Per-bucket request statistics.
pub struct TimeseriesBucket {
    pub ts: i64,
    pub calls: u64,
    pub errors: u64,
    pub hits: u64,
    pub misses: u64,
    pub p50_ms: u32,
    pub p95_ms: u32,
}

/// Per-bucket status-class counts.
pub struct StatusCodeBucket {
    pub ts: i64,
    pub ok_2xx: u64,
    pub client_4xx: u64,
    pub server_5xx: u64,
}

/// A failed request, as listed by the dashboard.
pub struct ErrorSample {
    pub ts: i64,
    pub provider: String,
    pub status: u16,
    pub duration_ms: u32,
}

/// Call, error and cache-hit counts over the last 24 hours (the hit ratio is
/// `hits_24h / calls_24h`, 0 without calls).
pub struct OverviewCounts {
    pub calls_24h: u64,
    pub errors_24h: u64,
    pub hits_24h: u64,
}

/// Per-provider statistics over a window (the hit ratio is `hits / calls`).
pub struct ProviderCounts {
    pub provider: String,
    pub calls: u64,
    pub errors: u64,
    pub hits: u64,
    pub p50_ms: u32,
    pub p95_ms: u32,
}

/// Calls of one provider in one heatmap bucket.
pub struct HeatmapCell {
    pub provider: String,
    pub calls: u64,
}

/// One heatmap column.
pub struct HeatmapBucket {
    pub ts: i64,
    pub values: Vec<HeatmapCell>,
}

/// The top providers of a window and their calls per bucket.
pub struct HeatmapResponse {
    pub providers: Vec<String>,
    pub buckets: Vec<HeatmapBucket>,
}

/// The bounded, oldest-first ring of samples.
pub struct MetricsStore {
    inner: VecDeque<MetricSample>,
}

// ----------------------------------------------------------------- specs

/// Whether a sample counts as an error (status 400 or above).
pub open spec fn is_error() -> spec_fn(MetricSample) -> bool {
    |s: MetricSample| s.status >= 400
}

/// Whether a sample was served from the cache.
pub open spec fn is_hit() -> spec_fn(MetricSample) -> bool {
    |s: MetricSample| s.cache_hit
}

/// Whether a sample was not served from the cache.
pub open spec fn is_miss() -> spec_fn(MetricSample) -> bool {
    |s: MetricSample| !s.cache_hit
}

/// Whether `ts` lies in the inclusive window `[since, until]`, a missing bound
/// being unbounded on that side.
pub open spec fn in_range(ts: i64, since: Option<i64>, until: Option<i64>) -> bool {
    &&& (match since {
        Some(s) => ts >= s,
        None => true,
    })
    &&& (match until {
        Some(u) => ts <= u,
        None => true,
    })
}

/// The samples `clear_in_range(since, until)` keeps.
pub open spec fn kept_by_clear(since: Option<i64>, until: Option<i64>) -> spec_fn(MetricSample) -> bool {
    |s: MetricSample| !in_range(s.ts_unix, since, until)
}

/// `max(x, 1)`.
pub open spec fn at_least_one(x: i64) -> int {
    if x < 1 {
        1
    } else {
        x as int
    }
}

/// Number of buckets for a range and bucket width: `ceil(range / bucket)`, at
/// least 1, both widths taken as at least 1.
pub open spec fn bucket_total(range_secs: i64, bucket_secs: i64) -> int {
    let r = at_least_one(range_secs);
    let b = at_least_one(bucket_secs);
    let c = (r + b - 1) / b;
    if c < 1 {
        1
    } else {
        c
    }
}

/// Start of the window that ends at `now`.
pub open spec fn window_start(now: i64, range_secs: i64) -> int {
    now - at_least_one(range_secs)
}

/// The bucket a timestamp at or after `start` falls in, the last bucket
/// absorbing anything past the window's end.
pub open spec fn bucket_of(ts: int, start: int, width: int, count: int) -> int {
    let raw = (ts - start) / width;
    if raw < 0 {
        0
    } else if raw > count - 1 {
        count - 1
    } else {
        raw
    }
}

/// Whether a sample is in the window starting at `start`.
pub open spec fn in_window(start: int) -> spec_fn(MetricSample) -> bool {
    |s: MetricSample| s.ts_unix >= start
}

/// Whether a sample is in the window and in bucket `i`.
pub open spec fn in_bucket(start: int, width: int, count: int, i: int) -> spec_fn(MetricSample) -> bool {
    |s: MetricSample| s.ts_unix >= start && bucket_of(s.ts_unix as int, start, width, count) == i
}

/// The durations of some samples, in order.
pub open spec fn durations(s: Seq<MetricSample>) -> Seq<u32> {
    s.map_values(|x: MetricSample| x.duration_ms)
}

/// Whether a status is a success (2xx).
pub open spec fn is_2xx() -> spec_fn(MetricSample) -> bool {
    |s: MetricSample| 200 <= s.status <= 299
}

/// Whether a status is a client error (4xx).
pub open spec fn is_4xx() -> spec_fn(MetricSample) -> bool {
    |s: MetricSample| 400 <= s.status <= 499
}

/// Whether a status is a server error (5xx and above).
pub open spec fn is_5xx() -> spec_fn(MetricSample) -> bool {
    |s: MetricSample| s.status >= 500
}

/// What a timeseries bucket says of the samples `bs` that fall in it.
pub open spec fn timeseries_bucket_matches(b: TimeseriesBucket, ts: int, bs: Seq<MetricSample>) -> bool {
    &&& b.ts == ts
    &&& b.calls == bs.len()
    &&& b.errors == bs.filter(is_error()).len()
    &&& b.hits == bs.filter(is_hit()).len()
    &&& b.misses == bs.filter(is_miss()).len()
    &&& b.p50_ms == percentile_spec(durations(bs), 50)
    &&& b.p95_ms == percentile_spec(durations(bs), 95)
}

/// What a status-code bucket says of the samples `bs` that fall in it.
pub open spec fn status_bucket_matches(b: StatusCodeBucket, ts: int, bs: Seq<MetricSample>) -> bool {
    &&& b.ts == ts
    &&& b.ok_2xx == bs.filter(is_2xx()).len()
    &&& b.client_4xx == bs.filter(is_4xx()).len()
    &&& b.server_5xx == bs.filter(is_5xx()).len()
}

/// The dashboard's view of a failed sample.
pub open spec fn error_of(s: MetricSample) -> ErrorSample {
    ErrorSample { ts: s.ts_unix, provider: s.provider, status: s.status, duration_ms: s.duration_ms }
}

/// The newest `limit` errors among `s`, newest first.
pub open spec fn recent_errors_spec(s: Seq<MetricSample>, limit: int) -> Seq<ErrorSample> {
    let f = s.reverse().filter(is_error());
    let t = if limit < f.len() {
        f.take(limit)
    } else {
        f
    };
    t.map_values(|x: MetricSample| error_of(x))
}

impl View for MetricsStore {
    type V = Seq<MetricSample>;

    /// The samples, oldest first.
    closed spec fn view(&self) -> Seq<MetricSample> {
        self.inner@
    }
}

// ------------------------------------------------------------- helpers

proof fn lemma_filter_step(s: Seq<MetricSample>, j: int, p: spec_fn(MetricSample) -> bool)
    requires
        0 <= j < s.len(),
    ensures
        s.take(j + 1).filter(p) == (if p(s[j]) {
            s.take(j).filter(p).push(s[j])
        } else {
            s.take(j).filter(p)
        }),
{
    assert(s.take(j + 1) =~= s.take(j).push(s[j]));
    s.take(j).lemma_filter_push(s[j], p);
}

proof fn lemma_bucket_arith(r: int, b: int)
    requires
        r >= 1,
        b >= 1,
    ensures
        (r - 1) / b + 1 == (r + b - 1) / b,
        (r + b - 1) / b >= 1,
        (r + b - 1) / b <= r,
        ((r + b - 1) / b - 1) * b <= r - 1,
{
    assert((r - 1) / b + 1 == (r + b - 1) / b) by (nonlinear_arith)
        requires
            r >= 1,
            b >= 1,
    {
        assert(r + b - 1 == (r - 1) + b * 1);
        vstd::arithmetic::div_mod::lemma_div_plus_one(r - 1, b);
    }
    assert((r - 1) / b <= r - 1) by (nonlinear_arith)
        requires
            r >= 1,
            b >= 1,
    ;
    assert(((r - 1) / b) * b <= r - 1) by (nonlinear_arith)
        requires
            r >= 1,
            b >= 1,
    ;
}

/// Current time in whole seconds since the Unix epoch, as `SystemTime`
/// reports it, or `None` when the clock is before the epoch.
/// Trusted: calls `std::time::SystemTime::now().duration_since(UNIX_EPOCH)`;
/// nothing is claimed of the value, which depends on the clock.
#[verifier::external_body]
fn clock_secs_since_epoch() -> Option<u64> {
    match std::time::SystemTime::now().duration_since(std::time::UNIX_EPOCH) {
        Ok(d) => Some(d.as_secs()),
        Err(_) => None,
    }
}

/// Current Unix time in seconds; 0 when the clock reads before the epoch.
pub fn now_unix() -> (res: i64)
    ensures
        res >= 0,
{
    match clock_secs_since_epoch() {
        Some(s) => if s <= i64::MAX as u64 {
            s as i64
        } else {
            i64::MAX
        },
        None => 0,
    }
}

/// Whether the bucket count of a range and bucket width fits a `usize`, as
/// the bucketed queries require.
pub fn bucket_count_fits(range_secs: i64, bucket_secs: i64) -> (res: bool)
    ensures
        res == (bucket_total(range_secs, bucket_secs) <= usize::MAX),
{
    let r: i128 = if range_secs < 1 { 1 } else { range_secs as i128 };
    let b: i128 = if bucket_secs < 1 { 1 } else { bucket_secs as i128 };
    let c: i128 = (r + b - 1) / b;
    let c: i128 = if c < 1 { 1 } else { c };
    c <= usize::MAX as i128
}

/// Whether a sample is in the window starting at `start` and comes from
/// provider `p`.
pub open spec fn of_provider(start: int, p: Seq<char>) -> spec_fn(MetricSample) -> bool {
    |x: MetricSample| x.ts_unix >= start && x.provider@ == p
}

/// Number of samples of provider `p` in the window starting at `start`.
pub open spec fn provider_calls(s: Seq<MetricSample>, start: int, p: Seq<char>) -> int {
    s.filter(of_provider(start, p)).len() as int
}

/// What a per-provider entry says of the window's samples.
pub open spec fn provider_counts_match(c: ProviderCounts, s: Seq<MetricSample>, start: int) -> bool {
    let ps = s.filter(of_provider(start, c.provider@));
    &&& c.calls == ps.len()
    &&& c.calls >= 1
    &&& c.errors == ps.filter(is_error()).len()
    &&& c.hits == ps.filter(is_hit()).len()
    &&& c.p50_ms == percentile_spec(durations(ps), 50)
    &&& c.p95_ms == percentile_spec(durations(ps), 95)
}

/// Whether `l` lists the (at most ten) providers of the window starting at
/// `start` with the most calls, in rank order (more calls first, ties by
/// name): every listed provider has calls, the list is strictly ranked, and
/// a provider with calls is left out only when ten providers rank before it.
pub open spec fn is_top_providers(l: Seq<Seq<char>>, s: Seq<MetricSample>, start: int) -> bool {
    &&& l.len() <= 10
    &&& forall|t: int| 0 <= t < l.len() ==> #[trigger] provider_calls(s, start, l[t]) > 0
    &&& forall|t: int, u: int| 0 <= t < u < l.len() ==> l[t] != l[u]
    &&& forall|t: int, u: int|
        0 <= t < u < l.len() ==> rank_before(
            l[t],
            provider_calls(s, start, l[t]),
            l[u],
            provider_calls(s, start, l[u]),
        )
    &&& forall|p: Seq<char>|
        provider_calls(s, start, p) > 0 && !l.contains(p) ==> l.len() == 10 && forall|t: int|
            0 <= t < l.len() ==> rank_before(
                l[t],
                provider_calls(s, start, l[t]),
                p,
                #[trigger] provider_calls(s, start, p),
            )
}

/// Whether a sample is in bucket `i` of the window and from provider `p`.
pub open spec fn of_provider_in_bucket(start: int, width: int, count: int, i: int, p: Seq<char>) -> spec_fn(
    MetricSample,
) -> bool {
    |x: MetricSample|
        x.ts_unix >= start && bucket_of(x.ts_unix as int, start, width, count) == i && x.provider@ == p
}

/// Calls of provider `p` in bucket `i` of the window.
pub open spec fn bucket_calls(s: Seq<MetricSample>, start: int, width: int, count: int, i: int, p: Seq<char>) -> int {
    s.filter(of_provider_in_bucket(start, width, count, i, p)).len() as int
}

/// Whether `v` holds, in rank order, one cell for each provider of `l` with
/// calls in bucket `i`, with its number of calls there.
pub open spec fn heatmap_cells_match(
    v: Seq<HeatmapCell>,
    l: Seq<Seq<char>>,
    s: Seq<MetricSample>,
    start: int,
    width: int,
    count: int,
    i: int,
) -> bool {
    &&& forall|t: int|
        0 <= t < v.len() ==> l.contains(#[trigger] v[t].provider@) && v[t].calls == bucket_calls(
            s,
            start,
            width,
            count,
            i,
            v[t].provider@,
        ) && v[t].calls >= 1
    &&& forall|t: int, u: int|
        0 <= t < u < v.len() ==> rank_before(
            v[t].provider@,
            v[t].calls as int,
            v[u].provider@,
            v[u].calls as int,
        )
    &&& forall|m: int|
        0 <= m < l.len() && bucket_calls(s, start, width, count, i, l[m]) > 0 ==> exists|t: int|
            0 <= t < v.len() && #[trigger] v[t].provider@ == l[m]
}

/// Per-provider accumulation over a window, providers in order of first
/// appearance.
struct Tally {
    names: Vec<String>,
    calls: Vec<u64>,
    errors: Vec<u64>,
    hits: Vec<u64>,
    durs: Vec<Vec<u32>>,
}

spec fn tally_ok(t: Tally, s: Seq<MetricSample>, start: int) -> bool {
    let nv = string_views(t.names@);
    &&& t.calls@.len() == nv.len()
    &&& t.errors@.len() == nv.len()
    &&& t.hits@.len() == nv.len()
    &&& t.durs@.len() == nv.len()
    &&& distinct_names(nv)
    &&& forall|k: int|
        0 <= k < nv.len() ==> {
            let ps = #[trigger] s.filter(of_provider(start, nv[k]));
            &&& t.calls@[k] == ps.len()
            &&& t.calls@[k] >= 1
            &&& t.errors@[k] == ps.filter(is_error()).len()
            &&& t.hits@[k] == ps.filter(is_hit()).len()
            &&& t.durs@[k]@ == durations(ps)
        }
    &&& forall|p: Seq<char>| !nv.contains(p) ==> #[trigger] s.filter(of_provider(start, p)).len() == 0
}

/// Bucket geometry of a window: start, width and count, with the arithmetic
/// facts the queries rely on.
struct Buckets {
    start: i64,
    width: i64,
    count: usize,
}

fn buckets_for(now: i64, range_secs: i64, bucket_secs: i64) -> (res: Buckets)
    requires
        now >= 0,
        bucket_total(range_secs, bucket_secs) <= usize::MAX,
    ensures
        res.start == window_start(now, range_secs),
        res.width == at_least_one(bucket_secs),
        res.count == bucket_total(range_secs, bucket_secs),
        res.count >= 1,
        res.start + (res.count - 1) * res.width < now,
        1 <= now - res.start <= i64::MAX,
        res.count <= now - res.start,
        res.width >= 1,
{
    let r: i64 = if range_secs < 1 {
        1
    } else {
        range_secs
    };
    let b: i64 = if bucket_secs < 1 {
        1
    } else {
        bucket_secs
    };
    proof {
        lemma_bucket_arith(r as int, b as int);
    }
    let c: i64 = (r - 1) / b + 1;
    Buckets { start: now - r, width: b, count: c as usize }
}

/// Index of the bucket of a timestamp at or after `start`.
fn index_of(ts: i64, g: &Buckets) -> (res: usize)
    requires
        ts >= g.start,
        g.width >= 1,
        g.count >= 1,
    ensures
        res == bucket_of(ts as int, g.start as int, g.width as int, g.count as int),
        res < g.count,
{
    let raw: i128 = ((ts as i128) - (g.start as i128)) / (g.width as i128);
    if raw > (g.count as i128) - 1 {
        g.count - 1
    } else {
        raw as usize
    }
}

/// The cells of one heatmap column: the providers of `providers` with calls in
/// the bucket (`calls[m]` for `providers[m]`), in rank order.
fn heatmap_column(
    providers: &Vec<String>,
    calls: &Vec<u64>,
    s: Ghost<Seq<MetricSample>>,
    start: Ghost<int>,
    width: Ghost<int>,
    count: Ghost<int>,
    i: Ghost<int>,
) -> (res: Vec<HeatmapCell>)
    requires
        calls@.len() == providers@.len(),
        forall|a: int, b: int| 0 <= a < b < providers@.len() ==> providers@[a]@ != providers@[b]@,
        forall|mm: int|
            0 <= mm < providers@.len() ==> #[trigger] calls@[mm] == bucket_calls(
                s@,
                start@,
                width@,
                count@,
                i@,
                providers@[mm]@,
            ),
    ensures
        heatmap_cells_match(res@, string_views(providers@), s@, start@, width@, count@, i@),
{
    let ghost l = string_views(providers@);
    let m = providers.len();
    let mut names: Vec<String> = Vec::new();
    let mut counts: Vec<u64> = Vec::new();
    let ghost mut from: Seq<int> = Seq::empty();
    let mut c: usize = 0;
    while c < m
        invariant
            m == providers@.len(),
            l == string_views(providers@),
            calls@.len() == m,
            c <= m,
            names@.len() == counts@.len(),
            from.len() == names@.len(),
            forall|q: int| 0 <= q < from.len() ==> 0 <= #[trigger] from[q] < c,
            forall|q: int, r: int| 0 <= q < r < from.len() ==> from[q] < from[r],
            forall|q: int| 0 <= q < from.len() ==> (#[trigger] names@[q])@ == l[from[q]] && counts@[q]
                == calls@[from[q]] && counts@[q] >= 1,
            forall|mm: int| 0 <= mm < c && calls@[mm] > 0 ==> exists|q: int| 0 <= q < from.len() && #[trigger] from[q] == mm,
        decreases m - c,
    {
        let ghost old_from = from;
        let ghost old_names = names@;
        let ghost old_counts = counts@;
        if calls[c] > 0 {
            names.push(providers[c].clone());
            counts.push(calls[c]);
            proof {
                from = from.push(c as int);
                assert(l[c as int] == providers@[c as int]@);
                assert forall|q: int| 0 <= q < from.len() implies (#[trigger] names@[q])@ == l[from[q]]
                    && counts@[q] == calls@[from[q]] && counts@[q] >= 1 by {
                    if q < old_from.len() {
                        assert(names@[q] == old_names[q]);
                        assert(counts@[q] == old_counts[q]);
                        assert(from[q] == old_from[q]);
                    }
                }
            }
        }
        proof {
            assert forall|mm: int| 0 <= mm < c + 1 && calls@[mm] > 0 implies exists|q: int| 0 <= q < from.len() && #[trigger] from[q] == mm by {
                if mm == c {
                    assert(from[from.len() - 1] == mm);
                } else {
                    let q = choose|q: int| 0 <= q < old_from.len() && old_from[q] == mm;
                    assert(from[q] == mm);
                }
            }
            assert forall|q: int| 0 <= q < from.len() implies (#[trigger] names@[q])@ == l[from[q]]
                && counts@[q] == calls@[from[q]] && counts@[q] >= 1 by {
                if q < old_from.len() {
                    assert(names@[q] == old_names[q]);
                    assert(from[q] == old_from[q]);
                }
            }
        }
        c = c + 1;
    }
    let ghost nv = string_views(names@);
    proof {
        assert forall|a: int, b: int| 0 <= a < b < nv.len() implies nv[a] != nv[b] by {
            assert(nv[a] == l[from[a]] && nv[b] == l[from[b]]);
            assert(providers@[from[a]]@ != providers@[from[b]]@);
        }
    }
    let order = select_ranked(&names, &counts, names.len());
    let mut out: Vec<HeatmapCell> = Vec::new();
    let mut q: usize = 0;
    while q < order.len()
        invariant
            nv == string_views(names@),
            names@.len() == counts@.len(),
            is_ranked_selection(nv, counts@, names@.len() as int, order@),
            q <= order@.len(),
            out@.len() == q,
            forall|u: int| 0 <= u < q ==> (#[trigger] out@[u]).provider@ == nv[order@[u] as int] && out@[u].calls
                == counts@[order@[u] as int],
        decreases order@.len() - q,
    {
        let k = order[q];
        out.push(HeatmapCell { provider: names[k].clone(), calls: counts[k] });
        q = q + 1;
    }
    proof {
        assert forall|u: int| 0 <= u < out@.len() implies l.contains(#[trigger] out@[u].provider@)
            && out@[u].calls == bucket_calls(s@, start@, width@, count@, i@, out@[u].provider@)
            && out@[u].calls >= 1 by {
            let k = order@[u] as int;
            assert(nv[k] == l[from[k]]);
            assert(l[from[k]] == providers@[from[k]]@);
        }
        assert forall|mm: int| 0 <= mm < l.len() && bucket_calls(s@, start@, width@, count@, i@, l[mm]) > 0 implies exists|u: int|
            0 <= u < out@.len() && #[trigger] out@[u].provider@ == l[mm] by {
            assert(calls@[mm] > 0);
            let qq = choose|qq: int| 0 <= qq < from.len() && from[qq] == mm;
            assert(holds_index(order@, qq));
            let u = choose|u: int| 0 <= u < order@.len() && order@[u] == qq as usize;
            assert(out@[u].provider@ == nv[qq]);
        }
    }
    out
}

/// What `query_timeseries_at` answers at time `now` for the samples `s`.
pub open spec fn timeseries_at_spec(res: Seq<TimeseriesBucket>, s: Seq<MetricSample>, now: i64, range_secs: i64, bucket_secs: i64) -> bool {
    &&& res.len() == bucket_total(range_secs, bucket_secs)
    &&& forall|i: int|
                0 <= i < res.len() ==> #[trigger] timeseries_bucket_matches(
                    res[i],
                    window_start(now, range_secs) + i * at_least_one(bucket_secs),
                    s.filter(
                        in_bucket(
                            window_start(now, range_secs),
                            at_least_one(bucket_secs),
                            bucket_total(range_secs, bucket_secs),
                            i,
                        ),
                    ),
                )
}

/// What `query_status_codes_at` answers at time `now` for the samples `s`.
pub open spec fn status_codes_at_spec(res: Seq<StatusCodeBucket>, s: Seq<MetricSample>, now: i64, range_secs: i64, bucket_secs: i64) -> bool {
    &&& res.len() == bucket_total(range_secs, bucket_secs)
    &&& forall|i: int|
                0 <= i < res.len() ==> #[trigger] status_bucket_matches(
                    res[i],
                    window_start(now, range_secs) + i * at_least_one(bucket_secs),
                    s.filter(
                        in_bucket(
                            window_start(now, range_secs),
                            at_least_one(bucket_secs),
                            bucket_total(range_secs, bucket_secs),
                            i,
                        ),
                    ),
                )
}

/// What `overview_counts_at` answers at time `now` for the samples `s`.
pub open spec fn overview_at_spec(res: OverviewCounts, s: Seq<MetricSample>, now: i64) -> bool {
    &&& res.calls_24h == s.filter(in_window(now - 86400)).len()
    &&& res.errors_24h == s.filter(in_window(now - 86400)).filter(is_error()).len()
    &&& res.hits_24h == s.filter(in_window(now - 86400)).filter(is_hit()).len()
}

/// What `query_provider_counts_at` answers at time `now` for the samples `s`.
pub open spec fn provider_counts_at_spec(res: Seq<ProviderCounts>, s: Seq<MetricSample>, now: i64, range_secs: i64) -> bool {
    &&& forall|t: int| 0 <= t < res.len() ==> #[trigger] provider_counts_match(
                res[t],
                s,
                window_start(now, range_secs),
            )
    &&& forall|t: int, u: int| 0 <= t < u < res.len() ==> lex_lt(res[t].provider@, res[u].provider@)
    &&& forall|p: Seq<char>|
                provider_calls(s, window_start(now, range_secs), p) > 0 ==> exists|t: int|
                    0 <= t < res.len() && #[trigger] res[t].provider@ == p
}

/// What `query_heatmap_at` answers at time `now` for the samples `s`.
pub open spec fn heatmap_at_spec(res: HeatmapResponse, s: Seq<MetricSample>, now: i64, range_secs: i64, bucket_secs: i64) -> bool {
    &&& is_top_providers(string_views(res.providers@), s, window_start(now, range_secs))
    &&& res.buckets@.len() == bucket_total(range_secs, bucket_secs)
    &&& forall|i: int|
                0 <= i < res.buckets@.len() ==> (#[trigger] res.buckets@[i]).ts == window_start(now, range_secs)
                    + i * at_least_one(bucket_secs) && heatmap_cells_match(
                    res.buckets@[i].values@,
                    string_views(res.providers@),
                    s,
                    window_start(now, range_secs),
                    at_least_one(bucket_secs),
                    bucket_total(range_secs, bucket_secs),
                    i,
                )
}

impl MetricsStore {
    #[verifier::type_invariant]
    spec fn within_capacity(self) -> bool {
        self.inner@.len() <= RING_CAPACITY
    }

    /// An empty store.
    pub fn new() -> (res: Self)
        ensures
            res@ == Seq::<MetricSample>::empty(),
    {
        MetricsStore { inner: VecDeque::with_capacity(RING_CAPACITY) }
    }

    /// Appends a sample, dropping the oldest one when the ring is full.
    pub fn record(&mut self, sample: MetricSample)
        ensures
            final(self)@ == (if old(self)@.len() >= RING_CAPACITY {
                old(self)@.drop_first().push(sample)
            } else {
                old(self)@.push(sample)
            }),
            final(self)@.len() <= RING_CAPACITY,
    {
        proof {
            use_type_invariant(&*self);
        }
        let mut samples: VecDeque<MetricSample> = VecDeque::new();
        std::mem::swap(&mut samples, &mut self.inner);
        if samples.len() >= RING_CAPACITY {
            samples.pop_front();
        }
        samples.push_back(sample);
        self.inner = samples;
    }

    /// Removes the samples whose timestamp falls in the inclusive window
    /// `[since_unix, until_unix]` (`None` = unbounded on that side) and returns
    /// how many were removed.
    pub fn clear_in_range(&mut self, since_unix: Option<i64>, until_unix: Option<i64>) -> (res: usize)
        ensures
            final(self)@ == old(self)@.filter(kept_by_clear(since_unix, until_unix)),
            res == old(self)@.len() - final(self)@.len(),
    {
        proof {
            use_type_invariant(&*self);
        }
        let ghost orig = self.inner@;
        let mut rest: VecDeque<MetricSample> = VecDeque::new();
        std::mem::swap(&mut rest, &mut self.inner);
        let before = rest.len();
        let ghost keep = kept_by_clear(since_unix, until_unix);
        let mut kept: VecDeque<MetricSample> = VecDeque::new();
        let mut j: usize = 0;
        while j < before
            invariant
                before == orig.len(),
                orig.len() <= RING_CAPACITY,
                j <= before,
                rest@ == orig.skip(j as int),
                kept@ == orig.take(j as int).filter(keep),
                keep == kept_by_clear(since_unix, until_unix),
            decreases before - j,
        {
            proof {
                lemma_filter_step(orig, j as int, keep);
                assert(rest@[0] == orig[j as int]);
            }
            let s = rest.pop_front().unwrap();
            assert(rest@ =~= orig.skip(j + 1));
            let inside = (match since_unix {
                Some(lo) => s.ts_unix >= lo,
                None => true,
            }) && (match until_unix {
                Some(hi) => s.ts_unix <= hi,
                None => true,
            });
            if !inside {
                kept.push_back(s);
            }
            j = j + 1;
        }
        assert(orig.take(before as int) =~= orig);
        proof {
            orig.lemma_filter_len(keep);
        }
        let after = kept.len();
        self.inner = kept;
        before - after
    }

    /// Per-bucket call counts and latency percentiles over the `range_secs`
    /// seconds before `now`, in `bucket_secs`-wide buckets (both at least 1).
    pub fn query_timeseries_at(&self, now: i64, range_secs: i64, bucket_secs: i64) -> (res: Vec<TimeseriesBucket>)
        requires
            now >= 0,
            bucket_total(range_secs, bucket_secs) <= usize::MAX,
        ensures
            timeseries_at_spec(res@, self@, now, range_secs, bucket_secs),
    {
        proof {
            use_type_invariant(self);
        }
        let g = buckets_for(now, range_secs, bucket_secs);
        let ghost s = self.inner@;
        let ghost start = g.start as int;
        let ghost width = g.width as int;
        let ghost count = g.count as int;
        let mut calls: Vec<u64> = Vec::new();
        let mut errors: Vec<u64> = Vec::new();
        let mut hits: Vec<u64> = Vec::new();
        let mut misses: Vec<u64> = Vec::new();
        let mut durs: Vec<Vec<u32>> = Vec::new();
        let mut k: usize = 0;
        while k < g.count
            invariant
                k <= g.count,
                calls@.len() == k,
                errors@.len() == k,
                hits@.len() == k,
                misses@.len() == k,
                durs@.len() == k,
                forall|i: int| 0 <= i < k ==> #[trigger] calls@[i] == 0,
                forall|i: int| 0 <= i < k ==> #[trigger] errors@[i] == 0,
                forall|i: int| 0 <= i < k ==> #[trigger] hits@[i] == 0,
                forall|i: int| 0 <= i < k ==> #[trigger] misses@[i] == 0,
                forall|i: int| 0 <= i < k ==> #[trigger] durs@[i]@ == Seq::<u32>::empty(),
            decreases g.count - k,
        {
            calls.push(0);
            errors.push(0);
            hits.push(0);
            misses.push(0);
            durs.push(Vec::new());
            k = k + 1;
        }
        let n = self.inner.len();
        let mut j: usize = 0;
        proof {
            assert(s.take(0) =~= Seq::<MetricSample>::empty());
            assert forall|i: int| 0 <= i < count implies #[trigger] s.take(0).filter(
                in_bucket(start, width, count, i),
            ) =~= Seq::<MetricSample>::empty() by {
                s.take(0).lemma_filter_len(in_bucket(start, width, count, i));
            }
            Seq::<MetricSample>::empty().lemma_filter_len(is_error());
            Seq::<MetricSample>::empty().lemma_filter_len(is_hit());
            Seq::<MetricSample>::empty().lemma_filter_len(is_miss());
            assert(durations(Seq::<MetricSample>::empty()) =~= Seq::<u32>::empty());
        }
        while j < n
            invariant
                n == s.len(),
                s == self.inner@,
                s.len() <= RING_CAPACITY,
                start == g.start,
                width == g.width,
                count == g.count,
                width >= 1,
                count >= 1,
                j <= n,
                calls@.len() == count,
                errors@.len() == count,
                hits@.len() == count,
                misses@.len() == count,
                durs@.len() == count,
                forall|i: int|
                    0 <= i < count ==> {
                        let bs = #[trigger] s.take(j as int).filter(in_bucket(start, width, count, i));
                        &&& calls@[i] == bs.len()
                        &&& errors@[i] == bs.filter(is_error()).len()
                        &&& hits@[i] == bs.filter(is_hit()).len()
                        &&& misses@[i] == bs.filter(is_miss()).len()
                        &&& durs@[i]@ == durations(bs)
                        &&& bs.len() <= j
                    },
            decreases n - j,
        {
            let x = &self.inner[j];
            let ghost old_calls = calls@;
            let ghost old_errors = errors@;
            let ghost old_hits = hits@;
            let ghost old_misses = misses@;
            let ghost old_durs = durs@;
            let in_win = x.ts_unix >= g.start;
            let mut idx: usize = 0;
            if in_win {
                idx = index_of(x.ts_unix, &g);
                proof {
                    let bs = s.take(j as int).filter(in_bucket(start, width, count, idx as int));
                    assert(calls@[idx as int] == bs.len());
                    bs.lemma_filter_len(is_error());
                    bs.lemma_filter_len(is_hit());
                    bs.lemma_filter_len(is_miss());
                }
                calls.set(idx, calls[idx] + 1);
                if x.status >= 400 {
                    errors.set(idx, errors[idx] + 1);
                }
                if x.cache_hit {
                    hits.set(idx, hits[idx] + 1);
                } else {
                    misses.set(idx, misses[idx] + 1);
                }
                durs[idx].push(x.duration_ms);
            }
            proof {
                assert forall|i: int| 0 <= i < count implies {
                    let bs = #[trigger] s.take(j + 1).filter(in_bucket(start, width, count, i));
                    &&& calls@[i] == bs.len()
                    &&& errors@[i] == bs.filter(is_error()).len()
                    &&& hits@[i] == bs.filter(is_hit()).len()
                    &&& misses@[i] == bs.filter(is_miss()).len()
                    &&& durs@[i]@ == durations(bs)
                    &&& bs.len() <= j + 1
                } by {
                    let p = in_bucket(start, width, count, i);
                    lemma_filter_step(s, j as int, p);
                    let prev = s.take(j as int).filter(p);
                    assert(prev == s.take(j as int).filter(in_bucket(start, width, count, i)));
                    if p(s[j as int]) {
                        assert(in_win && idx == i);
                        prev.lemma_filter_push(s[j as int], is_error());
                        prev.lemma_filter_push(s[j as int], is_hit());
                        prev.lemma_filter_push(s[j as int], is_miss());
                        assert(durations(prev.push(s[j as int])) =~= durations(prev).push(
                            s[j as int].duration_ms,
                        ));
                    } else {
                        assert(!in_win || idx != i);
                    }
                }
            }
            j = j + 1;
        }
        assert(s.take(n as int) =~= s);
        let mut out: Vec<TimeseriesBucket> = Vec::new();
        let mut i: usize = 0;
        while i < g.count
            invariant
                i <= g.count,
                s == self@,
                start == g.start,
                width == g.width,
                count == g.count,
                start + (count - 1) * width < now,
                1 <= now - start <= i64::MAX,
                count <= now - start,
                width >= 1,
                calls@.len() == count,
                errors@.len() == count,
                hits@.len() == count,
                misses@.len() == count,
                durs@.len() == count,
                forall|t: int|
                    0 <= t < count ==> {
                        let bs = #[trigger] s.filter(in_bucket(start, width, count, t));
                        &&& calls@[t] == bs.len()
                        &&& errors@[t] == bs.filter(is_error()).len()
                        &&& hits@[t] == bs.filter(is_hit()).len()
                        &&& misses@[t] == bs.filter(is_miss()).len()
                        &&& durs@[t]@ == durations(bs)
                    },
                out@.len() == i,
                forall|t: int|
                    0 <= t < i ==> #[trigger] timeseries_bucket_matches(
                        out@[t],
                        start + t * width,
                        s.filter(in_bucket(start, width, count, t)),
                    ),
            decreases g.count - i,
        {
            proof {
                assert(i * width <= (count - 1) * width) by (nonlinear_arith)
                    requires
                        i <= count - 1,
                        width >= 1,
                ;
            }
            let ts = g.start + (i as i64) * g.width;
            let sorted = sorted_copy(&durs[i]);
            let ghost bs = s.filter(in_bucket(start, width, count, i as int));
            let p50 = percentile_of_sorted(&sorted, 50, Ghost(durations(bs)));
            let p95 = percentile_of_sorted(&sorted, 95, Ghost(durations(bs)));
            out.push(
                TimeseriesBucket {
                    ts,
                    calls: calls[i],
                    errors: errors[i],
                    hits: hits[i],
                    misses: misses[i],
                    p50_ms: p50,
                    p95_ms: p95,
                },
            );
            i = i + 1;
        }
        out
    }

    /// `query_timeseries_at` at the current time.
    pub fn query_timeseries(&self, range_secs: i64, bucket_secs: i64) -> (res: Vec<TimeseriesBucket>)
        requires
            bucket_total(range_secs, bucket_secs) <= usize::MAX,
        ensures
            exists|now: i64| now >= 0 && #[trigger] timeseries_at_spec(res@, self@, now, range_secs, bucket_secs),
    {
        let now = now_unix();
        let r = self.query_timeseries_at(now, range_secs, bucket_secs);
        assert(timeseries_at_spec(r@, self@, now, range_secs, bucket_secs));
        r
    }

    /// Per-bucket 2xx / 4xx / 5xx counts over the `range_secs` seconds before
    /// `now`, in `bucket_secs`-wide buckets (1xx and 3xx are not counted).
    pub fn query_status_codes_at(&self, now: i64, range_secs: i64, bucket_secs: i64) -> (res: Vec<StatusCodeBucket>)
        requires
            now >= 0,
            bucket_total(range_secs, bucket_secs) <= usize::MAX,
        ensures
            status_codes_at_spec(res@, self@, now, range_secs, bucket_secs),
    {
        proof {
            use_type_invariant(self);
        }
        let g = buckets_for(now, range_secs, bucket_secs);
        let ghost s = self.inner@;
        let ghost start = g.start as int;
        let ghost width = g.width as int;
        let ghost count = g.count as int;
        let mut ok: Vec<u64> = Vec::new();
        let mut client: Vec<u64> = Vec::new();
        let mut server: Vec<u64> = Vec::new();
        let mut k: usize = 0;
        while k < g.count
            invariant
                k <= g.count,
                ok@.len() == k,
                client@.len() == k,
                server@.len() == k,
                forall|i: int| 0 <= i < k ==> #[trigger] ok@[i] == 0,
                forall|i: int| 0 <= i < k ==> #[trigger] client@[i] == 0,
                forall|i: int| 0 <= i < k ==> #[trigger] server@[i] == 0,
            decreases g.count - k,
        {
            ok.push(0);
            client.push(0);
            server.push(0);
            k = k + 1;
        }
        let n = self.inner.len();
        let mut j: usize = 0;
        proof {
            assert(s.take(0) =~= Seq::<MetricSample>::empty());
            assert forall|i: int| 0 <= i < count implies #[trigger] s.take(0).filter(
                in_bucket(start, width, count, i),
            ) =~= Seq::<MetricSample>::empty() by {
                s.take(0).lemma_filter_len(in_bucket(start, width, count, i));
            }
            Seq::<MetricSample>::empty().lemma_filter_len(is_2xx());
            Seq::<MetricSample>::empty().lemma_filter_len(is_4xx());
            Seq::<MetricSample>::empty().lemma_filter_len(is_5xx());
        }
        while j < n
            invariant
                n == s.len(),
                s == self.inner@,
                s.len() <= RING_CAPACITY,
                start == g.start,
                width == g.width,
                count == g.count,
                width >= 1,
                count >= 1,
                j <= n,
                ok@.len() == count,
                client@.len() == count,
                server@.len() == count,
                forall|i: int|
                    0 <= i < count ==> {
                        let bs = #[trigger] s.take(j as int).filter(in_bucket(start, width, count, i));
                        &&& ok@[i] == bs.filter(is_2xx()).len()
                        &&& client@[i] == bs.filter(is_4xx()).len()
                        &&& server@[i] == bs.filter(is_5xx()).len()
                        &&& bs.len() <= j
                    },
            decreases n - j,
        {
            let x = &self.inner[j];
            let in_win = x.ts_unix >= g.start;
            let mut idx: usize = 0;
            if in_win {
                idx = index_of(x.ts_unix, &g);
                proof {
                    let bs = s.take(j as int).filter(in_bucket(start, width, count, idx as int));
                    bs.lemma_filter_len(is_2xx());
                    bs.lemma_filter_len(is_4xx());
                    bs.lemma_filter_len(is_5xx());
                }
                if 200 <= x.status && x.status <= 299 {
                    ok.set(idx, ok[idx] + 1);
                } else if 400 <= x.status && x.status <= 499 {
                    client.set(idx, client[idx] + 1);
                } else if x.status >= 500 {
                    server.set(idx, server[idx] + 1);
                }
            }
            proof {
                assert forall|i: int| 0 <= i < count implies {
                    let bs = #[trigger] s.take(j + 1).filter(in_bucket(start, width, count, i));
                    &&& ok@[i] == bs.filter(is_2xx()).len()
                    &&& client@[i] == bs.filter(is_4xx()).len()
                    &&& server@[i] == bs.filter(is_5xx()).len()
                    &&& bs.len() <= j + 1
                } by {
                    let p = in_bucket(start, width, count, i);
                    lemma_filter_step(s, j as int, p);
                    let prev = s.take(j as int).filter(p);
                    if p(s[j as int]) {
                        assert(in_win && idx == i);
                        prev.lemma_filter_push(s[j as int], is_2xx());
                        prev.lemma_filter_push(s[j as int], is_4xx());
                        prev.lemma_filter_push(s[j as int], is_5xx());
                    } else {
                        assert(!in_win || idx != i);
                    }
                }
            }
            j = j + 1;
        }
        assert(s.take(n as int) =~= s);
        let mut out: Vec<StatusCodeBucket> = Vec::new();
        let mut i: usize = 0;
        while i < g.count
            invariant
                i <= g.count,
                s == self@,
                start == g.start,
                width == g.width,
                count == g.count,
                start + (count - 1) * width < now,
                1 <= now - start <= i64::MAX,
                count <= now - start,
                width >= 1,
                ok@.len() == count,
                client@.len() == count,
                server@.len() == count,
                forall|t: int|
                    0 <= t < count ==> {
                        let bs = #[trigger] s.filter(in_bucket(start, width, count, t));
                        &&& ok@[t] == bs.filter(is_2xx()).len()
                        &&& client@[t] == bs.filter(is_4xx()).len()
                        &&& server@[t] == bs.filter(is_5xx()).len()
                    },
                out@.len() == i,
                forall|t: int|
                    0 <= t < i ==> #[trigger] status_bucket_matches(
                        out@[t],
                        start + t * width,
                        s.filter(in_bucket(start, width, count, t)),
                    ),
            decreases g.count - i,
        {
            proof {
                assert(i * width <= (count - 1) * width) by (nonlinear_arith)
                    requires
                        i <= count - 1,
                        width >= 1,
                ;
            }
            let ts = g.start + (i as i64) * g.width;
            out.push(StatusCodeBucket { ts, ok_2xx: ok[i], client_4xx: client[i], server_5xx: server[i] });
            i = i + 1;
        }
        out
    }

    /// `query_status_codes_at` at the current time.
    pub fn query_status_codes(&self, range_secs: i64, bucket_secs: i64) -> (res: Vec<StatusCodeBucket>)
        requires
            bucket_total(range_secs, bucket_secs) <= usize::MAX,
        ensures
            exists|now: i64| now >= 0 && #[trigger] status_codes_at_spec(res@, self@, now, range_secs, bucket_secs),
    {
        let now = now_unix();
        let r = self.query_status_codes_at(now, range_secs, bucket_secs);
        assert(status_codes_at_spec(r@, self@, now, range_secs, bucket_secs));
        r
    }

    /// Calls, errors and cache hits among the samples of the 24 hours before
    /// `now` (timestamp at or after `now - 86400`).
    pub fn overview_counts_at(&self, now: i64) -> (res: OverviewCounts)
        requires
            now >= 0,
        ensures
            overview_at_spec(res, self@, now),
    {
        proof {
            use_type_invariant(self);
        }
        let start = now - 86400;
        let ghost s = self.inner@;
        let ghost w = in_window(start as int);
        let n = self.inner.len();
        let mut calls: u64 = 0;
        let mut errors: u64 = 0;
        let mut hits: u64 = 0;
        let mut j: usize = 0;
        proof {
            assert(s.take(0) =~= Seq::<MetricSample>::empty());
            s.take(0).lemma_filter_len(w);
            Seq::<MetricSample>::empty().lemma_filter_len(is_error());
            Seq::<MetricSample>::empty().lemma_filter_len(is_hit());
        }
        while j < n
            invariant
                n == s.len(),
                s == self.inner@,
                s.len() <= RING_CAPACITY,
                w == in_window(start as int),
                j <= n,
                calls == s.take(j as int).filter(w).len(),
                errors == s.take(j as int).filter(w).filter(is_error()).len(),
                hits == s.take(j as int).filter(w).filter(is_hit()).len(),
                s.take(j as int).filter(w).len() <= j,
            decreases n - j,
        {
            let x = &self.inner[j];
            proof {
                let prev = s.take(j as int).filter(w);
                lemma_filter_step(s, j as int, w);
                prev.lemma_filter_len(is_error());
                prev.lemma_filter_len(is_hit());
                prev.lemma_filter_push(s[j as int], is_error());
                prev.lemma_filter_push(s[j as int], is_hit());
            }
            if x.ts_unix >= start {
                calls = calls + 1;
                if x.status >= 400 {
                    errors = errors + 1;
                }
                if x.cache_hit {
                    hits = hits + 1;
                }
            }
            j = j + 1;
        }
        assert(s.take(n as int) =~= s);
        OverviewCounts { calls_24h: calls, errors_24h: errors, hits_24h: hits }
    }

    /// `overview_counts_at` at the current time.
    pub fn overview_counts_24h(&self) -> (res: OverviewCounts)
        ensures
            exists|now: i64| now >= 0 && #[trigger] overview_at_spec(res, self@, now),
    {
        let now = now_unix();
        let r = self.overview_counts_at(now);
        assert(overview_at_spec(r, self@, now));
        r
    }

    /// Accumulates calls, errors, hits and durations per provider over the
    /// samples at or after `start`.
    fn tally(&self, start: i64) -> (res: Tally)
        ensures
            tally_ok(res, self@, start as int),
    {
        proof {
            use_type_invariant(self);
        }
        let ghost s = self.inner@;
        let n = self.inner.len();
        let mut t = Tally { names: Vec::new(), calls: Vec::new(), errors: Vec::new(), hits: Vec::new(), durs: Vec::new() };
        let mut j: usize = 0;
        proof {
            assert(s.take(0) =~= Seq::<MetricSample>::empty());
            assert forall|p: Seq<char>| !string_views(t.names@).contains(p) implies #[trigger] s.take(0).filter(
                of_provider(start as int, p),
            ).len() == 0 by {
                s.take(0).lemma_filter_len(of_provider(start as int, p));
            }
        }
        while j < n
            invariant
                n == s.len(),
                s == self.inner@,
                s.len() <= RING_CAPACITY,
                j <= n,
                tally_ok(t, s.take(j as int), start as int),
                forall|k: int| 0 <= k < t.calls@.len() ==> #[trigger] t.calls@[k] <= j,
            decreases n - j,
        {
            let x = &self.inner[j];
            let ghost nv = string_views(t.names@);
            let ghost old_t_calls = t.calls@;
            let ghost old_t_errors = t.errors@;
            let ghost old_t_hits = t.hits@;
            let ghost old_t_durs = t.durs@;
            let ghost old_names = t.names@;
            let ghost mut slot: int = -1;
            if x.ts_unix >= start {
                let mut k: usize = 0;
                let m = t.names.len();
                while k < m && t.names[k] != x.provider
                    invariant
                        k <= m,
                        m == t.names@.len(),
                        forall|k2: int| 0 <= k2 < k ==> #[trigger] t.names@[k2]@ != x.provider@,
                    decreases m - k,
                {
                    k = k + 1;
                }
                if k < m {
                    proof {
                        slot = k as int;
                        let ps = s.take(j as int).filter(of_provider(start as int, nv[k as int]));
                        assert(t.calls@[k as int] == ps.len());
                        ps.lemma_filter_len(is_error());
                        ps.lemma_filter_len(is_hit());
                    }
                    t.calls.set(k, t.calls[k] + 1);
                    if x.status >= 400 {
                        t.errors.set(k, t.errors[k] + 1);
                    }
                    if x.cache_hit {
                        t.hits.set(k, t.hits[k] + 1);
                    }
                    t.durs[k].push(x.duration_ms);
                } else {
                    t.names.push(x.provider.clone());
                    t.calls.push(1);
                    t.errors.push(if x.status >= 400 { 1 } else { 0 });
                    t.hits.push(if x.cache_hit { 1 } else { 0 });
                    let mut d: Vec<u32> = Vec::new();
                    d.push(x.duration_ms);
                    t.durs.push(d);
                    proof {
                        slot = m as int;
                        assert(string_views(t.names@) =~= nv.push(x.provider@));
                        assert(!nv.contains(x.provider@)) by {
                            if nv.contains(x.provider@) {
                                let k2 = choose|k2: int| 0 <= k2 < nv.len() && nv[k2] == x.provider@;
                                assert(t.names@[k2]@ == x.provider@);
                            }
                        }
                    }
                }
            }
            proof {
                let nv2 = string_views(t.names@);
                let sj = s.take(j as int);
                assert forall|p: Seq<char>| !nv2.contains(p) implies #[trigger] s.take(j + 1).filter(
                    of_provider(start as int, p),
                ).len() == 0 by {
                    lemma_filter_step(s, j as int, of_provider(start as int, p));
                    if x.ts_unix >= start {
                        assert(nv2[slot] == x.provider@);
                        assert(nv2.contains(x.provider@));
                    }
                    if nv.contains(p) {
                        let k2 = choose|k2: int| 0 <= k2 < nv.len() && nv[k2] == p;
                        assert(nv2[k2] == p);
                    }
                }
                assert forall|k: int| 0 <= k < nv2.len() implies {
                    let ps = #[trigger] s.take(j + 1).filter(of_provider(start as int, nv2[k]));
                    &&& t.calls@[k] == ps.len()
                    &&& t.calls@[k] >= 1
                    &&& t.errors@[k] == ps.filter(is_error()).len()
                    &&& t.hits@[k] == ps.filter(is_hit()).len()
                    &&& t.durs@[k]@ == durations(ps)
                } by {
                    let p = of_provider(start as int, nv2[k]);
                    lemma_filter_step(s, j as int, p);
                    let prev = sj.filter(p);
                    if k < nv.len() {
                        assert(nv2[k] == nv[k]);
                    } else {
                        assert(!nv.contains(nv2[k]));
                        assert(prev.len() == 0);
                        assert(prev =~= Seq::<MetricSample>::empty());
                    }
                    if p(s[j as int]) {
                        prev.lemma_filter_push(s[j as int], is_error());
                        prev.lemma_filter_push(s[j as int], is_hit());
                        assert(durations(prev.push(s[j as int])) =~= durations(prev).push(s[j as int].duration_ms));
                        Seq::<MetricSample>::empty().lemma_filter_len(is_error());
                        Seq::<MetricSample>::empty().lemma_filter_len(is_hit());
                        assert(durations(Seq::<MetricSample>::empty()) =~= Seq::<u32>::empty());
                    }
                }
                assert(distinct_names(nv2)) by {
                    assert forall|a: int, b: int| 0 <= a < b < nv2.len() implies nv2[a] != nv2[b] by {
                        if b >= nv.len() {
                            assert(nv2[a] == nv[a]);
                        } else {
                            assert(nv2[a] == nv[a] && nv2[b] == nv[b]);
                        }
                    }
                }
            }
            j = j + 1;
        }
        assert(s.take(n as int) =~= s);
        t
    }

    /// Statistics per provider over the `range_secs` seconds (at least 1)
    /// before `now`: one entry for each provider with a sample in the window,
    /// in ascending order of provider name.
    pub fn query_provider_counts_at(&self, now: i64, range_secs: i64) -> (res: Vec<ProviderCounts>)
        requires
            now >= 0,
        ensures
            provider_counts_at_spec(res@, self@, now, range_secs),
    {
        let r: i64 = if range_secs < 1 {
            1
        } else {
            range_secs
        };
        let start = now - r;
        let t = self.tally(start);
        let ghost s = self@;
        let ghost nv = string_views(t.names@);
        let n = t.names.len();
        let mut zeros: Vec<u64> = Vec::new();
        let mut k: usize = 0;
        while k < n
            invariant
                k <= n,
                zeros@.len() == k,
                forall|i: int| 0 <= i < k ==> #[trigger] zeros@[i] == 0,
            decreases n - k,
        {
            zeros.push(0);
            k = k + 1;
        }
        let order = select_ranked(&t.names, &zeros, n);
        let mut out: Vec<ProviderCounts> = Vec::new();
        let mut i: usize = 0;
        while i < order.len()
            invariant
                tally_ok(t, s, start as int),
                nv == string_views(t.names@),
                n == nv.len(),
                zeros@.len() == n,
                forall|z: int| 0 <= z < n ==> #[trigger] zeros@[z] == 0,
                is_ranked_selection(nv, zeros@, n as int, order@),
                forall|k2: int| 0 <= k2 < n ==> #[trigger] holds_index(order@, k2),
                i <= order@.len(),
                out@.len() == i,
                forall|t2: int| 0 <= t2 < i ==> #[trigger] out@[t2].provider@ == nv[order@[t2] as int],
                forall|t2: int| 0 <= t2 < i ==> #[trigger] provider_counts_match(out@[t2], s, start as int),
            decreases order@.len() - i,
        {
            let k = order[i];
            let ghost ps = s.filter(of_provider(start as int, nv[k as int]));
            let sorted = sorted_copy(&t.durs[k]);
            let p50 = percentile_of_sorted(&sorted, 50, Ghost(durations(ps)));
            let p95 = percentile_of_sorted(&sorted, 95, Ghost(durations(ps)));
            out.push(
                ProviderCounts {
                    provider: t.names[k].clone(),
                    calls: t.calls[k],
                    errors: t.errors[k],
                    hits: t.hits[k],
                    p50_ms: p50,
                    p95_ms: p95,
                },
            );
            i = i + 1;
        }
        proof {
            assert forall|a: int, b: int| 0 <= a < b < out@.len() implies lex_lt(
                out@[a].provider@,
                out@[b].provider@,
            ) by {
                assert(rank_before(
                    nv[order@[a] as int],
                    zeros@[order@[a] as int] as int,
                    nv[order@[b] as int],
                    zeros@[order@[b] as int] as int,
                ));
            }
            assert forall|p: Seq<char>| provider_calls(s, start as int, p) > 0 implies exists|t2: int|
                0 <= t2 < out@.len() && #[trigger] out@[t2].provider@ == p by {
                if !nv.contains(p) {
                    assert(s.filter(of_provider(start as int, p)).len() == 0);
                }
                let k2 = choose|k2: int| 0 <= k2 < nv.len() && nv[k2] == p;
                assert(holds_index(order@, k2));
                let t2 = choose|t2: int| 0 <= t2 < order@.len() && order@[t2] == k2 as usize;
                assert(out@[t2].provider@ == p);
            }
        }
        out
    }

    /// `query_provider_counts_at` at the current time.
    pub fn query_provider_counts(&self, range_secs: i64) -> (res: Vec<ProviderCounts>)
        ensures
            exists|now: i64| now >= 0 && #[trigger] provider_counts_at_spec(res@, self@, now, range_secs),
    {
        let now = now_unix();
        let r = self.query_provider_counts_at(now, range_secs);
        assert(provider_counts_at_spec(r@, self@, now, range_secs));
        r
    }

    /// The ten providers with the most calls in the `range_secs` seconds
    /// before `now`, and their calls per `bucket_secs`-wide bucket.
    pub fn query_heatmap_at(&self, now: i64, range_secs: i64, bucket_secs: i64) -> (res: HeatmapResponse)
        requires
            now >= 0,
            bucket_total(range_secs, bucket_secs) <= usize::MAX,
        ensures
            heatmap_at_spec(res, self@, now, range_secs, bucket_secs),
    {
        proof {
            use_type_invariant(self);
        }
        let g = buckets_for(now, range_secs, bucket_secs);
        let ghost s = self@;
        let ghost start = g.start as int;
        let ghost width = g.width as int;
        let ghost count = g.count as int;
        let t = self.tally(g.start);
        let ghost nv = string_views(t.names@);
        let sel = select_ranked(&t.names, &t.calls, 10);
        // The top providers, in rank order.
        let mut providers: Vec<String> = Vec::new();
        let mut q: usize = 0;
        while q < sel.len()
            invariant
                nv == string_views(t.names@),
                nv.len() == t.calls@.len(),
                forall|u: int| 0 <= u < sel@.len() ==> #[trigger] sel@[u] < nv.len(),
                q <= sel@.len(),
                providers@.len() == q,
                forall|u: int| 0 <= u < q ==> #[trigger] providers@[u]@ == nv[sel@[u] as int],
            decreases sel@.len() - q,
        {
            providers.push(t.names[sel[q]].clone());
            q = q + 1;
        }
        let ghost l = string_views(providers@);
        proof {
            assert forall|u: int| 0 <= u < l.len() implies l[u] == nv[sel@[u] as int] by {}
            assert forall|u: int| 0 <= u < l.len() implies provider_calls(s, start, l[u]) == t.calls@[sel@[u] as int] by {
                let k = sel@[u] as int;
                assert(s.filter(of_provider(start, nv[k])).len() == t.calls@[k]);
            }
            assert forall|a: int, b: int| 0 <= a < b < l.len() implies l[a] != l[b] by {
                let ka = sel@[a] as int;
                let kb = sel@[b] as int;
                if ka < kb {
                    assert(nv[ka] != nv[kb]);
                } else {
                    assert(nv[kb] != nv[ka]);
                }
            }
            assert forall|p: Seq<char>| provider_calls(s, start, p) > 0 && !l.contains(p) implies l.len() == 10
                && forall|u: int|
                0 <= u < l.len() ==> rank_before(
                    l[u],
                    provider_calls(s, start, l[u]),
                    p,
                    #[trigger] provider_calls(s, start, p),
                ) by {
                if !nv.contains(p) {
                    assert(s.filter(of_provider(start, p)).len() == 0);
                }
                let k = choose|k: int| 0 <= k < nv.len() && nv[k] == p;
                assert(!sel@.contains(k as usize)) by {
                    if sel@.contains(k as usize) {
                        let u = choose|u: int| 0 <= u < sel@.len() && sel@[u] == k as usize;
                        assert(l[u] == p);
                    }
                }
                if l.len() < 10 {
                    assert(holds_index(sel@, k));
                }
                assert(provider_calls(s, start, p) == t.calls@[k]);
            }
        }
        // Calls per bucket and top provider.
        let m = providers.len();
        let mut cnt: Vec<Vec<u64>> = Vec::new();
        let mut b: usize = 0;
        while b < g.count
            invariant
                b <= g.count,
                cnt@.len() == b,
                forall|i: int| 0 <= i < b ==> (#[trigger] cnt@[i])@.len() == m,
                forall|i: int, mm: int| 0 <= i < b && 0 <= mm < m ==> #[trigger] cnt@[i]@[mm] == 0,
            decreases g.count - b,
        {
            let mut row: Vec<u64> = Vec::new();
            let mut c: usize = 0;
            while c < m
                invariant
                    c <= m,
                    row@.len() == c,
                    forall|mm: int| 0 <= mm < c ==> #[trigger] row@[mm] == 0,
                decreases m - c,
            {
                row.push(0);
                c = c + 1;
            }
            cnt.push(row);
            b = b + 1;
        }
        let n = self.inner.len();
        let mut j: usize = 0;
        proof {
            assert(s.take(0) =~= Seq::<MetricSample>::empty());
            assert forall|i: int, mm: int| 0 <= i < count && 0 <= mm < m implies #[trigger] s.take(0).filter(
                of_provider_in_bucket(start, width, count, i, l[mm]),
            ).len() == 0 by {
                s.take(0).lemma_filter_len(of_provider_in_bucket(start, width, count, i, l[mm]));
            }
        }
        while j < n
            invariant
                n == s.len(),
                s == self@,
                s == self.inner@,
                s.len() <= RING_CAPACITY,
                start == g.start,
                width == g.width,
                count == g.count,
                width >= 1,
                count >= 1,
                l == string_views(providers@),
                m == l.len(),
                forall|a: int, b2: int| 0 <= a < b2 < l.len() ==> l[a] != l[b2],
                j <= n,
                cnt@.len() == count,
                forall|i: int| 0 <= i < count ==> (#[trigger] cnt@[i])@.len() == m,
                forall|i: int, mm: int|
                    0 <= i < count && 0 <= mm < m ==> #[trigger] cnt@[i]@[mm] == s.take(j as int).filter(
                        of_provider_in_bucket(start, width, count, i, l[mm]),
                    ).len() && cnt@[i]@[mm] <= j,
            decreases n - j,
        {
            let x = &self.inner[j];
            let ghost mut hit_i: int = -1;
            let ghost mut hit_m: int = -1;
            if x.ts_unix >= g.start {
                let idx = index_of(x.ts_unix, &g);
                let mut c: usize = 0;
                while c < m && providers[c] != x.provider
                    invariant
                        c <= m,
                        m == providers@.len(),
                        forall|k2: int| 0 <= k2 < c ==> #[trigger] providers@[k2]@ != x.provider@,
                    decreases m - c,
                {
                    c = c + 1;
                }
                if c < m {
                    proof {
                        hit_i = idx as int;
                        hit_m = c as int;
                        assert(cnt@[idx as int]@[c as int] <= j);
                    }
                    let v = cnt[idx][c];
                    cnt[idx].set(c, v + 1);
                }
                proof {
                    if c >= m {
                        assert(!l.contains(x.provider@)) by {
                            if l.contains(x.provider@) {
                                let k2 = choose|k2: int| 0 <= k2 < l.len() && l[k2] == x.provider@;
                                assert(providers@[k2]@ == x.provider@);
                            }
                        }
                    }
                    if hit_m < 0 {
                        hit_i = idx as int;
                    }
                }
            }
            proof {
                assert forall|i: int, mm: int| 0 <= i < count && 0 <= mm < m implies #[trigger] cnt@[i]@[mm]
                    == s.take(j + 1).filter(of_provider_in_bucket(start, width, count, i, l[mm])).len()
                    && cnt@[i]@[mm] <= j + 1 by {
                    let p = of_provider_in_bucket(start, width, count, i, l[mm]);
                    lemma_filter_step(s, j as int, p);
                    if p(s[j as int]) {
                        assert(x.ts_unix >= g.start);
                        assert(hit_i == i);
                        if hit_m < 0 {
                            assert(l[mm] == x.provider@);
                            assert(l.contains(x.provider@));
                        }
                        if hit_m != mm {
                            assert(l[hit_m] == x.provider@);
                            if hit_m < mm {
                                assert(l[hit_m] != l[mm]);
                            } else {
                                assert(l[mm] != l[hit_m]);
                            }
                        }
                    } else {
                        if hit_m >= 0 && hit_i == i && hit_m == mm {
                            assert(l[mm] == x.provider@);
                        }
                    }
                }
            }
            j = j + 1;
        }
        assert(s.take(n as int) =~= s);
        assert forall|a: int, b2: int| 0 <= a < b2 < providers@.len() implies providers@[a]@ != providers@[b2]@ by {
            assert(l[a] == providers@[a]@ && l[b2] == providers@[b2]@);
        }
        // One column per bucket.
        let mut buckets: Vec<HeatmapBucket> = Vec::new();
        let mut i: usize = 0;
        while i < g.count
            invariant
                i <= g.count,
                s == self@,
                start == g.start,
                width == g.width,
                count == g.count,
                start + (count - 1) * width < now,
                1 <= now - start <= i64::MAX,
                count <= now - start,
                width >= 1,
                l == string_views(providers@),
                m == l.len(),
                forall|a: int, b2: int| 0 <= a < b2 < l.len() ==> l[a] != l[b2],
                forall|a: int, b2: int| 0 <= a < b2 < providers@.len() ==> providers@[a]@ != providers@[b2]@,
                cnt@.len() == count,
                forall|i2: int| 0 <= i2 < count ==> (#[trigger] cnt@[i2])@.len() == m,
                forall|i2: int, mm: int|
                    0 <= i2 < count && 0 <= mm < m ==> #[trigger] cnt@[i2]@[mm] == bucket_calls(
                        s,
                        start,
                        width,
                        count,
                        i2,
                        l[mm],
                    ),
                buckets@.len() == i,
                forall|i2: int|
                    0 <= i2 < i ==> (#[trigger] buckets@[i2]).ts == start + i2 * width && heatmap_cells_match(
                        buckets@[i2].values@,
                        l,
                        s,
                        start,
                        width,
                        count,
                        i2,
                    ),
            decreases g.count - i,
        {
            proof {
                assert(i * width <= (count - 1) * width) by (nonlinear_arith)
                    requires
                        i <= count - 1,
                        width >= 1,
                ;
            }
            let ts = g.start + (i as i64) * g.width;
            let values = heatmap_column(&providers, &cnt[i], Ghost(s), Ghost(start), Ghost(width), Ghost(count), Ghost(i as int));
            buckets.push(HeatmapBucket { ts, values });
            i = i + 1;
        }
        HeatmapResponse { providers, buckets }
    }

    /// `query_heatmap_at` at the current time.
    pub fn query_heatmap(&self, range_secs: i64, bucket_secs: i64) -> (res: HeatmapResponse)
        requires
            bucket_total(range_secs, bucket_secs) <= usize::MAX,
        ensures
            exists|now: i64| now >= 0 && #[trigger] heatmap_at_spec(res, self@, now, range_secs, bucket_secs),
    {
        let now = now_unix();
        let r = self.query_heatmap_at(now, range_secs, bucket_secs);
        assert(heatmap_at_spec(r, self@, now, range_secs, bucket_secs));
        r
    }

    /// Up to `limit` most recent errors (status >= 400), newest first.
    pub fn query_recent_errors(&self, limit: usize) -> (res: Vec<ErrorSample>)
        ensures
            res@ == recent_errors_spec(self@, limit as int),
    {
        let ghost s = self.inner@;
        let ghost p = is_error();
        let n = self.inner.len();
        let mut out: Vec<ErrorSample> = Vec::new();
        let mut i: usize = n;
        while i > 0 && out.len() < limit
            invariant
                n == s.len(),
                s == self.inner@,
                p == is_error(),
                i <= n,
                out.len() <= limit,
                out@ == s.subrange(i as int, n as int).reverse().filter(p).map_values(
                    |x: MetricSample| error_of(x),
                ),
            decreases i,
        {
            i = i - 1;
            let x = &self.inner[i];
            proof {
                let a = s.subrange(i + 1, n as int).reverse();
                assert(s.subrange(i as int, n as int).reverse() =~= a.push(s[i as int]));
                a.lemma_filter_push(s[i as int], p);
            }
            if x.status >= 400 {
                out.push(
                    ErrorSample {
                        ts: x.ts_unix,
                        provider: x.provider.clone(),
                        status: x.status,
                        duration_ms: x.duration_ms,
                    },
                );
            }
            assert(out@ =~= s.subrange(i as int, n as int).reverse().filter(p).map_values(
                |x: MetricSample| error_of(x),
            ));
        }
        proof {
            let f = s.subrange(i as int, n as int).reverse();
            let g = s.subrange(0, i as int).reverse();
            assert(s.reverse() =~= f + g);
            vstd::seq::Seq::filter_distributes_over_add(f, g, p);
            if out.len() < limit {
                assert(i == 0);
                assert(g =~= Seq::<MetricSample>::empty());
                assert(g.filter(p) =~= Seq::<MetricSample>::empty()) by {
                    g.lemma_filter_len(p);
                }
                assert(s.reverse().filter(p) =~= f.filter(p));
            } else {
                assert((f.filter(p) + g.filter(p)).take(limit as int) =~= f.filter(p));
            }
        }
        out
    }
}

// ------------------------------------------------------------------ laws

/// Clearing with both bounds open removes every sample.
pub proof fn law_clear_unbounded_empties(s: Seq<MetricSample>)
    ensures
        s.filter(kept_by_clear(None, None)) == Seq::<MetricSample>::empty(),
{
    let f = s.filter(kept_by_clear(None, None));
    if f.len() > 0 {
        s.lemma_filter_pred(kept_by_clear(None, None), 0);
    }
    assert(f =~= Seq::<MetricSample>::empty());
}

/// A clear keeps exactly the samples whose timestamp lies outside the
/// window, and removes as many samples as it does not keep.
pub proof fn law_clear_keeps_outside_window(s: Seq<MetricSample>, since: Option<i64>, until: Option<i64>, x: MetricSample)
    ensures
        s.filter(kept_by_clear(since, until)).contains(x) <==> (s.contains(x) && !in_range(x.ts_unix, since, until)),
        s.filter(kept_by_clear(since, until)).len() <= s.len(),
{
    let p = kept_by_clear(since, until);
    let f = s.filter(p);
    s.lemma_filter_len(p);
    if f.contains(x) {
        s.lemma_filter_contains_rev(p, x);
        let j = choose|j: int| 0 <= j < f.len() && f[j] == x;
        s.lemma_filter_pred(p, j);
    }
    if s.contains(x) && !in_range(x.ts_unix, since, until) {
        let j = choose|j: int| 0 <= j < s.len() && s[j] == x;
        s.lemma_filter_contains(p, j);
    }
}

proof fn lemma_hits_and_misses(bs: Seq<MetricSample>)
    ensures
        bs.filter(is_hit()).len() + bs.filter(is_miss()).len() == bs.len(),
    decreases bs.len(),
{
    if bs.len() > 0 {
        let a = bs.drop_last();
        lemma_hits_and_misses(a);
        assert(bs =~= a.push(bs.last()));
        a.lemma_filter_push(bs.last(), is_hit());
        a.lemma_filter_push(bs.last(), is_miss());
    } else {
        bs.lemma_filter_len(is_hit());
        bs.lemma_filter_len(is_miss());
    }
}

/// In every timeseries bucket, hits and misses add up to the calls.
pub proof fn law_bucket_hits_plus_misses(b: TimeseriesBucket, ts: int, bs: Seq<MetricSample>)
    requires
        timeseries_bucket_matches(b, ts, bs),
    ensures
        b.hits + b.misses == b.calls,
        b.errors <= b.calls,
{
    lemma_hits_and_misses(bs);
    bs.lemma_filter_len(is_error());
}

proof fn lemma_status_classes(bs: Seq<MetricSample>)
    ensures
        bs.filter(is_2xx()).len() + bs.filter(is_4xx()).len() + bs.filter(is_5xx()).len() <= bs.len(),
    decreases bs.len(),
{
    if bs.len() > 0 {
        let a = bs.drop_last();
        lemma_status_classes(a);
        assert(bs =~= a.push(bs.last()));
        a.lemma_filter_push(bs.last(), is_2xx());
        a.lemma_filter_push(bs.last(), is_4xx());
        a.lemma_filter_push(bs.last(), is_5xx());
    } else {
        bs.lemma_filter_len(is_2xx());
        bs.lemma_filter_len(is_4xx());
        bs.lemma_filter_len(is_5xx());
    }
}

/// The status classes of a bucket are disjoint: together they count no more
/// samples than the bucket holds.
pub proof fn law_status_classes_disjoint(b: StatusCodeBucket, ts: int, bs: Seq<MetricSample>)
    requires
        status_bucket_matches(b, ts, bs),
    ensures
        b.ok_2xx + b.client_4xx + b.server_5xx <= bs.len(),
{
    lemma_status_classes(bs);
}

/// The recent-errors listing holds at most `limit` entries, each with an
/// error status.
pub proof fn law_recent_errors_are_errors(s: Seq<MetricSample>, limit: int, k: int)
    requires
        limit >= 0,
    ensures
        recent_errors_spec(s, limit).len() <= limit,
        0 <= k < recent_errors_spec(s, limit).len() ==> recent_errors_spec(s, limit)[k].status >= 400,
{
    let f = s.reverse().filter(is_error());
    if 0 <= k < recent_errors_spec(s, limit).len() {
        s.reverse().lemma_filter_pred(is_error(), k);
    }
}

/// After a sample is recorded it is the newest one, and the ring never grows
/// past its capacity.
pub proof fn law_record_appends(s: Seq<MetricSample>, x: MetricSample)
    requires
        s.len() <= RING_CAPACITY,
    ensures
        ({
            let t = if s.len() >= RING_CAPACITY {
                s.drop_first().push(x)
            } else {
                s.push(x)
            };
            t.last() == x && t.len() <= RING_CAPACITY && (s.len() < RING_CAPACITY ==> t.drop_last() == s)
        }),
{
    if s.len() < RING_CAPACITY {
        assert(s.push(x).drop_last() =~= s);
    }
}

/// The heatmap lists at most ten providers, each with calls in the window,
/// and every cell of a column belongs to a listed provider.
pub proof fn law_heatmap_lists_top_ten(
    res: HeatmapResponse,
    s: Seq<MetricSample>,
    now: i64,
    range_secs: i64,
    bucket_secs: i64,
    i: int,
    t: int,
)
    requires
        heatmap_at_spec(res, s, now, range_secs, bucket_secs),
        0 <= i < res.buckets@.len(),
        0 <= t < res.buckets@[i].values@.len(),
    ensures
        res.providers@.len() <= 10,
        string_views(res.providers@).contains(res.buckets@[i].values@[t].provider@),
{
    assert(string_views(res.providers@).len() == res.providers@.len());
}

/// In every bucket the median latency is at most the 95th percentile.
pub proof fn law_bucket_percentiles_ordered(b: TimeseriesBucket, ts: int, bs: Seq<MetricSample>)
    requires
        timeseries_bucket_matches(b, ts, bs),
    ensures
        b.p50_ms <= b.p95_ms,
{
    crate::percentile::law_percentiles_are_ordered(durations(bs), 50, 95);
}

/// A provider's errors and hits never exceed its calls, and its median
/// latency is at most its 95th percentile.
pub proof fn law_provider_counts_bounded(c: ProviderCounts, s: Seq<MetricSample>, start: int)
    requires
        provider_counts_match(c, s, start),
    ensures
        c.errors <= c.calls,
        c.hits <= c.calls,
        c.p50_ms <= c.p95_ms,
{
    let ps = s.filter(of_provider(start, c.provider@));
    ps.lemma_filter_len(is_error());
    ps.lemma_filter_len(is_hit());
    crate::percentile::law_percentiles_are_ordered(durations(ps), 50, 95);
}


// ------------------------------------------------------- partition laws

/// Whether a sample satisfies `q`, is in the window starting at `start` and
/// falls in bucket `i`.
pub open spec fn selected_in_bucket(
    q: spec_fn(MetricSample) -> bool,
    start: int,
    width: int,
    count: int,
    i: int,
) -> spec_fn(MetricSample) -> bool {
    |x: MetricSample| q(x) && x.ts_unix >= start && bucket_of(x.ts_unix as int, start, width, count) == i
}

/// Whether a sample satisfies `q` and is in the window starting at `start`.
pub open spec fn selected_in_window(q: spec_fn(MetricSample) -> bool, start: int) -> spec_fn(MetricSample) -> bool {
    |x: MetricSample| q(x) && x.ts_unix >= start
}

/// How many samples of `s` satisfying `q` fall in the first `n` buckets.
pub open spec fn bucket_sum(
    s: Seq<MetricSample>,
    q: spec_fn(MetricSample) -> bool,
    start: int,
    width: int,
    count: int,
    n: int,
) -> int
    decreases n,
{
    if n <= 0 {
        0
    } else {
        bucket_sum(s, q, start, width, count, n - 1) + s.filter(selected_in_bucket(q, start, width, count, n - 1)).len()
    }
}

proof fn lemma_bucket_sum_empty(q: spec_fn(MetricSample) -> bool, start: int, width: int, count: int, n: int)
    ensures
        bucket_sum(Seq::<MetricSample>::empty(), q, start, width, count, n) == 0,
    decreases n,
{
    if n > 0 {
        lemma_bucket_sum_empty(q, start, width, count, n - 1);
        let e = Seq::<MetricSample>::empty();
        e.lemma_filter_len(selected_in_bucket(q, start, width, count, n - 1));
    }
}

proof fn lemma_bucket_sum_push(
    a: Seq<MetricSample>,
    x: MetricSample,
    q: spec_fn(MetricSample) -> bool,
    start: int,
    width: int,
    count: int,
    n: int,
)
    requires
        count >= 1,
        n >= 0,
    ensures
        bucket_sum(a.push(x), q, start, width, count, n) == bucket_sum(a, q, start, width, count, n) + (if q(x)
            && x.ts_unix >= start && bucket_of(x.ts_unix as int, start, width, count) < n {
            1int
        } else {
            0int
        }),
    decreases n,
{
    if n > 0 {
        lemma_bucket_sum_push(a, x, q, start, width, count, n - 1);
        a.lemma_filter_len_push(selected_in_bucket(q, start, width, count, n - 1), x);
    }
}

/// Every sample of the window lies in exactly one of the `count` buckets, so
/// the buckets' counts add up to the window's.
proof fn lemma_buckets_partition(s: Seq<MetricSample>, q: spec_fn(MetricSample) -> bool, start: int, width: int, count: int)
    requires
        count >= 1,
    ensures
        bucket_sum(s, q, start, width, count, count) == s.filter(selected_in_window(q, start)).len(),
    decreases s.len(),
{
    if s.len() == 0 {
        lemma_bucket_sum_empty(q, start, width, count, count);
        assert(s =~= Seq::<MetricSample>::empty());
        s.lemma_filter_len(selected_in_window(q, start));
    } else {
        let a = s.drop_last();
        let x = s.last();
        assert(s =~= a.push(x));
        lemma_buckets_partition(a, q, start, width, count);
        lemma_bucket_sum_push(a, x, q, start, width, count, count);
        a.lemma_filter_len_push(selected_in_window(q, start), x);
    }
}

/// Total calls over a sequence of timeseries buckets.
pub open spec fn calls_sum(b: Seq<TimeseriesBucket>) -> int
    decreases b.len(),
{
    if b.len() == 0 {
        0
    } else {
        calls_sum(b.drop_last()) + b.last().calls
    }
}

/// Every sample.
pub open spec fn any_sample() -> spec_fn(MetricSample) -> bool {
    |x: MetricSample| true
}

proof fn lemma_timeseries_prefix(res: Seq<TimeseriesBucket>, s: Seq<MetricSample>, now: i64, range_secs: i64, bucket_secs: i64, n: int)
    requires
        timeseries_at_spec(res, s, now, range_secs, bucket_secs),
        0 <= n <= res.len(),
    ensures
        calls_sum(res.take(n)) == bucket_sum(
            s,
            any_sample(),
            window_start(now, range_secs),
            at_least_one(bucket_secs),
            bucket_total(range_secs, bucket_secs),
            n,
        ),
    decreases n,
{
    if n > 0 {
        lemma_timeseries_prefix(res, s, now, range_secs, bucket_secs, n - 1);
        assert(res.take(n).drop_last() =~= res.take(n - 1));
        let start = window_start(now, range_secs);
        let w = at_least_one(bucket_secs);
        let c = bucket_total(range_secs, bucket_secs);
        assert(timeseries_bucket_matches(res[n - 1], start + (n - 1) * w, s.filter(in_bucket(start, w, c, n - 1))));
        assert(in_bucket(start, w, c, n - 1) =~= selected_in_bucket(any_sample(), start, w, c, n - 1));
    }
}

/// Every sample of the window is counted in exactly one timeseries bucket
/// (samples dated past the window's end in the last one): the buckets'
/// calls add up to the number of samples in the window.
pub proof fn law_timeseries_calls_cover_window(
    res: Seq<TimeseriesBucket>,
    s: Seq<MetricSample>,
    now: i64,
    range_secs: i64,
    bucket_secs: i64,
)
    requires
        timeseries_at_spec(res, s, now, range_secs, bucket_secs),
    ensures
        calls_sum(res) == s.filter(in_window(window_start(now, range_secs))).len(),
{
    let start = window_start(now, range_secs);
    let w = at_least_one(bucket_secs);
    let c = bucket_total(range_secs, bucket_secs);
    lemma_timeseries_prefix(res, s, now, range_secs, bucket_secs, res.len() as int);
    assert(res.take(res.len() as int) =~= res);
    lemma_buckets_partition(s, any_sample(), start, w, c);
    assert(selected_in_window(any_sample(), start) =~= in_window(start));
}

/// Calls of provider `p` summed over the first `n` buckets.
pub open spec fn provider_bucket_sum(s: Seq<MetricSample>, start: int, width: int, count: int, p: Seq<char>, n: int) -> int
    decreases n,
{
    if n <= 0 {
        0
    } else {
        provider_bucket_sum(s, start, width, count, p, n - 1) + bucket_calls(s, start, width, count, n - 1, p)
    }
}

/// The samples of provider `p`.
pub open spec fn from_provider(p: Seq<char>) -> spec_fn(MetricSample) -> bool {
    |x: MetricSample| x.provider@ == p
}

proof fn lemma_provider_prefix(s: Seq<MetricSample>, start: int, width: int, count: int, p: Seq<char>, n: int)
    requires
        n >= 0,
    ensures
        provider_bucket_sum(s, start, width, count, p, n) == bucket_sum(s, from_provider(p), start, width, count, n),
    decreases n,
{
    if n > 0 {
        lemma_provider_prefix(s, start, width, count, p, n - 1);
        assert(of_provider_in_bucket(start, width, count, n - 1, p) =~= selected_in_bucket(
            from_provider(p),
            start,
            width,
            count,
            n - 1,
        ));
    }
}

/// Whether the cells `v` include one for provider `p`.
pub open spec fn has_cell(v: Seq<HeatmapCell>, p: Seq<char>) -> bool {
    exists|t: int| 0 <= t < v.len() && #[trigger] v[t].provider@ == p
}

/// In the heatmap each provider's calls in the window are split across the
/// buckets: a listed provider has a cell in a bucket exactly when it has
/// calls there (the cell holding that number), and its per-bucket calls add
/// up to its total in the window.
pub proof fn law_heatmap_cells_sum_to_provider_calls(
    res: HeatmapResponse,
    s: Seq<MetricSample>,
    now: i64,
    range_secs: i64,
    bucket_secs: i64,
    p: Seq<char>,
)
    requires
        heatmap_at_spec(res, s, now, range_secs, bucket_secs),
    ensures
        provider_bucket_sum(
            s,
            window_start(now, range_secs),
            at_least_one(bucket_secs),
            bucket_total(range_secs, bucket_secs),
            p,
            res.buckets@.len() as int,
        ) == provider_calls(s, window_start(now, range_secs), p),
        forall|i: int|
            0 <= i < res.buckets@.len() && string_views(res.providers@).contains(p) ==> (#[trigger] has_cell(
                res.buckets@[i].values@,
                p,
            ) <==> bucket_calls(
                s,
                window_start(now, range_secs),
                at_least_one(bucket_secs),
                bucket_total(range_secs, bucket_secs),
                i,
                p,
            ) > 0),
{
    let start = window_start(now, range_secs);
    let w = at_least_one(bucket_secs);
    let c = bucket_total(range_secs, bucket_secs);
    lemma_provider_prefix(s, start, w, c, p, c);
    lemma_buckets_partition(s, from_provider(p), start, w, c);
    assert(selected_in_window(from_provider(p), start) =~= of_provider(start, p));
    let l = string_views(res.providers@);
    assert forall|i: int|
        0 <= i < res.buckets@.len() && l.contains(p) implies (#[trigger] has_cell(res.buckets@[i].values@, p)
        <==> bucket_calls(s, start, w, c, i, p) > 0) by {
        let v = res.buckets@[i].values@;
        let m = choose|m: int| 0 <= m < l.len() && l[m] == p;
        assert(heatmap_cells_match(v, l, s, start, w, c, i));
        if has_cell(v, p) {
            let t = choose|t: int| 0 <= t < v.len() && #[trigger] v[t].provider@ == p;
            assert(l.contains(v[t].provider@));
        }
        if bucket_calls(s, start, w, c, i, l[m]) > 0 {
            let t = choose|t: int| 0 <= t < v.len() && #[trigger] v[t].provider@ == l[m];
            assert(v[t].provider@ == p);
        }
    }
}

/// The heatmap's providers are the top of the ranking (more calls first,
/// ties by name): none is listed twice, each listed provider ranks before
/// every provider with calls that is left out, and providers are left out
/// only when ten are listed.
pub proof fn law_heatmap_top_providers(
    res: HeatmapResponse,
    s: Seq<MetricSample>,
    now: i64,
    range_secs: i64,
    bucket_secs: i64,
    p: Seq<char>,
    q: Seq<char>,
)
    requires
        heatmap_at_spec(res, s, now, range_secs, bucket_secs),
    ensures
        forall|t: int, u: int|
            0 <= t < u < res.providers@.len() ==> string_views(res.providers@)[t] != string_views(res.providers@)[u],
        string_views(res.providers@).contains(p) && provider_calls(s, window_start(now, range_secs), q) > 0
            && !string_views(res.providers@).contains(q) ==> rank_before(
            p,
            provider_calls(s, window_start(now, range_secs), p),
            q,
            provider_calls(s, window_start(now, range_secs), q),
        ),
        provider_calls(s, window_start(now, range_secs), q) > 0 && res.providers@.len() < 10
            ==> string_views(res.providers@).contains(q),
{
    let l = string_views(res.providers@);
    let start = window_start(now, range_secs);
    assert(l.len() == res.providers@.len());
    if l.contains(p) && provider_calls(s, start, q) > 0 && !l.contains(q) {
        let t = choose|t: int| 0 <= t < l.len() && l[t] == p;
        assert(rank_before(l[t], provider_calls(s, start, l[t]), q, provider_calls(s, start, q)));
    }
}

/// The status-code series and the timeseries of the same window line up:
/// as many buckets, starting at the same times.
pub proof fn law_status_codes_align_with_timeseries(
    t: Seq<TimeseriesBucket>,
    c: Seq<StatusCodeBucket>,
    s: Seq<MetricSample>,
    now: i64,
    range_secs: i64,
    bucket_secs: i64,
)
    requires
        timeseries_at_spec(t, s, now, range_secs, bucket_secs),
        status_codes_at_spec(c, s, now, range_secs, bucket_secs),
    ensures
        t.len() == c.len(),
        forall|i: int| 0 <= i < t.len() ==> #[trigger] t[i].ts == c[i].ts,
{
    let start = window_start(now, range_secs);
    let w = at_least_one(bucket_secs);
    let n = bucket_total(range_secs, bucket_secs);
    assert forall|i: int| 0 <= i < t.len() implies #[trigger] t[i].ts == c[i].ts by {
        assert(timeseries_bucket_matches(t[i], start + i * w, s.filter(in_bucket(start, w, n, i))));
        assert(status_bucket_matches(c[i], start + i * w, s.filter(in_bucket(start, w, n, i))));
    }
}

/// A range or bucket width below one second acts as one second: the series
/// for the given arguments is the series for the arguments raised to 1.
pub proof fn law_timeseries_clamps_widths(
    res: Seq<TimeseriesBucket>,
    s: Seq<MetricSample>,
    now: i64,
    range_secs: i64,
    bucket_secs: i64,
)
    ensures
        timeseries_at_spec(res, s, now, range_secs, bucket_secs) == timeseries_at_spec(
            res,
            s,
            now,
            at_least_one(range_secs) as i64,
            at_least_one(bucket_secs) as i64,
        ),
{
    let r1 = at_least_one(range_secs) as i64;
    let b1 = at_least_one(bucket_secs) as i64;
    assert(at_least_one(r1) == at_least_one(range_secs));
    assert(at_least_one(b1) == at_least_one(bucket_secs));
    assert(window_start(now, r1) == window_start(now, range_secs));
    assert(bucket_total(r1, b1) == bucket_total(range_secs, bucket_secs));
}

/// The same holds of the status-code series and the heatmap: arguments
/// below one second act as one second.
pub proof fn law_status_and_heatmap_clamp_widths(
    c: Seq<StatusCodeBucket>,
    h: HeatmapResponse,
    s: Seq<MetricSample>,
    now: i64,
    range_secs: i64,
    bucket_secs: i64,
)
    ensures
        status_codes_at_spec(c, s, now, range_secs, bucket_secs) == status_codes_at_spec(
            c,
            s,
            now,
            at_least_one(range_secs) as i64,
            at_least_one(bucket_secs) as i64,
        ),
        heatmap_at_spec(h, s, now, range_secs, bucket_secs) == heatmap_at_spec(
            h,
            s,
            now,
            at_least_one(range_secs) as i64,
            at_least_one(bucket_secs) as i64,
        ),
{
    let r1 = at_least_one(range_secs) as i64;
    let b1 = at_least_one(bucket_secs) as i64;
    assert(at_least_one(r1) == at_least_one(range_secs));
    assert(at_least_one(b1) == at_least_one(bucket_secs));
    assert(window_start(now, r1) == window_start(now, range_secs));
    assert(bucket_total(r1, b1) == bucket_total(range_secs, bucket_secs));
}

/// Clearing a window twice removes nothing the second time.
pub proof fn law_clear_twice_removes_nothing(s: Seq<MetricSample>, since: Option<i64>, until: Option<i64>)
    ensures
        s.filter(kept_by_clear(since, until)).filter(kept_by_clear(since, until)) == s.filter(kept_by_clear(since, until)),
{
    let p = kept_by_clear(since, until);
    let f = s.filter(p);
    assert forall|i: int| 0 <= i < f.len() implies #[trigger] p(f[i]) by {
        s.lemma_filter_pred(p, i);
    }
    lemma_filter_keeps_all(f, p);
}

/// A window whose start lies after its end holds no timestamp: clearing it
/// removes nothing.
pub proof fn law_clear_empty_window_removes_nothing(s: Seq<MetricSample>, since: i64, until: i64)
    requires
        since > until,
    ensures
        s.filter(kept_by_clear(Some(since), Some(until))) == s,
{
    let p = kept_by_clear(Some(since), Some(until));
    assert forall|i: int| 0 <= i < s.len() implies #[trigger] p(s[i]) by {}
    lemma_filter_keeps_all(s, p);
}

/// The number of samples a clear removes is the number of samples whose
/// timestamp lies in the window; with both bounds open that is all of them.
pub proof fn law_clear_removes_the_window(s: Seq<MetricSample>, since: Option<i64>, until: Option<i64>)
    ensures
        s.len() - s.filter(kept_by_clear(since, until)).len() == s.filter(in_clear_window(since, until)).len(),
        s.filter(in_clear_window(None, None)).len() == s.len(),
{
    lemma_filter_split(s, since, until);
    lemma_filter_split(s, None, None);
    law_clear_unbounded_empties(s);
}

/// Whether a sample's timestamp lies in the window of a clear.
pub open spec fn in_clear_window(since: Option<i64>, until: Option<i64>) -> spec_fn(MetricSample) -> bool {
    |x: MetricSample| in_range(x.ts_unix, since, until)
}

proof fn lemma_filter_keeps_all(f: Seq<MetricSample>, p: spec_fn(MetricSample) -> bool)
    requires
        forall|i: int| 0 <= i < f.len() ==> #[trigger] p(f[i]),
    ensures
        f.filter(p) == f,
    decreases f.len(),
{
    if f.len() == 0 {
        f.lemma_filter_len(p);
        assert(f.filter(p) =~= f);
    } else {
        let a = f.drop_last();
        assert(f =~= a.push(f.last()));
        assert forall|i: int| 0 <= i < a.len() implies #[trigger] p(a[i]) by {
            assert(p(f[i]));
        }
        lemma_filter_keeps_all(a, p);
        a.lemma_filter_push(f.last(), p);
        assert(p(f[f.len() - 1]));
    }
}

proof fn lemma_filter_split(s: Seq<MetricSample>, since: Option<i64>, until: Option<i64>)
    ensures
        s.filter(kept_by_clear(since, until)).len() + s.filter(in_clear_window(since, until)).len() == s.len(),
    decreases s.len(),
{
    if s.len() == 0 {
        s.lemma_filter_len(kept_by_clear(since, until));
        s.lemma_filter_len(in_clear_window(since, until));
    } else {
        let a = s.drop_last();
        assert(s =~= a.push(s.last()));
        lemma_filter_split(a, since, until);
        a.lemma_filter_len_push(kept_by_clear(since, until), s.last());
        a.lemma_filter_len_push(in_clear_window(since, until), s.last());
    }
}

/// A bucket's latency percentiles are durations of samples in the bucket
/// (0 for an empty bucket).
pub proof fn law_bucket_percentiles_are_samples(b: TimeseriesBucket, ts: int, bs: Seq<MetricSample>)
    requires
        timeseries_bucket_matches(b, ts, bs),
    ensures
        bs.len() == 0 ==> b.p50_ms == 0 && b.p95_ms == 0,
        bs.len() > 0 ==> durations(bs).contains(b.p50_ms) && durations(bs).contains(b.p95_ms),
{
    if bs.len() > 0 {
        crate::percentile::law_percentile_is_a_sample(durations(bs), 50);
        crate::percentile::law_percentile_is_a_sample(durations(bs), 95);
    }
}

proof fn lemma_reverse_filter(s: Seq<MetricSample>, p: spec_fn(MetricSample) -> bool)
    ensures
        s.reverse().filter(p) == s.filter(p).reverse(),
    decreases s.len(),
{
    if s.len() == 0 {
        s.lemma_filter_len(p);
        assert(s.reverse() =~= s);
        assert(s.filter(p).reverse() =~= s.filter(p));
    } else {
        let x = s[0];
        let r = s.drop_first();
        lemma_reverse_filter(r, p);
        assert(s =~= seq![x] + r);
        assert(s.reverse() =~= r.reverse().push(x));
        r.reverse().lemma_filter_push(x, p);
        Seq::filter_distributes_over_add(seq![x], r, p);
        let e = Seq::<MetricSample>::empty();
        assert(seq![x] =~= e.push(x));
        e.lemma_filter_push(x, p);
        e.lemma_filter_len(p);
        assert(e.filter(p) =~= e);
        let f = r.filter(p);
        if p(x) {
            assert((seq![x] + f).reverse() =~= f.reverse().push(x));
        } else {
            assert(e + f =~= f);
        }
    }
}

/// The recent-errors listing is the store's errors taken newest first and
/// cut at `limit`, with no time window.
pub proof fn law_recent_errors_newest_first(s: Seq<MetricSample>, limit: int)
    ensures
        recent_errors_spec(s, limit) == ({
            let e = s.filter(is_error()).reverse();
            let t = if limit < e.len() {
                e.take(limit)
            } else {
                e
            };
            t.map_values(|x: MetricSample| error_of(x))
        }),
{
    lemma_reverse_filter(s, is_error());
}

} // verus!
