//! The public capability listing: each provider's 24-hour health joined to
//! the static inventory.
use vstd::prelude::*;
use crate::metrics::{ProviderCounts, TimeseriesBucket};
use crate::text::str_eq;

verus! {

/// The availability of a provider over 24 hours, by its calls and errors:
/// no calls is `no-traffic`; with at least 10 calls, an error rate above one
/// half is `down` and above one fifth is `degraded`; otherwise `healthy`.
/// The error-rate comparisons are made exactly, on the integers.
pub open spec fn availability_spec(calls: u64, errors: u64) -> Seq<char> {
    if calls == 0 {
        "no-traffic"@
    } else if calls >= 10 && 2 * errors > calls {
        "down"@
    } else if calls >= 10 && 5 * errors > calls {
        "degraded"@
    } else {
        "healthy"@
    }
}

/// Classifies a provider's availability from its 24-hour calls and errors.
pub fn classify_availability(calls: u64, errors: u64) -> (res: &'static str)
    ensures
        res@ == availability_spec(calls, errors),
{
    if calls == 0 {
        return "no-traffic";
    }
    let c: u128 = calls as u128;
    let e: u128 = errors as u128;
    if calls >= 10 && 2 * e > c {
        "down"
    } else if calls >= 10 && 5 * e > c {
        "degraded"
    } else {
        "healthy"
    }
}

/// The 24-hour statistics shown for one provider (its hit ratio is
/// `hits / calls`, 0 without calls).
pub struct ProviderStats24h {
    pub calls: u64,
    pub errors: u64,
    pub hits: u64,
    pub p50_ms: u32,
    pub p95_ms: u32,
    pub availability: &'static str,
}

/// The first entry of `s` from index `i` on that belongs to provider `id`.
pub open spec fn counts_lookup(s: Seq<ProviderCounts>, id: Seq<char>, i: int) -> Option<ProviderCounts>
    decreases s.len() - i,
{
    if i < 0 || i >= s.len() {
        None
    } else if s[i].provider@ == id {
        Some(s[i])
    } else {
        counts_lookup(s, id, i + 1)
    }
}

/// The statistics of provider `id`: those of its entry among the
/// per-provider counts, with its availability; all zero and `no-traffic`
/// when it has no entry.
pub fn stats_for_provider(id: &str, per_provider: &[ProviderCounts]) -> (res: ProviderStats24h)
    ensures
        match counts_lookup(per_provider@, id@, 0) {
            Some(c) => {
                &&& res.calls == c.calls
                &&& res.errors == c.errors
                &&& res.hits == c.hits
                &&& res.p50_ms == c.p50_ms
                &&& res.p95_ms == c.p95_ms
                &&& res.availability@ == availability_spec(c.calls, c.errors)
            },
            None => {
                &&& res.calls == 0
                &&& res.errors == 0
                &&& res.hits == 0
                &&& res.p50_ms == 0
                &&& res.p95_ms == 0
                &&& res.availability@ == "no-traffic"@
            },
        },
{
    let mut i: usize = 0;
    while i < per_provider.len()
        invariant
            i <= per_provider@.len(),
            counts_lookup(per_provider@, id@, 0) == counts_lookup(per_provider@, id@, i as int),
        decreases per_provider@.len() - i,
    {
        let c = &per_provider[i];
        if str_eq(c.provider.as_str(), id) {
            return ProviderStats24h {
                calls: c.calls,
                errors: c.errors,
                hits: c.hits,
                p50_ms: c.p50_ms,
                p95_ms: c.p95_ms,
                availability: classify_availability(c.calls, c.errors),
            };
        }
        i = i + 1;
    }
    ProviderStats24h { calls: 0, errors: 0, hits: 0, p50_ms: 0, p95_ms: 0, availability: "no-traffic" }
}

/// The global median and 95th-percentile latencies: those of the first
/// (single, 24-hour) timeseries bucket, or zeros without one.
pub fn global_percentiles(buckets: &[TimeseriesBucket]) -> (res: (u32, u32))
    ensures
        buckets@.len() > 0 ==> res == (buckets@[0].p50_ms, buckets@[0].p95_ms),
        buckets@.len() == 0 ==> res == (0u32, 0u32),
{
    if buckets.len() > 0 {
        (buckets[0].p50_ms, buckets[0].p95_ms)
    } else {
        (0, 0)
    }
}

} // verus!
