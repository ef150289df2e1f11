use tokimo_server::metrics::{bucket_count_fits, now_unix, MetricSample, MetricsStore};

fn sample(provider: &str, status: u16, duration_ms: u32, cache_hit: bool, ts_offset: i64) -> MetricSample {
    MetricSample {
        ts_unix: now_unix() + ts_offset,
        provider: provider.to_string(),
        status,
        duration_ms,
        cache_hit,
    }
}

#[test]
fn test_timeseries_includes_percentiles() {
    let mut store = MetricsStore::new();
    for (i, dur) in [10u32, 20, 30, 40, 50, 60, 70, 80, 90, 100].iter().enumerate() {
        store.record(sample("wikipedia", 200, *dur, false, -(i as i64)));
    }

    let buckets = store.query_timeseries(3600, 3600);
    assert_eq!(buckets.len(), 1);
    let b = &buckets[0];
    assert_eq!(b.calls, 10);
    assert_eq!(b.p50_ms, 60);
    assert_eq!(b.p95_ms, 100);

    let empty = MetricsStore::new().query_timeseries(3600, 3600);
    assert_eq!(empty[0].p50_ms, 0);
    assert_eq!(empty[0].p95_ms, 0);
}

#[test]
fn test_heatmap_top_10_and_buckets() {
    let mut store = MetricsStore::new();
    for i in 0..12u32 {
        let name = format!("provider_{:02}", i);
        for _ in 0..=i {
            store.record(sample(&name, 200, 5, false, 0));
        }
    }

    let resp = store.query_heatmap(3600, 3600);
    assert_eq!(resp.providers.len(), 10);
    assert_eq!(resp.providers[0], "provider_11");
    assert!(!resp.providers.contains(&"provider_00".to_string()));
    assert!(!resp.providers.contains(&"provider_01".to_string()));
    assert_eq!(resp.buckets.len(), 1);
    for cell in &resp.buckets[0].values {
        assert_ne!(cell.provider, "provider_00");
        assert_ne!(cell.provider, "provider_01");
    }
    assert_eq!(resp.buckets[0].values.len(), 10);
}

#[test]
fn test_clear_in_range_bounds() {
    let mut store = MetricsStore::new();
    for offset in [-100i64, -50, -10, 0] {
        store.record(sample("p", 200, 1, false, offset));
    }
    let now = now_unix();

    let removed = store.clear_in_range(Some(now - 30), None);
    assert_eq!(removed, 2);

    let removed = store.clear_in_range(None, Some(now - 75));
    assert_eq!(removed, 1);

    let removed = store.clear_in_range(None, None);
    assert_eq!(removed, 1);
    assert_eq!(store.query_recent_errors(10).len(), 0);
}

#[test]
fn test_clear_in_range_window() {
    let mut store = MetricsStore::new();
    for offset in [-100i64, -50, -25, -10, 0] {
        store.record(sample("p", 200, 1, false, offset));
    }
    let now = now_unix();
    let removed = store.clear_in_range(Some(now - 60), Some(now - 20));
    assert_eq!(removed, 2);
}

#[test]
fn test_status_code_buckets() {
    let mut store = MetricsStore::new();
    for _ in 0..3 {
        store.record(sample("p", 200, 1, false, 0));
    }
    store.record(sample("p", 204, 1, false, 0));
    store.record(sample("p", 404, 1, false, 0));
    store.record(sample("p", 429, 1, false, 0));
    store.record(sample("p", 500, 1, false, 0));
    store.record(sample("p", 503, 1, false, 0));
    store.record(sample("p", 100, 1, false, 0));
    store.record(sample("p", 301, 1, false, 0));

    let buckets = store.query_status_codes(3600, 3600);
    assert_eq!(buckets.len(), 1);
    let b = &buckets[0];
    assert_eq!(b.ok_2xx, 4);
    assert_eq!(b.client_4xx, 2);
    assert_eq!(b.server_5xx, 2);
}

#[test]
fn clear_with_open_bounds_empties_the_store() {
    let mut store = MetricsStore::new();
    for offset in [-5000i64, -10, 0, 10] {
        store.record(sample("p", 500, 1, false, offset));
    }
    assert_eq!(store.clear_in_range(None, None), 4);
    assert_eq!(store.query_recent_errors(100).len(), 0);
    assert_eq!(store.clear_in_range(None, None), 0);
}

#[test]
fn bucket_hits_and_misses_add_up_to_calls() {
    let mut store = MetricsStore::new();
    store.record(sample("a", 200, 3, true, -1));
    store.record(sample("a", 200, 7, false, -2));
    store.record(sample("b", 404, 9, true, -3));
    store.record(sample("b", 500, 11, false, -4));
    store.record(sample("b", 200, 13, false, -5));
    let buckets = store.query_timeseries(3600, 3600);
    assert_eq!(buckets.len(), 1);
    let b = &buckets[0];
    assert_eq!(b.calls, 5);
    assert_eq!(b.hits, 2);
    assert_eq!(b.misses, 3);
    assert_eq!(b.hits + b.misses, b.calls);
    assert_eq!(b.errors, 2);
}

#[test]
fn timeseries_bucket_count_rounds_up() {
    let store = MetricsStore::new();
    assert_eq!(store.query_timeseries(3600, 600).len(), 6);
    assert_eq!(store.query_timeseries(3601, 600).len(), 7);
    assert_eq!(store.query_timeseries(0, 0).len(), 1);
    assert_eq!(store.query_status_codes(7200, 3600).len(), 2);
}

#[test]
fn samples_outside_the_window_are_not_counted() {
    let mut store = MetricsStore::new();
    store.record(sample("old", 500, 1, false, -7200));
    store.record(sample("new", 200, 1, false, 0));
    let b = &store.query_timeseries(3600, 3600)[0];
    assert_eq!(b.calls, 1);
    assert_eq!(b.errors, 0);
}

#[test]
fn recent_errors_are_newest_first_and_limited() {
    let mut store = MetricsStore::new();
    store.record(sample("a", 500, 1, false, -30));
    store.record(sample("b", 200, 1, false, -20));
    store.record(sample("c", 404, 2, false, -10));
    store.record(sample("d", 503, 3, false, 0));
    let errs = store.query_recent_errors(2);
    assert_eq!(errs.len(), 2);
    assert_eq!(errs[0].provider, "d");
    assert_eq!(errs[0].status, 503);
    assert_eq!(errs[1].provider, "c");
    assert_eq!(errs[1].duration_ms, 2);
    let all = store.query_recent_errors(10);
    assert_eq!(all.len(), 3);
    assert!(all.iter().all(|e| e.status >= 400));
    assert_eq!(store.query_recent_errors(0).len(), 0);
}

#[test]
fn overview_counts_cover_the_last_day() {
    let mut store = MetricsStore::new();
    store.record(sample("a", 200, 1, true, -100));
    store.record(sample("a", 500, 1, false, -200));
    store.record(sample("a", 200, 1, true, -90_000));
    let o = store.overview_counts_24h();
    assert_eq!(o.calls_24h, 2);
    assert_eq!(o.errors_24h, 1);
    assert_eq!(o.hits_24h, 1);
}

#[test]
fn provider_counts_are_sorted_by_name() {
    let mut store = MetricsStore::new();
    store.record(sample("zeta", 200, 10, true, 0));
    store.record(sample("alpha", 500, 20, false, 0));
    store.record(sample("alpha", 200, 40, true, 0));
    let stats = store.query_provider_counts(3600);
    assert_eq!(stats.len(), 2);
    assert_eq!(stats[0].provider, "alpha");
    assert_eq!(stats[0].calls, 2);
    assert_eq!(stats[0].errors, 1);
    assert_eq!(stats[0].hits, 1);
    assert_eq!(stats[0].p50_ms, 40);
    assert_eq!(stats[0].p95_ms, 40);
    assert_eq!(stats[1].provider, "zeta");
    assert_eq!(stats[1].p50_ms, 10);
}

#[test]
fn ring_keeps_the_newest_samples() {
    let mut store = MetricsStore::new();
    for i in 0..100_005u32 {
        store.record(sample("p", 500, i, false, 0));
    }
    let errs = store.query_recent_errors(200_000);
    assert_eq!(errs.len(), 100_000);
    assert_eq!(errs[0].duration_ms, 100_004);
    assert_eq!(errs[99_999].duration_ms, 5);
}

#[test]
fn now_unix_is_not_negative() {
    assert!(now_unix() > 1_600_000_000);
}

fn at(provider: &str, status: u16, duration_ms: u32, ts_unix: i64) -> MetricSample {
    MetricSample { ts_unix, provider: provider.to_string(), status, duration_ms, cache_hit: status == 200 }
}

fn store_of(samples: Vec<MetricSample>) -> MetricsStore {
    let mut store = MetricsStore::new();
    for s in samples {
        store.record(s);
    }
    store
}

#[test]
fn bucket_calls_add_up_to_the_window() {
    let now = 10_000;
    let samples = vec![
        at("a", 200, 5, 5_000),
        at("a", 200, 7, 6_100),
        at("b", 500, 9, 7_999),
        at("b", 404, 3, 9_000),
        at("a", 200, 4, 12_000),
        at("c", 200, 1, 1_000),
    ];
    let durations: Vec<u32> = samples.iter().map(|s| s.duration_ms).collect();
    let store = store_of(samples);
    let series = store.query_timeseries_at(now, 4_000, 1_000);
    assert_eq!(series.len(), 4);
    let calls: Vec<u64> = series.iter().map(|b| b.calls).collect();
    assert_eq!(calls, vec![1, 1, 0, 2]);
    assert_eq!(calls.iter().sum::<u64>(), 4);
    for b in &series {
        if b.calls > 0 {
            assert!(durations.contains(&b.p50_ms));
            assert!(durations.contains(&b.p95_ms));
        }
    }
    let codes = store.query_status_codes_at(now, 4_000, 1_000);
    assert_eq!(codes.len(), series.len());
    for (c, t) in codes.iter().zip(series.iter()) {
        assert_eq!(c.ts, t.ts);
    }
    let clamped = store.query_timeseries_at(now, 0, -5);
    let explicit = store.query_timeseries_at(now, 1, 1);
    assert_eq!(clamped.len(), explicit.len());
    assert_eq!(clamped[0].calls, explicit[0].calls);
    assert_eq!(clamped[0].ts, explicit[0].ts);
}

#[test]
fn heatmap_cells_add_up_to_provider_totals() {
    let now = 10_000;
    let samples = vec![
        at("a", 200, 5, 6_500),
        at("a", 200, 7, 7_100),
        at("b", 500, 9, 7_999),
        at("a", 404, 3, 9_000),
        at("b", 200, 4, 9_500),
        at("c", 200, 1, 1_000),
    ];
    let resp = store_of(samples).query_heatmap_at(now, 4_000, 1_000);
    assert_eq!(resp.providers, vec!["a".to_string(), "b".to_string()]);
    for (p, total) in [("a", 3u64), ("b", 2u64)] {
        let sum: u64 = resp
            .buckets
            .iter()
            .flat_map(|b| b.values.iter())
            .filter(|c| c.provider == p)
            .map(|c| c.calls)
            .sum();
        assert_eq!(sum, total);
    }
}

#[test]
fn clearing_again_removes_nothing() {
    let mut store = store_of(vec![at("a", 200, 1, 10), at("a", 200, 1, 20), at("a", 200, 1, 30)]);
    assert_eq!(store.clear_in_range(Some(30), Some(10)), 0);
    assert_eq!(store.clear_in_range(Some(15), Some(25)), 1);
    assert_eq!(store.clear_in_range(Some(15), Some(25)), 0);
    assert_eq!(store.clear_in_range(None, None), 2);
    assert_eq!(store.clear_in_range(None, None), 0);
}

#[test]
fn bucket_counts_fit_a_usize() {
    assert!(bucket_count_fits(86_400, 3_600));
    assert!(bucket_count_fits(0, -3));
    assert!(bucket_count_fits(i64::MAX, 1) == (usize::MAX as u128 >= i64::MAX as u128));
}

#[test]
fn recent_errors_are_the_newest_errors() {
    let store = store_of(vec![
        at("a", 500, 1, 10),
        at("b", 200, 2, 20),
        at("c", 404, 3, 30),
        at("d", 503, 4, 40),
    ]);
    let errs = store.query_recent_errors(2);
    let got: Vec<(i64, &str)> = errs.iter().map(|e| (e.ts, e.provider.as_str())).collect();
    assert_eq!(got, vec![(40, "d"), (30, "c")]);
    assert_eq!(store.query_recent_errors(10).len(), 3);
}
