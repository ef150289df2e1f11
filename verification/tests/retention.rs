use std::collections::HashSet;
use tokimo_server::retention::{
    cache_entries_cleanup_result, cache_entries_cleanup_sql, cache_tables, cleanup_statement, table_cleanup_result,
    tier_label, total_rows_deleted, CacheTableRetention, RetentionTier,
};

#[test]
fn no_permanent_in_cache_tables() {
    for t in cache_tables() {
        assert_ne!(t.tier, RetentionTier::Permanent, "table {} should not be permanent in CACHE_TABLES", t.table);
    }
}

#[test]
fn durations_are_monotonic() {
    assert!(RetentionTier::Volatile.duration_secs().unwrap() < RetentionTier::Short.duration_secs().unwrap());
    assert!(RetentionTier::Short.duration_secs().unwrap() < RetentionTier::Medium.duration_secs().unwrap());
    assert_eq!(RetentionTier::Permanent.duration_secs(), None);
}

#[test]
fn no_duplicate_tables() {
    let mut seen = HashSet::new();
    for t in cache_tables() {
        assert!(seen.insert(t.table), "duplicate table in CACHE_TABLES: {}", t.table);
    }
}

#[test]
fn tier_durations_in_seconds() {
    assert_eq!(RetentionTier::Volatile.duration_secs(), Some(86_400));
    assert_eq!(RetentionTier::Short.duration_secs(), Some(604_800));
    assert_eq!(RetentionTier::Medium.duration_secs(), Some(2_592_000));
}

#[test]
fn cleanup_statement_binds_the_retention() {
    let t = CacheTableRetention { table: "currency_rates", timestamp_col: "fetched_at", tier: RetentionTier::Volatile };
    let (sql, secs) = cleanup_statement(&t).expect("volatile tables are cleaned");
    assert_eq!(sql, "DELETE FROM currency_rates WHERE fetched_at < now() - make_interval(secs => $1)");
    assert_eq!(secs, 86_400);
    let p = CacheTableRetention { table: "tmdb_movies", timestamp_col: "fetched_at", tier: RetentionTier::Permanent };
    assert!(cleanup_statement(&p).is_none());
    assert_eq!(cache_entries_cleanup_sql(), "DELETE FROM cache_entries WHERE expires_at < now()");
}

#[test]
fn cleanup_reports() {
    let t = cache_tables()[0];
    assert_eq!(t.table, "hot_search_snapshots");
    assert_eq!(tier_label(&t), "volatile");
    let ok = table_cleanup_result(&t, Ok(12), 5);
    assert_eq!((ok.table, ok.tier, ok.rows_deleted, ok.duration_ms), ("hot_search_snapshots", "volatile", 12, 5));
    assert!(ok.error.is_none());
    let err = table_cleanup_result(&cache_tables()[19], Err("boom".to_string()), 7);
    assert_eq!((err.table, err.tier, err.rows_deleted), ("nominatim_geocode", "medium", 0));
    assert_eq!(err.error, Some("boom".to_string()));
    let ce = cache_entries_cleanup_result(Ok(3), 1);
    assert_eq!((ce.table, ce.tier, ce.rows_deleted), ("cache_entries", "ttl", 3));
    assert_eq!(total_rows_deleted(&[ok, err, ce]), 15);
    assert_eq!(total_rows_deleted(&[]), 0);
}

#[test]
fn tiers_of_the_cleaned_tables() {
    let ts = cache_tables();
    assert_eq!(ts.len(), 20);
    assert_eq!(ts.iter().filter(|t| t.tier == RetentionTier::Volatile).count(), 7);
    assert_eq!(ts.iter().filter(|t| t.tier == RetentionTier::Short).count(), 9);
    assert_eq!(ts.iter().filter(|t| t.tier == RetentionTier::Medium).count(), 4);
    assert!(ts.iter().all(|t| t.timestamp_col == "fetched_at"));
    let label_of = |name: &str| ts.iter().find(|t| t.table == name).map(tier_label);
    assert_eq!(label_of("lrclib_lyrics"), Some("short"));
    assert_eq!(label_of("holiday_years"), Some("medium"));
    assert_eq!(label_of("tmdb_movies"), None);
}

#[test]
fn cleanup_totals_saturate() {
    let t = cache_tables()[0];
    let big = table_cleanup_result(&t, Ok(u64::MAX - 1), 1);
    let more = table_cleanup_result(&t, Ok(5), 1);
    let last = table_cleanup_result(&t, Ok(2), 1);
    assert_eq!(total_rows_deleted(&[big, more, last]), u64::MAX);
}
