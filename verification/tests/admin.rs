use tokimo_server::admin::{row_count_sql, row_delete_sql, row_refresh_sql, rows_page_sql};
use tokimo_server::admin::{
    cache_list_window, cache_table_info, cache_table_list, dashboard_bucket_secs, dashboard_range_secs, delete_outcome,
    join_key_parts, parse_duration_secs, parse_pk_values, recent_errors_limit, refresh_outcome, resolve_cache_row,
    truncate_preview, CacheRowKey, KeyKind,
};
use tokimo_server::error::AppError;

fn bad_request<T>(r: Result<T, AppError>) -> String {
    match r {
        Err(AppError::BadRequest(m)) => m,
        Err(_) => panic!("expected a bad request"),
        Ok(_) => panic!("expected an error"),
    }
}

#[test]
fn durations_in_minutes_hours_days() {
    assert_eq!(parse_duration_secs("15m").ok(), Some(900));
    assert_eq!(parse_duration_secs("24h").ok(), Some(86_400));
    assert_eq!(parse_duration_secs("7d").ok(), Some(604_800));
    assert_eq!(parse_duration_secs("+2h").ok(), Some(7200));
}

#[test]
fn duration_errors() {
    assert_eq!(bad_request(parse_duration_secs("h")), "Invalid duration: h");
    assert_eq!(bad_request(parse_duration_secs("")), "Invalid duration: ");
    assert_eq!(bad_request(parse_duration_secs("10s")), "Invalid duration suffix: 10s");
    assert_eq!(bad_request(parse_duration_secs("5\u{e9}")), "Invalid duration suffix: 5\u{e9}");
    assert_eq!(bad_request(parse_duration_secs("\u{e9}")), "Invalid duration suffix: \u{e9}");
    assert_eq!(bad_request(parse_duration_secs("\u{e9}h")), "Invalid duration: \u{e9}h");
    assert_eq!(bad_request(parse_duration_secs("xh")), "Invalid duration: xh");
    assert_eq!(bad_request(parse_duration_secs("0h")), "Duration must be positive: 0h");
    assert_eq!(bad_request(parse_duration_secs("-3d")), "Duration must be positive: -3d");
    assert_eq!(
        bad_request(parse_duration_secs("9223372036854775807d")),
        "Duration is too large: 9223372036854775807d"
    );
}

#[test]
fn dashboard_defaults() {
    assert_eq!(dashboard_range_secs(None).ok(), Some(86_400));
    assert_eq!(dashboard_bucket_secs(None).ok(), Some(3600));
    assert_eq!(dashboard_range_secs(Some("1d")).ok(), Some(86_400));
    assert_eq!(bad_request(dashboard_bucket_secs(Some("5x"))), "Invalid duration suffix: 5x");
    assert_eq!(recent_errors_limit(None), 20);
    assert_eq!(recent_errors_limit(Some(5)), 5);
    assert_eq!(recent_errors_limit(Some(500)), 100);
    assert_eq!(cache_list_window(None, None), (50, 0));
    assert_eq!(cache_list_window(Some(1000), Some(40)), (200, 40));
    assert_eq!(cache_list_window(Some(10), None), (10, 0));
}

#[test]
fn browsable_tables() {
    let ts = cache_table_list();
    assert_eq!(ts.len(), 28);
    let f = cache_table_info("fanart_assets").ok().unwrap();
    assert_eq!(f.pk_cols, vec!["kind", "foreign_id"]);
    assert!(f.has_raw_json);
    assert_eq!(f.key_kind, KeyKind::TextBigInt);
    let i = cache_table_info("tmdb_images").ok().unwrap();
    assert!(!i.has_raw_json);
    assert_eq!(bad_request(cache_table_info("users")), "Unknown cache table: users");
}

#[test]
fn pk_values_split_on_bars() {
    let t = cache_table_info("holiday_years").ok().unwrap();
    assert_eq!(parse_pk_values(&t, "CN|2025").ok(), Some(vec!["CN".to_string(), "2025".to_string()]));
    assert_eq!(bad_request(parse_pk_values(&t, "CN")), "Invalid id for holiday_years: expected 2 part(s)");
    let one = cache_table_info("omdb_titles").ok().unwrap();
    assert_eq!(bad_request(parse_pk_values(&one, "a|b")), "Invalid id for omdb_titles: expected 1 part(s)");
    assert_eq!(parse_pk_values(&one, "").ok(), Some(vec!["".to_string()]));
}

#[test]
fn cache_rows_are_addressed_by_typed_keys() {
    match resolve_cache_row("tmdb_movies", "550") {
        Ok((t, CacheRowKey::Int(n))) => {
            assert_eq!(t.name, "tmdb_movies");
            assert_eq!(n, 550);
        }
        _ => panic!("expected an INT key"),
    }
    match resolve_cache_row("fanart_assets", "movie|603") {
        Ok((_, CacheRowKey::TextBigInt(k, n))) => assert_eq!((k.as_str(), n), ("movie", 603)),
        _ => panic!("expected a text and BIGINT key"),
    }
    match resolve_cache_row("tmdb_objects", "tv|1399") {
        Ok((_, CacheRowKey::TextText(a, b))) => assert_eq!((a.as_str(), b.as_str()), ("tv", "1399")),
        _ => panic!("expected two text parts"),
    }
    match resolve_cache_row("wikipedia_summaries", "en:Rust") {
        Ok((_, CacheRowKey::Text(a))) => assert_eq!(a, "en:Rust"),
        _ => panic!("expected a text key"),
    }
    match resolve_cache_row("bangumi_subjects", "-12") {
        Ok((_, CacheRowKey::BigInt(n))) => assert_eq!(n, -12),
        _ => panic!("expected a BIGINT key"),
    }
}

#[test]
fn cache_row_errors_come_in_order() {
    assert_eq!(bad_request(resolve_cache_row("nope", "1")), "Unknown cache table: nope");
    assert_eq!(bad_request(resolve_cache_row("tmdb_movies", "1|2")), "Invalid id for tmdb_movies: expected 1 part(s)");
    assert_eq!(bad_request(resolve_cache_row("tmdb_movies", "abc")), "Invalid id: abc");
    assert_eq!(bad_request(resolve_cache_row("tmdb_movies", "3000000000")), "Invalid id: 3000000000");
    assert_eq!(bad_request(resolve_cache_row("holiday_years", "CN|year")), "Invalid id: year");
    assert_eq!(bad_request(resolve_cache_row("deezer_tracks", "")), "Invalid id: ");
}

#[test]
fn delete_and_refresh_outcomes() {
    assert!(matches!(delete_outcome(0), Err(AppError::NotFound)));
    assert_eq!(delete_outcome(2).ok(), Some(2));
    assert!(matches!(refresh_outcome(false), Err(AppError::NotFound)));
    assert_eq!(refresh_outcome(true).ok(), Some(1));
}

#[test]
fn previews_are_truncated_to_200_chars() {
    let short = "x".repeat(200);
    assert_eq!(truncate_preview(&short), short);
    let long = "y".repeat(250);
    assert_eq!(truncate_preview(&long), format!("{}...", "y".repeat(200)));
    let wide = "é".repeat(150);
    assert_eq!(truncate_preview(&wide), wide);
    let wider = "é".repeat(201);
    assert_eq!(truncate_preview(&wider), format!("{}...", "é".repeat(200)));
}

#[test]
fn row_ids_join_key_parts_with_bars() {
    assert_eq!(join_key_parts(&["movie".to_string(), "603".to_string()]), "movie|603");
    assert_eq!(join_key_parts(&["a".to_string()]), "a");
    assert_eq!(join_key_parts(&[]), "");
}

#[test]
fn row_statements() {
    let f = cache_table_info("fanart_assets").ok().unwrap();
    assert_eq!(row_delete_sql(&f), "DELETE FROM fanart_assets WHERE kind = $1 AND foreign_id = $2");
    let m = cache_table_info("tmdb_movies").ok().unwrap();
    assert_eq!(row_delete_sql(&m), "DELETE FROM tmdb_movies WHERE id = $1");
    assert_eq!(row_refresh_sql(&m), "UPDATE tmdb_movies SET fetched_at = to_timestamp(0) WHERE id = $1");
    assert_eq!(rows_page_sql(&m), "SELECT to_jsonb(r) AS row FROM tmdb_movies r ORDER BY fetched_at DESC LIMIT $1 OFFSET $2");
    assert_eq!(row_count_sql(&m), "SELECT COUNT(*) AS n FROM tmdb_movies");
}

#[test]
fn row_ids_split_back_into_their_parts() {
    let f = cache_table_info("fanart_assets").ok().unwrap();
    let parts = vec!["movie".to_string(), "603".to_string()];
    let id = join_key_parts(&parts);
    assert_eq!(parse_pk_values(&f, &id).ok(), Some(parts));
    let m = cache_table_info("tmdb_movies").ok().unwrap();
    let single = vec!["603".to_string()];
    assert_eq!(parse_pk_values(&m, &join_key_parts(&single)).ok(), Some(single));
}
