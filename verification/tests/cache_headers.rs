use tokimo_server::cache_headers::{
    cache_control_value, etag_for_body, etag_matches, plan_cache_headers, request_is_cacheable,
    response_is_cacheable, should_skip_path, ttl_from_header, CachePlan, DEFAULT_CACHE_TTL,
};

#[test]
fn test_etag_matches_exact() {
    assert!(etag_matches("\"abc123\"", "\"abc123\""));
    assert!(!etag_matches("\"abc123\"", "\"def456\""));
}

#[test]
fn test_etag_matches_wildcard() {
    assert!(etag_matches("*", "\"abc123\""));
}

#[test]
fn test_etag_matches_multiple() {
    assert!(etag_matches("\"abc\", \"def\", \"ghi\"", "\"def\""));
    assert!(!etag_matches("\"abc\", \"def\", \"ghi\"", "\"xyz\""));
}

#[test]
fn test_etag_matches_weak() {
    assert!(etag_matches("W/\"abc123\"", "\"abc123\""));
}

#[test]
fn test_should_skip_path_health() {
    assert!(should_skip_path("/health"));
    assert!(should_skip_path("/api/health"));
}

#[test]
fn test_should_skip_path_admin() {
    assert!(should_skip_path("/admin"));
    assert!(should_skip_path("/api/admin"));
    assert!(should_skip_path("/admin/users"));
    assert!(should_skip_path("/api/admin/users"));
    assert!(should_skip_path("/admin/config/keys"));
    assert!(should_skip_path("/api/admin/config/keys"));
}

#[test]
fn test_should_skip_path_internal() {
    assert!(should_skip_path("/_internal"));
    assert!(should_skip_path("/api/_internal"));
    assert!(should_skip_path("/_internal/metrics"));
    assert!(should_skip_path("/api/_internal/metrics"));
}

#[test]
fn test_should_not_skip_provider_routes() {
    assert!(!should_skip_path("/tmdb/search"));
    assert!(!should_skip_path("/api/tmdb/search"));
    assert!(!should_skip_path("/omdb/movie/tt1234567"));
    assert!(!should_skip_path("/api/spotify/track/123"));
}

#[test]
fn admin_prefix_needs_a_segment_boundary() {
    assert!(!should_skip_path("/administrator"));
    assert!(!should_skip_path("/api/healthz"));
    assert!(!should_skip_path("/_internalx"));
}

#[test]
fn etag_is_the_quoted_xxh3_hex_of_the_body() {
    let body = b"hello world";
    let expected = format!("\"{:x}\"", xxhash_rust::xxh3::xxh3_64(body));
    assert_eq!(etag_for_body(body), expected);
    assert_ne!(etag_for_body(b"a"), etag_for_body(b"b"));
}

#[test]
fn issued_etags_revalidate() {
    let e = etag_for_body(b"payload");
    assert!(etag_matches(&e, &e));
    assert!(etag_matches(&format!("W/{}", e), &e));
    assert!(etag_matches(&format!("\"zzz\", {}", e), &e));
    assert!(etag_matches("*", &e));
}

#[test]
fn cache_control_halves_the_ttl_for_revalidation() {
    assert_eq!(cache_control_value(300), "public, max-age=300, stale-while-revalidate=150");
    assert_eq!(cache_control_value(0), "public, max-age=0, stale-while-revalidate=0");
    assert_eq!(cache_control_value(7), "public, max-age=7, stale-while-revalidate=3");
}

#[test]
fn ttl_header_falls_back_to_default() {
    assert_eq!(ttl_from_header(None), DEFAULT_CACHE_TTL);
    assert_eq!(ttl_from_header(Some("60")), 60);
    assert_eq!(ttl_from_header(Some("abc")), 300);
    assert_eq!(ttl_from_header(Some("-5")), 300);
    assert_eq!(ttl_from_header(Some("")), 300);
}

#[test]
fn only_get_and_head_on_public_paths_are_cacheable() {
    assert!(request_is_cacheable("/api/tmdb/movie/1", true, false));
    assert!(request_is_cacheable("/api/tmdb/movie/1", false, true));
    assert!(!request_is_cacheable("/api/tmdb/movie/1", false, false));
    assert!(!request_is_cacheable("/api/admin/cache", true, false));
    assert!(response_is_cacheable(200, false));
    assert!(!response_is_cacheable(200, true));
    assert!(!response_is_cacheable(404, false));
}

#[test]
fn matching_if_none_match_gives_not_modified() {
    let body = b"{\"a\":1}";
    let etag = etag_for_body(body);
    match plan_cache_headers(Some("120"), Some(&etag), false, body) {
        CachePlan::NotModified { etag: e, cache_control } => {
            assert_eq!(e, etag);
            assert_eq!(cache_control, "public, max-age=120, stale-while-revalidate=60");
        }
        CachePlan::Decorated { .. } => panic!("expected 304"),
    }
}

#[test]
fn head_responses_carry_the_body_length() {
    let body = b"0123456789";
    match plan_cache_headers(None, Some("\"other\""), true, body) {
        CachePlan::Decorated { etag, cache_control, head_content_length } => {
            assert_eq!(etag, etag_for_body(body));
            assert_eq!(cache_control, "public, max-age=300, stale-while-revalidate=150");
            assert_eq!(head_content_length, Some("10".to_string()));
        }
        CachePlan::NotModified { .. } => panic!("expected a decorated response"),
    }
    match plan_cache_headers(None, None, false, body) {
        CachePlan::Decorated { head_content_length, .. } => assert_eq!(head_content_length, None),
        CachePlan::NotModified { .. } => panic!("expected a decorated response"),
    }
}
