use tokimo_server::freshness::Timestamp;
use tokimo_server::credentials::{token_expiry, token_usable, SPOTIFY_TOKEN_MARGIN_SECS};
use tokimo_server::credentials::{opensubtitles_api_key, required_setting, setting_or};
use tokimo_server::bing::wallpaper_counts;
use tokimo_server::error::{AppError, CoreError};
use tokimo_server::itunes::{album_cover_request, pick_cover_url, replace_all, CoverCandidate};
use tokimo_server::lexorder::select_ranked;
use tokimo_server::numfmt::{dec_chars, hex_chars, parse_i64, parse_u64, signed_dec_chars};
use tokimo_server::percentile::percentile;
use tokimo_server::request_metrics::{duration_ms_from, extract_provider, is_cache_hit};
use tokimo_server::text::{split_chars, trim_ws};
use tokimo_server::tmdb::{episode_key, image_cdn_url, image_flight_key, movie_flight_key, normalize_image_path, object_flight_key, season_key};

fn chars(s: &str) -> Vec<char> {
    s.chars().collect()
}

fn text(v: &[char]) -> String {
    v.iter().collect()
}

#[test]
fn providers_are_read_from_request_paths() {
    assert_eq!(extract_provider("/api/tmdb/movie/550"), Some("tmdb".to_string()));
    assert_eq!(extract_provider("//api//omdb"), Some("omdb".to_string()));
    assert_eq!(extract_provider("/api/admin/login"), None);
    assert_eq!(extract_provider("/health"), None);
    assert_eq!(extract_provider(""), None);
}

#[test]
fn cache_hit_header_ignores_case() {
    assert!(is_cache_hit(Some("HIT")));
    assert!(is_cache_hit(Some("hIt")));
    assert!(!is_cache_hit(Some("MISS")));
    assert!(!is_cache_hit(None));
    assert_eq!(duration_ms_from(12), 12);
    assert_eq!(duration_ms_from(u128::MAX), u32::MAX);
}

#[test]
fn percentiles_round_the_rank_up() {
    let v: Vec<u32> = vec![50, 10, 40, 20, 30];
    assert_eq!(percentile(&v, 50), 30);
    assert_eq!(percentile(&v, 95), 50);
    assert_eq!(percentile(&v, 0), 10);
    assert_eq!(percentile(&Vec::new(), 50), 0);
}

#[test]
fn ranking_prefers_counts_then_names() {
    let names: Vec<String> = ["b", "a", "c", "d"].iter().map(|s| s.to_string()).collect();
    let counts: Vec<u64> = vec![5, 5, 9, 1];
    assert_eq!(select_ranked(&names, &counts, 3), vec![2, 1, 0]);
    assert_eq!(select_ranked(&names, &counts, 10), vec![2, 1, 0, 3]);
    assert_eq!(select_ranked(&names, &counts, 0), Vec::<usize>::new());
}

#[test]
fn number_rendering_and_parsing() {
    assert_eq!(text(&hex_chars(255)), "ff");
    assert_eq!(text(&dec_chars(0)), "0");
    assert_eq!(text(&dec_chars(u64::MAX)), "18446744073709551615");
    assert_eq!(text(&signed_dec_chars(i64::MIN)), "-9223372036854775808");
    assert_eq!(parse_u64(&chars("+42")), Some(42));
    assert_eq!(parse_u64(&chars("18446744073709551616")), None);
    assert_eq!(parse_i64(&chars("-9223372036854775808")), Some(i64::MIN));
    assert_eq!(parse_i64(&chars("9223372036854775808")), None);
    assert_eq!(parse_i64(&chars("-")), None);
    assert_eq!(parse_i64(&chars("1 2")), None);
}

#[test]
fn splitting_and_trimming() {
    let parts: Vec<String> = split_chars(&chars("a,,b,"), ',').iter().map(|p| text(p)).collect();
    assert_eq!(parts, vec!["a", "", "b", ""]);
    assert_eq!(text(&trim_ws(&chars("\u{3000} x y \t"))), "x y");
}

#[test]
fn errors_map_to_statuses() {
    assert_eq!(AppError::NotFound.status_and_message(), (404, "Not found".to_string()));
    assert_eq!(AppError::Unauthorized.status_and_message(), (401, "Unauthorized".to_string()));
    assert_eq!(AppError::BadRequest("bad".to_string()).status_and_message(), (400, "bad".to_string()));
    assert_eq!(AppError::Internal("oops".to_string()).status_and_message(), (500, "oops".to_string()));
    assert_eq!(AppError::from(CoreError::NotFound).status_and_message(), (404, "Resource not found".to_string()));
    assert_eq!(AppError::from(CoreError::RateLimited).status_and_message(), (429, "Rate limited".to_string()));
    assert_eq!(
        AppError::from(CoreError::Database("x".to_string())).status_and_message(),
        (500, "Internal server error".to_string())
    );
}

#[test]
fn album_cover_requests() {
    let r = album_cover_request(Some("  Daft PUNK "), Some(" Discovery")).ok().unwrap();
    assert_eq!(r.artist, "Daft PUNK");
    assert_eq!(r.album, "Discovery");
    assert_eq!(r.album_lower, "discovery");
    assert_eq!(r.cache_key, "itunes:cover:daft punk|discovery");
    let accented = album_cover_request(Some("ÀB"), Some("x")).ok().unwrap();
    assert_eq!(accented.cache_key, "itunes:cover:àb|x");
    for (a, b) in [(None, Some("x")), (Some("x"), Some("   ")), (None, None)] {
        match album_cover_request(a, b) {
            Err(AppError::BadRequest(m)) => assert_eq!(m, "artist and album required"),
            _ => panic!("expected a bad request"),
        }
    }
}

fn cand(name: Option<&str>, url: Option<&str>) -> CoverCandidate {
    CoverCandidate { collection_name: name.map(str::to_string), artwork_url: url.map(str::to_string) }
}

#[test]
fn covers_are_picked_by_album_name() {
    let results = Some(vec![
        cand(Some("Other"), Some("https://x/100x100bb.jpg")),
        cand(Some("Discovery (Deluxe)"), None),
        cand(Some("DISCOVERY"), Some("https://is1/a/100x100bb.jpg")),
        cand(Some("Discovery"), Some("https://never")),
    ]);
    assert_eq!(pick_cover_url(&results, "Discovery"), Some("https://is1/a/3000x3000bb.jpg".to_string()));
    assert_eq!(pick_cover_url(&results, "Homework"), None);
    assert_eq!(pick_cover_url(&None, "Discovery"), None);
    let sub = Some(vec![cand(Some("Disc"), Some("https://h/100x100/img"))]);
    assert_eq!(pick_cover_url(&sub, "Discovery"), Some("https://h/3000x3000/img".to_string()));
}

#[test]
fn replace_is_left_to_right_and_non_overlapping() {
    assert_eq!(text(&replace_all(&chars("aaaa"), &chars("aa"), &chars("b"))), "bb");
    assert_eq!(text(&replace_all(&chars("aaa"), &chars("aa"), &chars("b"))), "ba");
    assert_eq!(text(&replace_all(&chars("xyz"), &chars("q"), &chars("r"))), "xyz");
    assert_eq!(text(&replace_all(&chars(""), &chars("q"), &chars("r"))), "");
}

#[test]
fn tmdb_keys_and_urls() {
    assert_eq!(normalize_image_path("w500/a.jpg"), "/w500/a.jpg");
    assert_eq!(normalize_image_path("/a.jpg"), "/a.jpg");
    assert_eq!(image_cdn_url("/w500/a.jpg"), "https://image.tmdb.org/t/p/w500/a.jpg");
    assert_eq!(image_cdn_url("/original/a.jpg"), "https://image.tmdb.org/t/p/original/a.jpg");
    assert_eq!(image_cdn_url("/a.jpg"), "https://image.tmdb.org/t/p/original/a.jpg");
    assert_eq!(image_cdn_url("//w92/x.png"), "https://image.tmdb.org/t/p//w92/x.png");
    assert_eq!(image_cdn_url("/h632/a.jpg"), "https://image.tmdb.org/t/p/original/h632/a.jpg");
    assert_eq!(image_flight_key("/a.jpg"), "tmdb:image:/a.jpg");
    assert_eq!(movie_flight_key(550), "movie:550");
    assert_eq!(object_flight_key("tv", "1399"), "tmdb:tv:1399");
    assert_eq!(season_key(1399, 2), "1399:2");
    assert_eq!(episode_key(1399, 2, -1), "1399:2:-1");
}

#[test]
fn wallpaper_counts_are_bounded() {
    assert_eq!(wallpaper_counts(None, None).ok(), Some((1, 0)));
    assert_eq!(wallpaper_counts(Some(8), Some(7)).ok(), Some((8, 7)));
    for (n, idx, msg) in [
        (Some(0), None, "n must be between 1 and 8"),
        (Some(9), Some(9), "n must be between 1 and 8"),
        (None, Some(8), "idx must be between 0 and 7"),
    ] {
        match wallpaper_counts(n, idx) {
            Err(AppError::BadRequest(m)) => assert_eq!(m, msg),
            _ => panic!("expected a bad request"),
        }
    }
}

#[test]
fn required_settings() {
    assert_eq!(required_setting(&Some("k".to_string()), "TMDB_API_KEY").ok(), Some("k".to_string()));
    match required_setting(&None, "FANART_API_KEY") {
        Err(AppError::Internal(m)) => assert_eq!(m, "FANART_API_KEY not configured"),
        _ => panic!("expected an internal error"),
    }
    assert_eq!(setting_or(&None, "ua/1.0"), "ua/1.0");
    assert_eq!(setting_or(&Some("mine".to_string()), "ua/1.0"), "mine");
}

#[test]
fn cached_tokens_are_replaced_before_expiry() {
    let now = Timestamp { secs: 1000, nanos: 0 };
    assert!(token_usable(Timestamp { secs: 1061, nanos: 0 }, now, SPOTIFY_TOKEN_MARGIN_SECS));
    assert!(!token_usable(Timestamp { secs: 1060, nanos: 0 }, now, SPOTIFY_TOKEN_MARGIN_SECS));
    assert!(token_usable(Timestamp { secs: 1060, nanos: 1 }, now, SPOTIFY_TOKEN_MARGIN_SECS));
    let e = token_expiry(now, 3600).unwrap();
    assert_eq!((e.secs, e.nanos), (4600, 0));
    assert!(token_expiry(Timestamp { secs: i64::MAX, nanos: 0 }, 1).is_none());
}

#[test]
fn opensubtitles_key_is_required() {
    assert_eq!(opensubtitles_api_key(&Some("k".to_string())).ok(), Some("k".to_string()));
    match opensubtitles_api_key(&None) {
        Err(AppError::Core(CoreError::Provider(m))) => {
            assert_eq!(m, "opensubtitles: OPENSUBTITLES_API_KEY is not configured")
        }
        _ => panic!("expected a provider error"),
    }
}
