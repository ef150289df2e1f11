use tokimo_server::currency::{normalize_code, normalize_targets, rates_flight_key, rates_request};
use tokimo_server::error::{AppError, CoreError};
use tokimo_server::freshness::{
    contains_5xx_status, is_fresh, is_fresh_at, now_timestamp, timestamp_of_reading, refresh_outcome, should_fallback, single_flight_bucket,
    Timestamp,
};

fn bad_request<T>(r: Result<T, AppError>) -> String {
    match r {
        Err(AppError::BadRequest(m)) => m,
        Err(_) => panic!("expected a bad request"),
        Ok(_) => panic!("expected an error"),
    }
}

#[test]
fn codes_are_trimmed_and_upper_cased() {
    assert_eq!(normalize_code(" usd "), Some("USD".to_string()));
    assert_eq!(normalize_code("eUr"), Some("EUR".to_string()));
    assert_eq!(normalize_code("US"), None);
    assert_eq!(normalize_code("USDX"), None);
    assert_eq!(normalize_code("U5D"), None);
    assert_eq!(normalize_code("ÜSD"), None);
    assert_eq!(normalize_code(""), None);
}

#[test]
fn targets_are_sorted_deduplicated_and_without_base() {
    let v = normalize_targets("jpy, eur,USD,EUR ,gbp", "USD").ok().unwrap();
    assert_eq!(v, vec!["EUR".to_string(), "GBP".to_string(), "JPY".to_string()]);
}

#[test]
fn target_errors() {
    assert_eq!(bad_request(normalize_targets("EUR, x1 ,GBP", "USD")), "Invalid target currency: x1");
    assert_eq!(bad_request(normalize_targets("EUR,,GBP", "USD")), "Invalid target currency: ");
    assert_eq!(
        bad_request(normalize_targets("usd,USD", "USD")),
        "targets must include at least one currency different from base"
    );
}

#[test]
fn rates_requests() {
    let r = rates_request(None, "eur,jpy", None).ok().unwrap();
    assert_eq!(r.base, "USD");
    assert_eq!(r.days, 7);
    assert_eq!(r.targets_csv, "EUR,JPY");
    assert_eq!(rates_flight_key(&r, 123), "currency:USD:EUR,JPY:7:123");
    assert_eq!(rates_flight_key(&r, -4), "currency:USD:EUR,JPY:7:-4");
    let r2 = rates_request(Some("gbp"), "usd", Some(30)).ok().unwrap();
    assert_eq!((r2.base.as_str(), r2.targets_csv.as_str(), r2.days), ("GBP", "USD", 30));
    assert_eq!(bad_request(rates_request(Some("dollars"), "EUR", None)), "Invalid base currency");
    assert_eq!(bad_request(rates_request(None, "EUR", Some(0))), "days must be between 1 and 30");
    assert_eq!(bad_request(rates_request(None, "EUR", Some(31))), "days must be between 1 and 30");
    assert_eq!(bad_request(rates_request(Some("bad"), "EUR", Some(99))), "days must be between 1 and 30");
    assert_eq!(bad_request(rates_request(Some("x"), "EUR", Some(99))), "Invalid base currency");
}

#[test]
fn upstream_5xx_mentions() {
    assert!(contains_5xx_status("upstream returned 503 Service Unavailable"));
    assert!(contains_5xx_status("HTTP 511"));
    assert!(!contains_5xx_status("HTTP 509"));
    assert!(!contains_5xx_status("HTTP 404"));
    assert!(!contains_5xx_status("code500"));
}

#[test]
fn fallback_only_for_upstream_trouble() {
    assert!(should_fallback(&CoreError::Upstream("timeout".to_string())));
    assert!(should_fallback(&CoreError::Provider("status 502 bad gateway".to_string())));
    assert!(!should_fallback(&CoreError::Provider("status 404".to_string())));
    assert!(!should_fallback(&CoreError::Database("down".to_string())));
    assert!(!should_fallback(&CoreError::RateLimited));
}

#[test]
fn stale_rows_answer_failed_refreshes() {
    assert_eq!(refresh_outcome::<u32>(Ok(1), Some(2)).ok(), Some(1));
    assert_eq!(refresh_outcome::<u32>(Err(CoreError::Upstream("x".to_string())), Some(2)).ok(), Some(2));
    assert!(matches!(refresh_outcome::<u32>(Err(CoreError::Upstream("x".to_string())), None), Err(CoreError::Upstream(_))));
    assert!(matches!(refresh_outcome::<u32>(Err(CoreError::NotFound), Some(2)), Err(CoreError::NotFound)));
}

fn ts(secs: i64, nanos: u32) -> Timestamp {
    Timestamp { secs, nanos }
}

#[test]
fn freshness_compares_age_with_ttl() {
    assert!(is_fresh_at(ts(1000, 0), ts(995, 0), 10));
    assert!(!is_fresh_at(ts(1000, 0), ts(990, 0), 10));
    assert!(is_fresh_at(ts(1000, 0), ts(990, 1), 10));
    assert!(!is_fresh_at(ts(1000, 0), ts(1000, 0), 0));
    assert!(is_fresh_at(ts(1000, 0), ts(2000, 0), 0));
    let now = now_timestamp();
    assert!(is_fresh(ts(now.secs - 5, 0), 3600));
    assert!(!is_fresh(ts(now.secs - 7200, 0), 3600));
}

#[test]
fn single_flight_windows() {
    assert_eq!(single_flight_bucket(7200, 3600), 2);
    assert_eq!(single_flight_bucket(7199, 3600), 1);
    assert_eq!(single_flight_bucket(100, 0), 100);
    assert_eq!(single_flight_bucket(100, -5), 100);
    assert_eq!(single_flight_bucket(-7, 2), -3);
}

#[test]
fn clock_readings_before_and_after_the_epoch() {
    let a = timestamp_of_reading(Ok((5, 7)));
    assert_eq!((a.secs, a.nanos), (5, 7));
    let b = timestamp_of_reading(Err((1, 250_000_000)));
    assert_eq!((b.secs, b.nanos), (-2, 750_000_000));
    let c = timestamp_of_reading(Err((3, 0)));
    assert_eq!((c.secs, c.nanos), (-3, 0));
    let d = timestamp_of_reading(Ok((u64::MAX, 1)));
    assert_eq!((d.secs, d.nanos), (i64::MAX, 999_999_999));
    let e = timestamp_of_reading(Err((u64::MAX, 1)));
    assert_eq!((e.secs, e.nanos), (i64::MIN, 0));
    assert!(now_timestamp().nanos < 1_000_000_000);
}
