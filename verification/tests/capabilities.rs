use tokimo_server::capabilities::{classify_availability, global_percentiles, stats_for_provider};
use tokimo_server::inventory::{categories, category_for, default_ttl_for, hot_source_ids, providers, HALF_DAY, ONE_HOUR};
use tokimo_server::metrics::{ProviderCounts, TimeseriesBucket};

#[test]
fn availability_rules() {
    assert_eq!(classify_availability(0, 0), "no-traffic");
    assert_eq!(classify_availability(5, 4), "healthy");
    assert_eq!(classify_availability(10, 6), "down");
    assert_eq!(classify_availability(10, 3), "degraded");
    assert_eq!(classify_availability(10, 1), "healthy");
    assert_eq!(classify_availability(100, 1), "healthy");
}

#[test]
fn availability_thresholds_are_strict() {
    assert_eq!(classify_availability(10, 5), "degraded");
    assert_eq!(classify_availability(10, 2), "healthy");
    assert_eq!(classify_availability(9, 9), "healthy");
    assert_eq!(classify_availability(u64::MAX, u64::MAX), "down");
}

#[test]
fn every_provider_in_some_category() {
    let cats = categories();
    for p in providers() {
        let in_categories = cats.iter().any(|c| c.providers.contains(&p.id));
        assert!(in_categories, "provider {} missing from CATEGORIES", p.id);
    }
}

#[test]
fn every_category_provider_exists() {
    let ps = providers();
    for c in categories() {
        for pid in &c.providers {
            assert!(
                ps.iter().any(|p| p.id == *pid),
                "category {} references unknown provider {}",
                c.id,
                pid
            );
        }
    }
}

#[test]
fn endpoint_paths_have_correct_prefix() {
    for p in providers() {
        for ep in &p.endpoints {
            let expected = format!("/api/{}/", p.id);
            assert!(
                ep.path.starts_with(&expected) || ep.path == format!("/api/{}", p.id),
                "endpoint {} does not start with {}",
                ep.path,
                expected
            );
        }
    }
}

#[test]
fn hot_has_19_source_ids() {
    assert_eq!(hot_source_ids().len(), 19);
}

#[test]
fn provider_count_matches_categories() {
    let category_total: usize = categories().iter().map(|c| c.providers.len()).sum();
    assert_eq!(category_total, providers().len());
}

#[test]
fn provider_categories_agree_with_category_lists() {
    let cats = categories();
    for p in providers() {
        let c = cats.iter().find(|c| c.id == p.category).expect("category exists");
        assert!(c.providers.contains(&p.id));
    }
}

#[test]
fn only_hot_lists_source_ids() {
    for p in providers() {
        if p.id == "hot" {
            assert_eq!(p.available_ids.as_ref().map(|v| v.len()), Some(19));
        } else {
            assert!(p.available_ids.is_none());
        }
    }
}

#[test]
fn category_lookup() {
    assert_eq!(category_for("tmdb"), Some("movie-metadata"));
    assert_eq!(category_for("lrclib"), Some("music-metadata"));
    assert_eq!(category_for("sports"), Some("misc-content"));
    assert_eq!(category_for("nope"), None);
    assert_eq!(category_for(""), None);
}

#[test]
fn default_ttl_is_the_first_endpoints() {
    assert_eq!(default_ttl_for("tmdb"), Some(HALF_DAY));
    assert_eq!(default_ttl_for("currency"), Some(ONE_HOUR));
    assert_eq!(default_ttl_for("hitokoto"), Some(0));
    assert_eq!(default_ttl_for("unknown"), None);
}

fn counts(provider: &str, calls: u64, errors: u64) -> ProviderCounts {
    ProviderCounts { provider: provider.to_string(), calls, errors, hits: 1, p50_ms: 12, p95_ms: 40 }
}

#[test]
fn stats_join_by_provider_id() {
    let per = vec![counts("omdb", 20, 11), counts("tmdb", 10, 3)];
    let s = stats_for_provider("tmdb", &per);
    assert_eq!((s.calls, s.errors, s.hits, s.p50_ms, s.p95_ms), (10, 3, 1, 12, 40));
    assert_eq!(s.availability, "degraded");
    let o = stats_for_provider("omdb", &per);
    assert_eq!(o.availability, "down");
    let none = stats_for_provider("bing", &per);
    assert_eq!((none.calls, none.errors, none.hits, none.p50_ms, none.p95_ms), (0, 0, 0, 0, 0));
    assert_eq!(none.availability, "no-traffic");
}

#[test]
fn global_percentiles_come_from_the_first_bucket() {
    let b = TimeseriesBucket { ts: 0, calls: 3, errors: 0, hits: 0, misses: 3, p50_ms: 7, p95_ms: 30 };
    assert_eq!(global_percentiles(&[b]), (7, 30));
    assert_eq!(global_percentiles(&[]), (0, 0));
}
