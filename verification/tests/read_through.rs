use tokimo_server::error::{AppError, CoreError};
use tokimo_server::freshness::Timestamp;
use tokimo_server::read_through::{advance, start, Action, Event, FetchPolicy, ReadThrough, Step};

fn ts(secs: i64) -> Timestamp {
    Timestamp { secs, nanos: 0 }
}

fn looked(row: Option<i64>, now: i64) -> Event {
    Event::Looked { row: row.map(ts), now: ts(now) }
}

const TTL: FetchPolicy = FetchPolicy { ttl_seconds: Some(60), stale_fallback: false };
const STALE_OK: FetchPolicy = FetchPolicy { ttl_seconds: Some(60), stale_fallback: true };
const FOREVER: FetchPolicy = FetchPolicy { ttl_seconds: None, stale_fallback: false };

fn run(policy: FetchPolicy, events: Vec<Event>) -> (ReadThrough, Vec<&'static str>) {
    let (mut s, first) = start(policy);
    let mut trace = vec![name(&first)];
    for ev in events {
        let (next, action) = advance(s, ev);
        s = next;
        trace.push(name(&action));
    }
    (s, trace)
}

fn name(a: &Action) -> &'static str {
    match a {
        Action::LookUpRow => "lookup",
        Action::AcquirePermit => "acquire",
        Action::RecheckRow => "recheck",
        Action::FetchUpstream => "fetch",
        Action::StoreFetched => "store",
        Action::ServeRow { cache_hit: true } => "serve-hit",
        Action::ServeRow { cache_hit: false } => "serve-row",
        Action::ServeFetched => "serve-fetched",
        Action::ServeStale => "serve-stale",
        Action::Fail(_) => "fail",
    }
}

#[test]
fn fresh_rows_are_served_as_hits() {
    let (s, trace) = run(TTL, vec![looked(Some(990), 1000)]);
    assert_eq!(trace, vec!["lookup", "serve-hit"]);
    assert_eq!(s.step, Step::Finished);
}

#[test]
fn stale_rows_are_refreshed() {
    let (s, trace) = run(
        TTL,
        vec![looked(Some(900), 1000), Event::Acquired(Ok(())), looked(Some(900), 1001), Event::Fetched(Ok(())), Event::Stored(Ok(()))],
    );
    assert_eq!(trace, vec!["lookup", "acquire", "recheck", "fetch", "store", "serve-fetched"]);
    assert!(s.had_row);
}

#[test]
fn a_concurrent_refresh_is_reused() {
    let (_, trace) = run(TTL, vec![looked(None, 1000), Event::Acquired(Ok(())), looked(Some(1000), 1001)]);
    assert_eq!(trace, vec!["lookup", "acquire", "recheck", "serve-row"]);
}

#[test]
fn permanent_rows_never_go_stale() {
    let (_, trace) = run(FOREVER, vec![looked(Some(0), 1_000_000_000)]);
    assert_eq!(trace, vec!["lookup", "serve-hit"]);
}

#[test]
fn missing_credentials_fail_after_the_lookup() {
    let (s, _) = start(FOREVER);
    let (s, _) = advance(s, looked(None, 5));
    match advance(s, Event::Acquired(Err(AppError::Internal("TMDB API key not configured".to_string())))).1 {
        Action::Fail(AppError::Internal(m)) => assert_eq!(m, "TMDB API key not configured"),
        _ => panic!("expected a failure"),
    }
}

#[test]
fn stale_rows_answer_upstream_failures_when_allowed() {
    let events = || {
        vec![
            looked(Some(900), 1000),
            Event::Acquired(Ok(())),
            looked(Some(900), 1000),
            Event::Fetched(Err(CoreError::Provider("HTTP 503".to_string()))),
        ]
    };
    assert_eq!(run(STALE_OK, events()).1.last(), Some(&"serve-stale"));
    assert_eq!(run(TTL, events()).1.last(), Some(&"fail"));
    let no_row = vec![
        looked(None, 1000),
        Event::Acquired(Ok(())),
        looked(None, 1000),
        Event::Fetched(Err(CoreError::Upstream("timeout".to_string()))),
    ];
    assert_eq!(run(STALE_OK, no_row).1.last(), Some(&"fail"));
    let not_5xx = vec![
        looked(Some(1), 1000),
        Event::Acquired(Ok(())),
        looked(Some(1), 1000),
        Event::Fetched(Err(CoreError::Provider("HTTP 404".to_string()))),
    ];
    assert_eq!(run(STALE_OK, not_5xx).1.last(), Some(&"fail"));
}

#[test]
fn storage_failures_are_reported() {
    let (s, _) = start(TTL);
    let (s, _) = advance(s, looked(None, 0));
    let (s, _) = advance(s, Event::Acquired(Ok(())));
    let (s, _) = advance(s, looked(None, 0));
    let (s, _) = advance(s, Event::Fetched(Ok(())));
    match advance(s, Event::Stored(Err(CoreError::Database("down".to_string())))).1 {
        Action::Fail(AppError::Core(CoreError::Database(m))) => assert_eq!(m, "down"),
        _ => panic!("expected a database failure"),
    }
}
