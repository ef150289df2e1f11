//! The read-through cache that provider routes share: when a stored row is
//! fresh enough to serve, how concurrent refreshes are grouped, and when a
//! stale row answers for a failed upstream.
use vstd::prelude::*;
use crate::error::CoreError;
use crate::text::{chars_of, contains_chars, has_infix};

verus! {

/// An instant: whole seconds since the Unix epoch and the nanoseconds past
/// that second.
#[derive(Clone, Copy, Debug)]
pub struct Timestamp {
    pub secs: i64,
    pub nanos: u32,
}

/// An instant in nanoseconds since the epoch.
pub open spec fn nanos_of(t: Timestamp) -> int {
    t.secs * 1_000_000_000 + t.nanos
}

/// The largest TTL, in seconds, that a time span can hold.
pub const MAX_TTL_SECS: i64 = 9_223_372_036_854_775;

/// Whether a row fetched at `fetched` is still fresh at `now` under a TTL of
/// `ttl_seconds`: it is younger than the TTL.
pub open spec fn fresh_spec(now: Timestamp, fetched: Timestamp, ttl_seconds: i64) -> bool {
    nanos_of(now) - nanos_of(fetched) < ttl_seconds * 1_000_000_000
}

/// Whether a row fetched at `fetched` is still fresh at `now`.
pub fn is_fresh_at(now: Timestamp, fetched: Timestamp, ttl_seconds: i64) -> (res: bool)
    requires
        -MAX_TTL_SECS <= ttl_seconds <= MAX_TTL_SECS,
    ensures
        res == fresh_spec(now, fetched, ttl_seconds),
{
    let n: i128 = now.secs as i128 * 1_000_000_000 + now.nanos as i128;
    let f: i128 = fetched.secs as i128 * 1_000_000_000 + fetched.nanos as i128;
    let ttl: i128 = ttl_seconds as i128 * 1_000_000_000;
    n - f < ttl
}

/// A row that is fresh at some instant was fresh at every earlier instant,
/// and a longer TTL keeps it fresh.
pub proof fn law_freshness_monotone(earlier: Timestamp, later: Timestamp, fetched: Timestamp, ttl: i64, longer: i64)
    requires
        nanos_of(earlier) <= nanos_of(later),
        ttl <= longer,
        fresh_spec(later, fetched, ttl),
    ensures
        fresh_spec(earlier, fetched, ttl),
        fresh_spec(later, fetched, longer),
{
    assert(ttl * 1_000_000_000 <= longer * 1_000_000_000) by (nonlinear_arith)
        requires
            ttl <= longer,
    ;
}

/// A reading of the system clock: `Ok` with the whole seconds and the
/// nanoseconds since the Unix epoch, or `Err` with how far before the epoch
/// the clock reads.
pub type ClockReading = Result<(u64, u32), (u64, u32)>;

/// `std::time::SystemTime::now().duration_since(UNIX_EPOCH)`, as seconds and
/// sub-second nanoseconds (`Duration::subsec_nanos`, documented below one
/// billion), the error's `duration()` when the clock reads before the epoch.
/// Trusted; nothing else is claimed, the value depending on the clock.
#[verifier::external_body]
fn clock_reading() -> (res: ClockReading)
    ensures
        match res {
            Ok(r) => r.1 < 1_000_000_000,
            Err(r) => r.1 < 1_000_000_000,
        },
{
    match std::time::SystemTime::now().duration_since(std::time::UNIX_EPOCH) {
        Ok(d) => Ok((d.as_secs(), d.subsec_nanos())),
        Err(e) => Err((e.duration().as_secs(), e.duration().subsec_nanos())),
    }
}

/// The instant a clock reading denotes, held to the range of a `Timestamp`
/// (the nearest end of that range beyond it).
pub open spec fn reading_nanos(r: ClockReading) -> int {
    let n: int = match r {
        Ok(v) => v.0 * 1_000_000_000 + v.1,
        Err(v) => -(v.0 * 1_000_000_000 + v.1),
    };
    if n > i64::MAX * 1_000_000_000 + 999_999_999 {
        i64::MAX * 1_000_000_000 + 999_999_999
    } else if n < i64::MIN * 1_000_000_000 {
        i64::MIN * 1_000_000_000
    } else {
        n
    }
}

/// The timestamp of a clock reading, after or before the epoch; a reading
/// beyond the range of a `Timestamp` gives the nearest end of that range.
pub fn timestamp_of_reading(r: ClockReading) -> (res: Timestamp)
    requires
        match r {
            Ok(v) => v.1 < 1_000_000_000,
            Err(v) => v.1 < 1_000_000_000,
        },
    ensures
        res.nanos < 1_000_000_000,
        nanos_of(res) == reading_nanos(r),
{
    match r {
        Ok((s, n)) => {
            if s <= i64::MAX as u64 {
                Timestamp { secs: s as i64, nanos: n }
            } else {
                Timestamp { secs: i64::MAX, nanos: 999_999_999 }
            }
        },
        Err((s, n)) => {
            if n == 0 {
                if s <= i64::MAX as u64 {
                    Timestamp { secs: -(s as i64), nanos: 0 }
                } else {
                    Timestamp { secs: i64::MIN, nanos: 0 }
                }
            } else if s <= i64::MAX as u64 {
                Timestamp { secs: -(s as i64) - 1, nanos: 1_000_000_000 - n }
            } else {
                Timestamp { secs: i64::MIN, nanos: 0 }
            }
        },
    }
}

/// The current time, as the system clock reads it (before the epoch too).
pub fn now_timestamp() -> (res: Timestamp)
    ensures
        res.nanos < 1_000_000_000,
{
    timestamp_of_reading(clock_reading())
}

/// Whether a row fetched at `fetched` is fresh now: younger than
/// `ttl_seconds` at the clock's current reading.
pub fn is_fresh(fetched: Timestamp, ttl_seconds: i64) -> (res: bool)
    requires
        -MAX_TTL_SECS <= ttl_seconds <= MAX_TTL_SECS,
    ensures
        exists|now: Timestamp| now.nanos < 1_000_000_000 && res == fresh_spec(now, fetched, ttl_seconds),
{
    let now = now_timestamp();
    is_fresh_at(now, fetched, ttl_seconds)
}

/// The single-flight window a refresh at `now_secs` falls in: concurrent
/// refreshes of one key within the same `max(ttl, 1)`-second window share
/// one upstream call. Division truncates toward zero.
pub open spec fn sf_bucket_spec(now_secs: i64, ttl_seconds: i64) -> int {
    let w: int = if ttl_seconds < 1 { 1 } else { ttl_seconds as int };
    if now_secs >= 0 {
        (now_secs as int) / w
    } else {
        -((-(now_secs as int)) / w)
    }
}

/// The single-flight window of a refresh at `now_secs` (see
/// [`sf_bucket_spec`]).
pub fn single_flight_bucket(now_secs: i64, ttl_seconds: i64) -> (res: i64)
    ensures
        res == sf_bucket_spec(now_secs, ttl_seconds),
{
    let w: i64 = if ttl_seconds < 1 { 1 } else { ttl_seconds };
    if now_secs >= 0 {
        now_secs / w
    } else {
        let m: i128 = -(now_secs as i128);
        let q: i128 = m / (w as i128);
        assert(0 <= q <= m) by (nonlinear_arith)
            requires
                q == (m as int) / (w as int),
                w >= 1,
                m >= 0,
        ;
        (-q) as i64
    }
}

/// The status codes whose mention in a provider error marks an upstream
/// server failure.
pub open spec fn server_error_markers() -> Seq<Seq<char>> {
    seq![
        " 500"@, " 501"@, " 502"@, " 503"@, " 504"@, " 505"@, " 506"@, " 507"@, " 508"@, " 510"@,
        " 511"@,
    ]
}

/// Whether a provider error message mentions an upstream 5xx status
/// (a space followed by 500-508, 510 or 511).
pub open spec fn mentions_5xx(message: Seq<char>) -> bool {
    exists|i: int| 0 <= i < server_error_markers().len() && has_infix(message, #[trigger] server_error_markers()[i])
}

/// Whether a provider error message mentions an upstream 5xx status.
pub fn contains_5xx_status(message: &str) -> (res: bool)
    ensures
        res == mentions_5xx(message@),
{
    let m = chars_of(message);
    let markers: [&str; 11] = [" 500", " 501", " 502", " 503", " 504", " 505", " 506", " 507", " 508", " 510", " 511"];
    let mut i: usize = 0;
    while i < 11
        invariant
            i <= 11,
            m@ == message@,
            forall|k: int| 0 <= k < 11 ==> (#[trigger] markers@[k])@ == server_error_markers()[k],
            forall|k: int| 0 <= k < i ==> !has_infix(message@, #[trigger] server_error_markers()[k]),
        decreases 11 - i,
    {
        if contains_chars(&m, &chars_of(markers[i])) {
            assert(has_infix(message@, server_error_markers()[i as int]));
            return true;
        }
        i = i + 1;
    }
    false
}

/// A space followed by the three characters of a status code.
pub open spec fn status_text(a: char, b: char, c: char) -> Seq<char> {
    seq![' ', a, b, c]
}

/// A provider message mentions an upstream 5xx status exactly when it holds
/// a space followed by `50` and a digit from 0 to 8, or by `510` or `511`:
/// an upstream 500 to 508, 510 or 511 always allows the stale fallback.
pub proof fn law_5xx_messages(m: Seq<char>)
    ensures
        mentions_5xx(m) <==> ((exists|d: char| '0' <= d <= '8' && #[trigger] has_infix(m, status_text('5', '0', d)))
            || has_infix(m, status_text('5', '1', '0')) || has_infix(m, status_text('5', '1', '1'))),
{
    reveal_strlit(" 500");
    reveal_strlit(" 501");
    reveal_strlit(" 502");
    reveal_strlit(" 503");
    reveal_strlit(" 504");
    reveal_strlit(" 505");
    reveal_strlit(" 506");
    reveal_strlit(" 507");
    reveal_strlit(" 508");
    reveal_strlit(" 510");
    reveal_strlit(" 511");
    let k = server_error_markers();
    assert(k[0] =~= status_text('5', '0', '0'));
    assert(k[1] =~= status_text('5', '0', '1'));
    assert(k[2] =~= status_text('5', '0', '2'));
    assert(k[3] =~= status_text('5', '0', '3'));
    assert(k[4] =~= status_text('5', '0', '4'));
    assert(k[5] =~= status_text('5', '0', '5'));
    assert(k[6] =~= status_text('5', '0', '6'));
    assert(k[7] =~= status_text('5', '0', '7'));
    assert(k[8] =~= status_text('5', '0', '8'));
    assert(k[9] =~= status_text('5', '1', '0'));
    assert(k[10] =~= status_text('5', '1', '1'));
    if mentions_5xx(m) {
        let i = choose|i: int| 0 <= i < k.len() && has_infix(m, #[trigger] k[i]);
        if i == 0 {
            assert(has_infix(m, status_text('5', '0', '0')));
        } else if i == 1 {
            assert(has_infix(m, status_text('5', '0', '1')));
        } else if i == 2 {
            assert(has_infix(m, status_text('5', '0', '2')));
        } else if i == 3 {
            assert(has_infix(m, status_text('5', '0', '3')));
        } else if i == 4 {
            assert(has_infix(m, status_text('5', '0', '4')));
        } else if i == 5 {
            assert(has_infix(m, status_text('5', '0', '5')));
        } else if i == 6 {
            assert(has_infix(m, status_text('5', '0', '6')));
        } else if i == 7 {
            assert(has_infix(m, status_text('5', '0', '7')));
        } else if i == 8 {
            assert(has_infix(m, status_text('5', '0', '8')));
        } else if i == 9 {
            assert(has_infix(m, status_text('5', '1', '0')));
        } else if i == 10 {
            assert(has_infix(m, status_text('5', '1', '1')));
        }
    }
    assert forall|d: char| '0' <= d <= '8' && #[trigger] has_infix(m, status_text('5', '0', d)) implies mentions_5xx(m) by {
        if d == '0' {
            assert(has_infix(m, k[0]));
        } else if d == '1' {
            assert(has_infix(m, k[1]));
        } else if d == '2' {
            assert(has_infix(m, k[2]));
        } else if d == '3' {
            assert(has_infix(m, k[3]));
        } else if d == '4' {
            assert(has_infix(m, k[4]));
        } else if d == '5' {
            assert(has_infix(m, k[5]));
        } else if d == '6' {
            assert(has_infix(m, k[6]));
        } else if d == '7' {
            assert(has_infix(m, k[7]));
        } else if d == '8' {
            assert(has_infix(m, k[8]));
        }
    }
    if has_infix(m, status_text('5', '1', '0')) {
        assert(has_infix(m, k[9]));
    }
    if has_infix(m, status_text('5', '1', '1')) {
        assert(has_infix(m, k[10]));
    }
}

/// Whether a failed refresh may be answered with a stale row: the upstream
/// was unreachable, or the provider reported an upstream 5xx status.
pub open spec fn should_fallback_spec(err: CoreError) -> bool {
    match err {
        CoreError::Upstream(_) => true,
        CoreError::Provider(m) => mentions_5xx(m@),
        _ => false,
    }
}

/// Whether a failed refresh may be answered with a stale row.
pub fn should_fallback(err: &CoreError) -> (res: bool)
    ensures
        res == should_fallback_spec(*err),
{
    match err {
        CoreError::Upstream(_) => true,
        CoreError::Provider(message) => contains_5xx_status(message.as_str()),
        _ => false,
    }
}

/// The answer to a refresh: the fetched value; or, when the fetch failed in
/// a way that allows it and a stale row exists, the stale row; or the error.
pub fn refresh_outcome<T>(fetched: Result<T, CoreError>, stale: Option<T>) -> (res: Result<T, CoreError>)
    ensures
        match fetched {
            Ok(v) => res == Ok::<T, CoreError>(v),
            Err(e) => if should_fallback_spec(e) && stale is Some {
                res == Ok::<T, CoreError>(stale.unwrap())
            } else {
                res == Err::<T, CoreError>(e)
            },
        },
{
    match fetched {
        Ok(v) => Ok(v),
        Err(e) => {
            if should_fallback(&e) {
                match stale {
                    Some(s) => Ok(s),
                    None => Err(e),
                }
            } else {
                Err(e)
            }
        },
    }
}

} // verus!
