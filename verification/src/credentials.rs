//! Provider credentials: required settings, and the cached upstream access
//! tokens that are reused until shortly before they expire.
use vstd::prelude::*;
use crate::error::{AppError, CoreError};
use crate::freshness::{nanos_of, Timestamp};
use crate::text::{chars_of, concat_chars, string_of};

verus! {

/// A required provider setting: its value, or an internal error
/// `<NAME> not configured` when it is absent.
pub fn required_setting(value: &Option<String>, name: &str) -> (res: Result<String, AppError>)
    ensures
        match value {
            Some(v) => res matches Ok(r) && r@ == v@,
            None => res matches Err(AppError::Internal(m)) && m@ == name@ + " not configured"@,
        },
{
    match value {
        Some(v) => Ok(v.clone()),
        None => Err(AppError::Internal(string_of(&concat_chars(&chars_of(name), &chars_of(" not configured"))))),
    }
}

/// The OpenSubtitles API key a subtitle search needs: the configured value,
/// or the provider error `opensubtitles: OPENSUBTITLES_API_KEY is not
/// configured` when none is set.
pub fn opensubtitles_api_key(value: &Option<String>) -> (res: Result<String, AppError>)
    ensures
        match value {
            Some(v) => res matches Ok(r) && r@ == v@,
            None => res matches Err(AppError::Core(CoreError::Provider(m)))
                && m@ == "opensubtitles: OPENSUBTITLES_API_KEY is not configured"@,
        },
{
    match value {
        Some(v) => Ok(v.clone()),
        None => Err(AppError::Core(CoreError::Provider(
            string_of(&chars_of("opensubtitles: OPENSUBTITLES_API_KEY is not configured")),
        ))),
    }
}

/// An optional provider setting, or `default` when it is absent.
pub fn setting_or(value: &Option<String>, default: &str) -> (res: String)
    ensures
        res@ == match value {
            Some(v) => v@,
            None => default@,
        },
{
    match value {
        Some(v) => v.clone(),
        None => string_of(&chars_of(default)),
    }
}

/// How long before its stated expiry a Spotify token is replaced.
pub const SPOTIFY_TOKEN_MARGIN_SECS: i64 = 60;

/// How long before its stated expiry a TheTVDB token is replaced.
pub const THETVDB_TOKEN_MARGIN_SECS: i64 = 300;

/// Whether a cached token that expires at `expires_at` may still be used at
/// `now`: its expiry, moved `margin_secs` earlier, is still ahead.
pub open spec fn token_usable_spec(expires_at: Timestamp, now: Timestamp, margin_secs: i64) -> bool {
    nanos_of(expires_at) - margin_secs * 1_000_000_000 > nanos_of(now)
}

/// Whether a cached token that expires at `expires_at` may still be used.
pub fn token_usable(expires_at: Timestamp, now: Timestamp, margin_secs: i64) -> (res: bool)
    requires
        0 <= margin_secs <= 1_000_000_000,
    ensures
        res == token_usable_spec(expires_at, now, margin_secs),
{
    let e: i128 = expires_at.secs as i128 * 1_000_000_000 + expires_at.nanos as i128;
    let n: i128 = now.secs as i128 * 1_000_000_000 + now.nanos as i128;
    e - (margin_secs as i128) * 1_000_000_000 > n
}

/// The expiry of a token issued at `now` that lives `expires_in` seconds, or
/// `None` when it falls outside the range of time stamps.
pub fn token_expiry(now: Timestamp, expires_in: i64) -> (res: Option<Timestamp>)
    ensures
        match res {
            Some(t) => t.secs == now.secs + expires_in && t.nanos == now.nanos,
            None => now.secs + expires_in < i64::MIN || now.secs + expires_in > i64::MAX,
        },
{
    match now.secs.checked_add(expires_in) {
        Some(s) => Some(Timestamp { secs: s, nanos: now.nanos }),
        None => None,
    }
}

/// A token is replaced no later than its stated expiry: a usable token has
/// not yet expired.
pub proof fn law_usable_token_has_not_expired(expires_at: Timestamp, now: Timestamp, margin_secs: i64)
    requires
        margin_secs >= 0,
        token_usable_spec(expires_at, now, margin_secs),
    ensures
        nanos_of(expires_at) > nanos_of(now),
{
}

} // verus!
