//! Bearer-token handling: service keys (`tks_...` tokens checked against an
//! argon2 hash) and the admin session claims.
use vstd::prelude::*;
use vstd::string::StringSliceAdditionalSpecFns;
use vstd::utf8::{encode_utf8, is_char_boundary};
use crate::error::AppError;
use crate::text::{chars_of, concat_chars, has_prefix, starts_with, string_of, suffix_from};
use argon2::{PasswordHasher, PasswordVerifier};
use rand::Rng;
use rand::rngs::StdRng;

verus! {

/// Prefix of every service-key token.
pub open spec fn service_key_marker() -> Seq<char> {
    "tks_"@
}

/// The claims of an admin session token.
pub struct AdminClaims {
    pub sub: String,
    pub exp: usize,
}

/// Lifetime of an admin session, in seconds.
pub const ADMIN_SESSION_SECS: i64 = 86_400;

/// Whether an `Authorization` header value carries a bearer token.
pub open spec fn bearer_spec(v: Seq<char>) -> Option<Seq<char>> {
    if has_prefix(v, "Bearer "@) {
        Some(v.skip(7))
    } else {
        None
    }
}

/// A header value built as `Bearer <token>` yields back exactly `token`.
pub proof fn law_bearer_round_trip(token: Seq<char>)
    ensures
        bearer_spec("Bearer "@ + token) == Some(token),
{
    reveal_strlit("Bearer ");
    let v = "Bearer "@ + token;
    assert(v.take(7) =~= "Bearer "@);
    assert(v.skip(7) =~= token);
}

/// The token of an `Authorization: Bearer <token>` header value.
pub fn bearer_token(header_value: &str) -> (res: Option<String>)
    ensures
        match res {
            Some(t) => bearer_spec(header_value@) == Some(t@),
            None => bearer_spec(header_value@) is None,
        },
{
    let v = chars_of(header_value);
    let marker = chars_of("Bearer ");
    assert(marker@.len() == 7) by {
        reveal_strlit("Bearer ");
    }
    if starts_with(&v, &marker) {
        Some(string_of(&suffix_from(&v, 7)))
    } else {
        None
    }
}

/// The lookup prefix of a service-key token: its first 8 bytes, for a token
/// that starts with `tks_`, is at least 8 bytes long and has a character
/// boundary there; `None` for every other token.
pub fn service_key_prefix(raw_token: &str) -> (res: Option<String>)
    ensures
        res is Some <==> (has_prefix(raw_token@, service_key_marker()) && raw_token.spec_bytes().len() >= 8
            && is_char_boundary(raw_token.spec_bytes(), 8)),
        res matches Some(p) ==> encode_utf8(p@) == raw_token.spec_bytes().take(8),
{
    let v = chars_of(raw_token);
    let marker = chars_of("tks_");
    let n: usize = raw_token.as_bytes().len();
    if !starts_with(&v, &marker) || n < 8 || !raw_token.is_char_boundary(8) {
        return None;
    }
    let (head, _rest) = raw_token.split_at(8);
    let p = head.to_owned();
    assert(encode_utf8(p@) =~= raw_token.spec_bytes().take(8));
    Some(p)
}

/// Whether a key with expiry `expires_at` (microseconds since the epoch, if
/// any) is still valid at `now`.
pub fn key_not_expired(now_micros: i64, expires_at_micros: Option<i64>) -> (res: bool)
    ensures
        res == match expires_at_micros {
            Some(e) => now_micros <= e,
            None => true,
        },
{
    match expires_at_micros {
        Some(e) => now_micros <= e,
        None => true,
    }
}

/// Whether argon2 (default parameters) accepts `password` against the PHC
/// string `phc`: the string parses as a password hash and the password
/// verifies against it.
pub uninterp spec fn argon2_accepts(password: Seq<u8>, phc: Seq<char>) -> bool;

/// Calls `argon2::PasswordHash::new(phc)` and, when it parses,
/// `Argon2::default().verify_password(password, &hash)`. Trusted: the
/// outcome is the named function `argon2_accepts` of the password bytes and
/// the hash string (verification is deterministic); nothing more is claimed.
#[verifier::external_body]
fn argon2_verify(password: &[u8], phc: &str) -> (res: bool)
    ensures
        res == argon2_accepts(password@, phc@),
{
    match argon2::PasswordHash::new(phc) {
        Ok(h) => argon2::Argon2::default().verify_password(password, &h).is_ok(),
        Err(_) => false,
    }
}

/// Whether a stored key with argon2 hash `hash` and expiry `expires_at`
/// (microseconds since the epoch, if any) accepts the token `raw` at `now`.
pub open spec fn key_accepts_spec(raw: Seq<char>, hash: Seq<char>, expires_at: Option<i64>, now: i64) -> bool {
    &&& match expires_at {
        Some(e) => now <= e,
        None => true,
    }
    &&& argon2_accepts(encode_utf8(raw), hash)
}

/// Whether a stored, enabled service key accepts `raw_token`: it has not
/// expired at `now` and its argon2 hash verifies the token.
pub fn service_key_accepts(
    raw_token: &str,
    token_hash: &str,
    expires_at_micros: Option<i64>,
    now_micros: i64,
) -> (res: bool)
    ensures
        res == key_accepts_spec(raw_token@, token_hash@, expires_at_micros, now_micros),
{
    if !key_not_expired(now_micros, expires_at_micros) {
        return false;
    }
    argon2_verify(raw_token.as_bytes(), token_hash)
}

/// Whether a login's bootstrap key is the configured one.
pub fn login_allowed(given: &str, configured: &str) -> (res: bool)
    ensures
        res == (given@ == configured@),
{
    let a = given.to_owned();
    let b = configured.to_owned();
    a == b
}

/// The claims of an admin session opened at `now_secs`: subject `admin`,
/// expiring 24 hours later.
pub fn admin_claims_for(now_secs: i64) -> (res: AdminClaims)
    requires
        0 <= now_secs,
        now_secs + ADMIN_SESSION_SECS <= i64::MAX,
        now_secs + ADMIN_SESSION_SECS <= usize::MAX,
    ensures
        res.sub@ == "admin"@,
        res.exp == now_secs + ADMIN_SESSION_SECS,
{
    let exp: i64 = now_secs + ADMIN_SESSION_SECS;
    AdminClaims { sub: string_of(&chars_of("admin")), exp: exp as usize }
}

/// Whether decoded session claims grant admin access (subject `admin`).
pub fn admin_claims_accepted(claims: &AdminClaims) -> (res: bool)
    ensures
        res == (claims.sub@ == "admin"@),
{
    let admin = string_of(&chars_of("admin"));
    claims.sub == admin
}

/// The subject and expiry that `jsonwebtoken::decode` reads from `token`
/// under the HMAC key `secret`, with the default validation (HS256
/// signature, an `exp` claim present, no `aud` claim) but the expiry left
/// unchecked: `None` when the token does not verify, its `sub` is not a
/// string, or its `exp` is not an unsigned integer that fits `usize`.
pub uninterp spec fn hs256_claims_of(token: Seq<char>, secret: Seq<u8>) -> Option<(Seq<char>, int)>;

/// `jsonwebtoken::decode` of `token` with the key `secret`, under the
/// default validation with `validate_exp` turned off, its claims read as
/// `sub` (a string) and `exp` (an unsigned integer). Trusted: the outcome is
/// the named `hs256_claims_of` of the token and the key (with the expiry
/// unchecked, decoding reads neither the clock nor anything else).
#[verifier::external_body]
fn jwt_decode_hs256(token: &str, secret: &[u8]) -> (res: Result<AdminClaims, ()>)
    ensures
        match res {
            Ok(c) => hs256_claims_of(token@, secret@) == Some((c.sub@, c.exp as int)),
            Err(_) => hs256_claims_of(token@, secret@) is None,
        },
{
    let mut validation = jsonwebtoken::Validation::default();
    validation.validate_exp = false;
    let key = jsonwebtoken::DecodingKey::from_secret(secret);
    let claims = match jsonwebtoken::decode::<serde_json::Value>(token, &key, &validation) {
        Ok(d) => d.claims,
        Err(_) => return Err(()),
    };
    match (claims.get("sub").and_then(serde_json::Value::as_str), claims.get("exp").and_then(serde_json::Value::as_u64)) {
        (Some(sub), Some(exp)) => match usize::try_from(exp) {
            Ok(exp) => Ok(AdminClaims { sub: sub.to_string(), exp }),
            Err(_) => Err(()),
        },
        _ => Err(()),
    }
}

/// How long after its `exp` a session token is still accepted: the leeway
/// of jsonwebtoken's default validation.
pub const SESSION_LEEWAY_SECS: i64 = 60;

/// Whether a session expiring at `exp` is still accepted at `now`: a token
/// whose `exp` lies more than the leeway in the past is refused.
pub open spec fn session_live(exp: int, now: int) -> bool {
    exp >= now - SESSION_LEEWAY_SECS
}

/// The claims the admin check grants for the `Authorization` header value
/// `header` at `now`: those of its bearer token, when the token verifies
/// under `secret`, names the subject `admin` and has not expired.
pub open spec fn admin_session_spec(header: Option<Seq<char>>, secret: Seq<u8>, now: int) -> Option<(Seq<char>, int)> {
    match header {
        None => None,
        Some(h) => match bearer_spec(h) {
            None => None,
            Some(t) => match hs256_claims_of(t, secret) {
                None => None,
                Some(c) => if c.0 == "admin"@ && session_live(c.1, now) {
                    Some(c)
                } else {
                    None
                },
            },
        },
    }
}

/// The text of an optional header value.
pub open spec fn header_view(header: Option<&str>) -> Option<Seq<char>> {
    match header {
        Some(h) => Some(h@),
        None => None,
    }
}

/// Whether `res` is what the admin check answers when it grants `granted`:
/// those claims, or `Unauthorized` when nothing is granted.
pub open spec fn admin_answer(res: Result<AdminClaims, AppError>, granted: Option<(Seq<char>, int)>) -> bool {
    match granted {
        Some(c) => res matches Ok(r) && r.sub@ == c.0 && r.exp == c.1,
        None => res == Err::<AdminClaims, AppError>(AppError::Unauthorized),
    }
}

/// What a decoded session token grants at `now_secs`: its claims when their
/// subject is `admin` and they have not expired, `Unauthorized` otherwise
/// and when decoding failed.
pub fn admin_claims_check(decoded: Result<AdminClaims, ()>, now_secs: i64) -> (res: Result<AdminClaims, AppError>)
    ensures
        match decoded {
            Ok(c) => if c.sub@ == "admin"@ && session_live(c.exp as int, now_secs as int) {
                res == Ok::<AdminClaims, AppError>(c)
            } else {
                res == Err::<AdminClaims, AppError>(AppError::Unauthorized)
            },
            Err(_) => res == Err::<AdminClaims, AppError>(AppError::Unauthorized),
        },
{
    match decoded {
        Ok(c) => {
            let live = c.exp as i128 >= now_secs as i128 - SESSION_LEEWAY_SECS as i128;
            if admin_claims_accepted(&c) && live {
                Ok(c)
            } else {
                Err(AppError::Unauthorized)
            }
        },
        Err(_) => Err(AppError::Unauthorized),
    }
}

/// The admin check at `now_secs`: the claims of the header's bearer token
/// when it is validly signed with `secret`, names the subject `admin` and
/// has not expired; `Unauthorized` in every other case.
pub fn admin_claims_at(header: Option<&str>, secret: &[u8], now_secs: i64) -> (res: Result<AdminClaims, AppError>)
    ensures
        admin_answer(res, admin_session_spec(header_view(header), secret@, now_secs as int)),
{
    match header {
        None => Err(AppError::Unauthorized),
        Some(h) => match bearer_token(h) {
            None => Err(AppError::Unauthorized),
            Some(token) => admin_claims_check(jwt_decode_hs256(token.as_str(), secret), now_secs),
        },
    }
}

/// The admin check for an `Authorization` header value at the current time
/// (`metrics::now_unix`): as `admin_claims_at` at that reading of the clock.
pub fn admin_claims_from_header(header: Option<&str>, secret: &[u8]) -> (res: Result<AdminClaims, AppError>)
    ensures
        exists|now: int|
            0 <= now <= i64::MAX && #[trigger] admin_answer(
                res,
                admin_session_spec(header_view(header), secret@, now),
            ),
        header is None ==> res == Err::<AdminClaims, AppError>(AppError::Unauthorized),
        header matches Some(h) && bearer_spec(h@) is None ==> res == Err::<AdminClaims, AppError>(AppError::Unauthorized),
        res matches Ok(c) ==> c.sub@ == "admin"@ && hs256_claims_of(
            bearer_spec(header_view(header)->0)->0,
            secret@,
        ) == Some((c.sub@, c.exp as int)),
{
    let now = crate::metrics::now_unix();
    let res = admin_claims_at(header, secret, now);
    assert(admin_answer(res, admin_session_spec(header_view(header), secret@, now as int)));
    res
}

/// The HS256 JSON Web Token that `jsonwebtoken::encode` produces with the
/// default header for the claims `{"exp": exp, "sub": sub}` and the HMAC key
/// `secret`.
pub uninterp spec fn hs256_jwt_of(sub: Seq<char>, exp: int, secret: Seq<u8>) -> Seq<char>;

/// `jsonwebtoken::encode(&Header::default(), claims, &EncodingKey::from_secret(secret))`
/// of the claims object `{"exp": exp, "sub": sub}`, or the error's message.
/// Trusted: it succeeds (an HMAC key always suits the HS256 header, and
/// serialising a JSON map and HMAC signing cannot fail); the token is the
/// named `hs256_jwt_of` of its arguments; and decoding it with the same key
/// gives back `sub` and `exp`, as `hs256_claims_of` describes.
#[verifier::external_body]
fn jwt_encode_admin(sub: &str, exp: usize, secret: &[u8]) -> (res: Result<String, String>)
    ensures
        res is Ok,
        res matches Ok(t) ==> t@ == hs256_jwt_of(sub@, exp as int, secret@) && hs256_claims_of(t@, secret@) == Some(
            (sub@, exp as int),
        ),
{
    let mut claims = serde_json::Map::new();
    claims.insert("sub".to_string(), serde_json::Value::from(sub));
    claims.insert("exp".to_string(), serde_json::Value::from(exp));
    let key = jsonwebtoken::EncodingKey::from_secret(secret);
    jsonwebtoken::encode(&jsonwebtoken::Header::default(), &claims, &key).map_err(|e| e.to_string())
}

/// The answer to a signing attempt: the token, or an internal error
/// `Failed to create token: <reason>`.
pub fn signed_token_outcome(signed: Result<String, String>) -> (res: Result<String, AppError>)
    ensures
        match signed {
            Ok(t) => res == Ok::<String, AppError>(t),
            Err(m) => res matches Err(AppError::Internal(msg)) && msg@ == "Failed to create token: "@ + m@,
        },
{
    match signed {
        Ok(t) => Ok(t),
        Err(m) => Err(AppError::Internal(string_of(&concat_chars(&chars_of("Failed to create token: "), &chars_of(m.as_str()))))),
    }
}

/// Whether `t` is the session token of an admin login at `now_secs`: the
/// claims `admin` and `now_secs + 24h`, signed with `secret`.
pub open spec fn is_admin_token(t: Seq<char>, now_secs: int, secret: Seq<u8>) -> bool {
    &&& t == hs256_jwt_of("admin"@, now_secs + ADMIN_SESSION_SECS, secret)
    &&& hs256_claims_of(t, secret) == Some(("admin"@, now_secs + ADMIN_SESSION_SECS))
}

/// The session token of an admin login at `now_secs`: the claims of
/// `admin_claims_for`, signed with `secret`.
pub fn admin_token(now_secs: i64, secret: &[u8]) -> (res: Result<String, AppError>)
    requires
        0 <= now_secs,
        now_secs + ADMIN_SESSION_SECS <= i64::MAX,
        now_secs + ADMIN_SESSION_SECS <= usize::MAX,
    ensures
        res matches Ok(t) && is_admin_token(t@, now_secs as int, secret@),
{
    let claims = admin_claims_for(now_secs);
    let signed = jwt_encode_admin(claims.sub.as_str(), claims.exp, secret);
    signed_token_outcome(signed)
}

/// An admin login: `Unauthorized` unless `given` is the configured bootstrap
/// key, else the session token of `admin_token`.
pub fn login_token(given: &str, configured: &str, now_secs: i64, secret: &[u8]) -> (res: Result<String, AppError>)
    requires
        0 <= now_secs,
        now_secs + ADMIN_SESSION_SECS <= i64::MAX,
        now_secs + ADMIN_SESSION_SECS <= usize::MAX,
    ensures
        given@ != configured@ ==> res == Err::<String, AppError>(AppError::Unauthorized),
        given@ == configured@ ==> (res matches Ok(t) && is_admin_token(t@, now_secs as int, secret@)),
{
    if !login_allowed(given, configured) {
        return Err(AppError::Unauthorized);
    }
    admin_token(now_secs, secret)
}

/// A session token issued at a login is accepted by the admin check, with
/// its claims, up to the leeway after its expiry, and refused after that.
pub proof fn law_login_token_accepted_until_expiry(token: Seq<char>, issued_at: int, secret: Seq<u8>, now: int)
    requires
        is_admin_token(token, issued_at, secret),
    ensures
        session_live(issued_at + ADMIN_SESSION_SECS, now) ==> admin_session_spec(
            Some("Bearer "@ + token),
            secret,
            now,
        ) == Some(("admin"@, issued_at + ADMIN_SESSION_SECS)),
        !session_live(issued_at + ADMIN_SESSION_SECS, now) ==> admin_session_spec(
            Some("Bearer "@ + token),
            secret,
            now,
        ) is None,
{
    law_bearer_round_trip(token);
}

/// The instant an RFC 3339 date-time string denotes (`chrono`'s
/// `DateTime::parse_from_rfc3339`), as seconds since the epoch and the
/// nanoseconds past them, or the message of the parse error.
pub uninterp spec fn rfc3339_of(s: Seq<char>) -> Result<(i64, u32), Seq<char>>;

/// `chrono::DateTime::parse_from_rfc3339(s)`, read as its `timestamp()` and
/// `timestamp_subsec_nanos()`, or the error's message. Trusted: the outcome
/// is the named `rfc3339_of` of the string (parsing reads nothing else).
#[verifier::external_body]
fn parse_rfc3339(s: &str) -> (res: Result<(i64, u32), String>)
    ensures
        match res {
            Ok(v) => rfc3339_of(s@) == Ok::<(i64, u32), Seq<char>>(v),
            Err(m) => rfc3339_of(s@) == Err::<(i64, u32), Seq<char>>(m@),
        },
{
    match chrono::DateTime::parse_from_rfc3339(s) {
        Ok(d) => Ok((d.timestamp(), d.timestamp_subsec_nanos())),
        Err(e) => Err(e.to_string()),
    }
}

/// The expiry a parsed `expires_at` gives a new key: the instant, or a bad
/// request `Invalid expires_at: <reason>`.
pub fn expiry_outcome(parsed: Result<(i64, u32), String>) -> (res: Result<(i64, u32), AppError>)
    ensures
        match parsed {
            Ok(v) => res == Ok::<(i64, u32), AppError>(v),
            Err(m) => res matches Err(AppError::BadRequest(msg)) && msg@ == "Invalid expires_at: "@ + m@,
        },
{
    match parsed {
        Ok(v) => Ok(v),
        Err(m) => Err(AppError::BadRequest(string_of(&concat_chars(&chars_of("Invalid expires_at: "), &chars_of(m.as_str()))))),
    }
}

/// The expiry of a new service key: none when `expires_at` is absent, else
/// the instant its RFC 3339 text denotes, or a bad request
/// `Invalid expires_at: <reason>` when it does not parse.
pub fn key_expiry(value: Option<&str>) -> (res: Result<Option<(i64, u32)>, AppError>)
    ensures
        match value {
            None => res == Ok::<Option<(i64, u32)>, AppError>(None),
            Some(s) => match rfc3339_of(s@) {
                Ok(v) => res == Ok::<Option<(i64, u32)>, AppError>(Some(v)),
                Err(m) => res matches Err(AppError::BadRequest(msg)) && msg@ == "Invalid expires_at: "@ + m,
            },
        },
{
    match value {
        None => Ok(None),
        Some(s) => match expiry_outcome(parse_rfc3339(s)) {
            Ok(v) => Ok(Some(v)),
            Err(e) => Err(e),
        },
    }
}

/// Whether a character is an ASCII letter or digit.
pub open spec fn is_ascii_alnum(c: char) -> bool {
    ('a' <= c <= 'z') || ('A' <= c <= 'Z') || ('0' <= c <= '9')
}

/// A `rand::rngs::StdRng`, the standard cryptographically secure generator.
#[verifier::external_type_specification]
#[verifier::external_body]
pub struct ExStdRng(rand::rngs::StdRng);

/// `StdRng::from_rng(OsRng)`: a generator seeded from the operating system's
/// random source, or `None` when that source fails. Trusted; nothing is
/// claimed of the outcome, which depends on the machine.
#[verifier::external_body]
fn seeded_rng() -> Option<StdRng> {
    rand::SeedableRng::from_rng(rand::rngs::OsRng).ok()
}

/// `n` characters drawn by `rand`'s `Alphanumeric` distribution from `rng`.
/// Trusted: calls `rng.sample_iter(&Alphanumeric).take(n)`; the source shows
/// each sample is one of `a-z`, `A-Z`, `0-9`, which is all that is claimed
/// besides the count.
#[verifier::external_body]
fn random_alphanumeric(rng: &mut StdRng, n: usize) -> (res: Vec<char>)
    ensures
        res@.len() == n,
        forall|i: int| 0 <= i < n ==> #[trigger] is_ascii_alnum(res@[i]),
{
    rng.sample_iter(&rand::distributions::Alphanumeric).take(n).map(char::from).collect()
}

/// A freshly generated service key: the token handed to the client once, the
/// prefix the key is looked up by, and the argon2 hash that is stored.
pub struct NewServiceKey {
    pub token: String,
    pub token_prefix: String,
    pub token_hash: String,
}

/// The token and lookup prefix for the random part `random_part`:
/// `tks_<random_part>` and its first 8 characters.
pub fn service_token_from(random_part: &[char]) -> (res: (String, String))
    requires
        random_part@.len() >= 4,
    ensures
        res.0@ == service_key_marker() + random_part@,
        res.1@ == (service_key_marker() + random_part@).take(8),
{
    let mut token = chars_of("tks_");
    let mut i: usize = 0;
    let ghost head = token@;
    while i < random_part.len()
        invariant
            i <= random_part@.len(),
            head == service_key_marker(),
            token@ == head + random_part@.take(i as int),
        decreases random_part@.len() - i,
    {
        token.push(random_part[i]);
        i = i + 1;
        assert(token@ =~= head + random_part@.take(i as int));
    }
    assert(random_part@.take(random_part@.len() as int) =~= random_part@);
    proof {
        reveal_strlit("tks_");
    }
    let mut prefix: Vec<char> = Vec::new();
    let mut k: usize = 0;
    while k < 8
        invariant
            k <= 8,
            token@.len() >= 8,
            prefix@ == token@.take(k as int),
        decreases 8 - k,
    {
        prefix.push(token[k]);
        k = k + 1;
        assert(prefix@ =~= token@.take(k as int));
    }
    (string_of(&token), string_of(&prefix))
}

/// 16 bytes from `rng` (`RngCore::fill_bytes`), the recommended length of an
/// argon2 salt. Trusted; only the length is claimed, the bytes being random.
#[verifier::external_body]
fn random_salt_bytes(rng: &mut StdRng) -> (res: Vec<u8>)
    ensures
        res@.len() == 16,
{
    let mut buf = vec![0u8; 16];
    rand::RngCore::fill_bytes(rng, &mut buf);
    buf
}

/// `Argon2::default().hash_password(password, &SaltString::encode_b64(salt))`,
/// rendered as its PHC string, or the error's message. Trusted: a PHC string
/// it returns verifies `password` (`argon2_accepts`), since verification
/// recomputes the hash with the parameters and salt the string records; and
/// it succeeds for a password of at most `u32::MAX` bytes and a salt of 8 to
/// 48 bytes (the salt then encodes within 64 B64 characters and decodes to
/// at least argon2's 8 bytes).
#[verifier::external_body]
fn argon2_hash(password: &[u8], salt: &[u8]) -> (res: Result<String, String>)
    ensures
        res matches Ok(phc) ==> argon2_accepts(password@, phc@),
        password@.len() <= u32::MAX && 8 <= salt@.len() <= 48 ==> res is Ok,
{
    let salt = match argon2::password_hash::SaltString::encode_b64(salt) {
        Ok(s) => s,
        Err(e) => return Err(format!("{}", e)),
    };
    match argon2::Argon2::default().hash_password(password, &salt) {
        Ok(h) => Ok(h.to_string()),
        Err(e) => Err(format!("{}", e)),
    }
}

/// A UTF-8 encoding takes at most four bytes per character.
proof fn lemma_utf8_len_bound(s: Seq<char>)
    ensures
        encode_utf8(s).len() <= 4 * s.len(),
    decreases s.len(),
{
    if s.len() > 0 {
        lemma_utf8_len_bound(s.drop_first());
    }
}

/// The service key made of the random characters `random_part` and salted
/// with `salt`: `tks_<random_part>`, its 8-character lookup prefix and its
/// argon2 hash. Hashing such a token cannot fail; a failure would be
/// reported as `Failed to hash token: <reason>`.
pub fn service_key_from(random_part: &[char], salt: &[u8]) -> (res: Result<NewServiceKey, String>)
    requires
        4 <= random_part@.len() <= 1024,
        8 <= salt@.len() <= 48,
    ensures
        res matches Ok(k) && {
            &&& k.token@ == service_key_marker() + random_part@
            &&& k.token_prefix@ == k.token@.take(8)
            &&& argon2_accepts(encode_utf8(k.token@), k.token_hash@)
        },
{
    let (token, token_prefix) = service_token_from(random_part);
    proof {
        reveal_strlit("tks_");
        lemma_utf8_len_bound(token@);
    }
    match argon2_hash(token.as_str().as_bytes(), salt) {
        Ok(token_hash) => Ok(NewServiceKey { token, token_prefix, token_hash }),
        Err(reason) => Err(string_of(&concat_chars(&chars_of("Failed to hash token: "), &chars_of(reason.as_str())))),
    }
}

/// Generates a service key: `tks_` and 32 random ASCII letters or digits,
/// its 8-character lookup prefix and its argon2 hash, salted with 16 random
/// bytes. The only failure is an unavailable random source of the
/// operating system, reported as `Failed to generate token: no random
/// source`.
pub fn generate_service_key() -> (res: Result<NewServiceKey, String>)
    ensures
        res matches Ok(k) ==> {
            &&& k.token@.len() == 36
            &&& has_prefix(k.token@, service_key_marker())
            &&& forall|i: int| 4 <= i < 36 ==> #[trigger] is_ascii_alnum(k.token@[i])
            &&& k.token_prefix@ == k.token@.take(8)
            &&& argon2_accepts(encode_utf8(k.token@), k.token_hash@)
        },
        res matches Err(m) ==> m@ == "Failed to generate token: no random source"@,
{
    let mut rng = match seeded_rng() {
        Some(r) => r,
        None => return Err(string_of(&chars_of("Failed to generate token: no random source"))),
    };
    let random_part = random_alphanumeric(&mut rng, 32);
    let salt = random_salt_bytes(&mut rng);
    let res = service_key_from(&random_part, &salt);
    proof {
        reveal_strlit("tks_");
        if res is Ok {
            let k = res->Ok_0;
            assert(k.token@.take(4) =~= service_key_marker());
            assert forall|i: int| 4 <= i < 36 implies #[trigger] is_ascii_alnum(k.token@[i]) by {
                assert(k.token@[i] == random_part@[i - 4]);
            }
        }
    }
    res
}

/// A freshly generated key authenticates its own token for as long as it
/// has not expired.
pub proof fn law_generated_key_authenticates(k: NewServiceKey, expires_at: Option<i64>, now: i64)
    requires
        argon2_accepts(encode_utf8(k.token@), k.token_hash@),
        match expires_at {
            Some(e) => now <= e,
            None => true,
        },
    ensures
        key_accepts_spec(k.token@, k.token_hash@, expires_at, now),
{
}

} // verus!
