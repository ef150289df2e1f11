use argon2::password_hash::SaltString;
use argon2::{Argon2, PasswordHasher};
use std::time::{SystemTime, UNIX_EPOCH};
use tokimo_server::auth::{
    admin_claims_accepted, admin_claims_at, admin_claims_for, admin_claims_check, admin_claims_from_header, admin_token, bearer_token,
    expiry_outcome, generate_service_key, key_expiry, key_not_expired, login_allowed, login_token, service_key_accepts,
    service_key_from, service_key_prefix, service_token_from, signed_token_outcome, AdminClaims,
};
use tokimo_server::error::AppError;

fn now_secs() -> i64 {
    SystemTime::now().duration_since(UNIX_EPOCH).unwrap().as_secs() as i64
}

fn is_unauthorized<T>(r: Result<T, AppError>) -> bool {
    matches!(r, Err(AppError::Unauthorized))
}

fn hash_of(token: &str) -> String {
    let salt = SaltString::encode_b64(b"0123456789abcdef").unwrap();
    Argon2::default().hash_password(token.as_bytes(), &salt).unwrap().to_string()
}

#[test]
fn bearer_tokens() {
    assert_eq!(bearer_token("Bearer tks_abc"), Some("tks_abc".to_string()));
    assert_eq!(bearer_token("Bearer "), Some(String::new()));
    assert_eq!(bearer_token("bearer tks_abc"), None);
    assert_eq!(bearer_token("Basic abc"), None);
    assert_eq!(bearer_token(""), None);
}

#[test]
fn service_key_prefixes() {
    assert_eq!(service_key_prefix("tks_abcdefgh"), Some("tks_abcd".to_string()));
    assert_eq!(service_key_prefix("tks_abcd"), Some("tks_abcd".to_string()));
    assert_eq!(service_key_prefix("tks_abc"), None);
    assert_eq!(service_key_prefix("xyz_abcdefgh"), None);
    assert_eq!(service_key_prefix("tks_abc\u{e9}xyz"), None);
    assert_eq!(service_key_prefix("tks_ab\u{e9}xyz"), Some("tks_ab\u{e9}".to_string()));
}

#[test]
fn expiry_is_inclusive() {
    assert!(key_not_expired(100, None));
    assert!(key_not_expired(100, Some(100)));
    assert!(!key_not_expired(101, Some(100)));
}

#[test]
fn argon2_hashes_verify_the_token() {
    let token = "tks_0123456789abcdefABCDEFGHIJKLMNOPQRSTUV";
    let hash = hash_of(token);
    assert!(service_key_accepts(token, &hash, None, 0));
    assert!(service_key_accepts(token, &hash, Some(10), 10));
    assert!(!service_key_accepts(token, &hash, Some(9), 10));
    assert!(!service_key_accepts("tks_wrong", &hash, None, 0));
    assert!(!service_key_accepts(token, "not a phc string", None, 0));
}

#[test]
fn generated_keys_verify() {
    let k = generate_service_key().ok().unwrap();
    assert_eq!(k.token.len(), 36);
    assert!(k.token.starts_with("tks_"));
    assert!(k.token[4..].chars().all(|c| c.is_ascii_alphanumeric()));
    assert_eq!(k.token_prefix, k.token[..8]);
    assert!(service_key_accepts(&k.token, &k.token_hash, None, 0));
    let other = generate_service_key().ok().unwrap();
    assert_ne!(k.token, other.token);
}

#[test]
fn tokens_are_marked_and_prefixed() {
    let random: Vec<char> = "ABCDefgh".chars().collect();
    let (token, prefix) = service_token_from(&random);
    assert_eq!(token, "tks_ABCDefgh");
    assert_eq!(prefix, "tks_ABCD");
}

#[test]
fn admin_sessions() {
    let c = admin_claims_for(1_700_000_000);
    assert_eq!(c.sub, "admin");
    assert_eq!(c.exp, 1_700_086_400);
    assert!(admin_claims_accepted(&c));
    assert!(!admin_claims_accepted(&AdminClaims { sub: "user".to_string(), exp: 0 }));
    assert!(login_allowed("secret", "secret"));
    assert!(!login_allowed("secret", "Secret"));
}

#[test]
fn admin_tokens_round_trip() {
    let now = now_secs();
    let token = admin_token(now, b"s3cret").ok().unwrap();
    assert_eq!(token.split('.').count(), 3);
    let header = format!("Bearer {}", token);
    let claims = admin_claims_from_header(Some(&header), b"s3cret").ok().unwrap();
    assert_eq!(claims.sub, "admin");
    assert_eq!(claims.exp as i64, now + 86_400);
    assert!(is_unauthorized(admin_claims_from_header(Some(&header), b"another secret")));
    assert!(is_unauthorized(admin_claims_from_header(Some(&token), b"s3cret")));
    assert!(is_unauthorized(admin_claims_from_header(None, b"s3cret")));
    assert!(is_unauthorized(admin_claims_from_header(Some("Bearer not-a-jwt"), b"s3cret")));
}

#[test]
fn expired_admin_tokens_are_refused() {
    let now = now_secs();
    let token = admin_token(now - 2 * 86_400, b"s3cret").ok().unwrap();
    let header = format!("Bearer {}", token);
    assert!(is_unauthorized(admin_claims_from_header(Some(&header), b"s3cret")));
}

#[test]
fn tokens_for_other_subjects_are_refused() {
    let mut claims = serde_json::Map::new();
    claims.insert("sub".to_string(), serde_json::Value::from("user"));
    claims.insert("exp".to_string(), serde_json::Value::from(now_secs() + 3600));
    let token = jsonwebtoken::encode(
        &jsonwebtoken::Header::default(),
        &claims,
        &jsonwebtoken::EncodingKey::from_secret(b"s3cret"),
    )
    .unwrap();
    let header = format!("Bearer {}", token);
    assert!(is_unauthorized(admin_claims_from_header(Some(&header), b"s3cret")));
    assert!(is_unauthorized(admin_claims_check(Ok(AdminClaims { sub: "user".to_string(), exp: 1 }), 0)));
    assert!(is_unauthorized(admin_claims_check(Err(()), 0)));
    let c = admin_claims_check(Ok(AdminClaims { sub: "admin".to_string(), exp: 7 }), 0).ok().unwrap();
    assert_eq!((c.sub.as_str(), c.exp), ("admin", 7));
}

#[test]
fn logins() {
    let now = now_secs();
    assert!(is_unauthorized(login_token("wrong", "bootstrap", now, b"s3cret")));
    let token = login_token("bootstrap", "bootstrap", now, b"s3cret").ok().unwrap();
    let header = format!("Bearer {}", token);
    assert_eq!(admin_claims_from_header(Some(&header), b"s3cret").ok().unwrap().sub, "admin");
}

#[test]
fn signing_failures_are_internal_errors() {
    match signed_token_outcome(Err("bad key".to_string())) {
        Err(AppError::Internal(m)) => assert_eq!(m, "Failed to create token: bad key"),
        _ => panic!("expected an internal error"),
    }
    assert_eq!(signed_token_outcome(Ok("t".to_string())).ok(), Some("t".to_string()));
}

#[test]
fn key_expiries() {
    assert_eq!(key_expiry(None).ok(), Some(None));
    assert_eq!(key_expiry(Some("2025-01-02T03:04:05Z")).ok(), Some(Some((1_735_787_045, 0))));
    assert_eq!(key_expiry(Some("2025-01-02T03:04:05.5+02:00")).ok(), Some(Some((1_735_779_845, 500_000_000))));
    match key_expiry(Some("not a date")) {
        Err(AppError::BadRequest(m)) => assert_eq!(m, "Invalid expires_at: premature end of input"),
        _ => panic!("expected a bad request"),
    }
    match key_expiry(Some("2025-01-02T03:04:05Z trailing")) {
        Err(AppError::BadRequest(m)) => assert_eq!(m, "Invalid expires_at: trailing input"),
        _ => panic!("expected a bad request"),
    }
    match expiry_outcome(Err("oops".to_string())) {
        Err(AppError::BadRequest(m)) => assert_eq!(m, "Invalid expires_at: oops"),
        _ => panic!("expected a bad request"),
    }
}

#[test]
fn sessions_expire_after_the_leeway() {
    let issued = 1_700_000_000;
    let token = admin_token(issued, b"s3cret").ok().unwrap();
    let header = format!("Bearer {}", token);
    let exp = issued + 86_400;
    let c = admin_claims_at(Some(&header), b"s3cret", exp + 60).ok().unwrap();
    assert_eq!((c.sub.as_str(), c.exp as i64), ("admin", exp));
    assert!(admin_claims_at(Some(&header), b"s3cret", issued).is_ok());
    assert!(is_unauthorized(admin_claims_at(Some(&header), b"s3cret", exp + 61)));
    assert!(is_unauthorized(admin_claims_at(Some(&header), b"wrong", issued)));
    assert!(is_unauthorized(admin_claims_at(None, b"s3cret", issued)));
    assert!(is_unauthorized(admin_claims_at(Some(&token), b"s3cret", issued)));
    let later = admin_claims_check(Ok(AdminClaims { sub: "admin".to_string(), exp: 100 }), 161);
    assert!(is_unauthorized(later));
}

#[test]
fn service_keys_from_fixed_randomness() {
    let random: Vec<char> = "0123456789abcdefABCDEFGHIJKLMNOP".chars().collect();
    let k = service_key_from(&random, b"0123456789abcdef").ok().unwrap();
    assert_eq!(k.token, "tks_0123456789abcdefABCDEFGHIJKLMNOP");
    assert_eq!(k.token_prefix, "tks_0123");
    assert!(k.token_hash.starts_with("$argon2id$"));
    assert!(service_key_accepts(&k.token, &k.token_hash, None, 0));
}
