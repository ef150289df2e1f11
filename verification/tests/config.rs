use tokimo_server::config::{config_var_names, parse_cors_origins, AppConfig, ProviderConfigs, ProviderRuntimeConfig};

fn vars(pairs: &[(&str, &str)]) -> Vec<(String, String)> {
    pairs.iter().map(|(k, v)| (k.to_string(), v.to_string())).collect()
}

#[test]
fn defaults_apply_when_unset() {
    let v = vars(&[
        ("SERVER_ADMIN_BOOTSTRAP_KEY", "boot"),
        ("SERVER_JWT_SECRET", "jwt"),
        ("DATABASE_URL", "postgres://db"),
    ]);
    let c = AppConfig::from_vars(&v).ok().unwrap();
    assert_eq!(c.listen, "0.0.0.0:5680");
    assert_eq!(c.public_base_url, "http://localhost:5680");
    assert_eq!(c.storage_backend, "local");
    assert_eq!(c.storage_local_root, "./storage");
    assert_eq!(c.admin_bootstrap_key, "boot");
    assert_eq!(c.jwt_secret, "jwt");
    assert_eq!(c.database_url, "postgres://db");
    assert_eq!(c.tmdb_api_key, None);
    assert!(c.cors_allowed_origins.is_empty());
}

#[test]
fn set_values_win() {
    let v = vars(&[
        ("SERVER_ADMIN_BOOTSTRAP_KEY", "boot"),
        ("SERVER_JWT_SECRET", "jwt"),
        ("DATABASE_URL", "postgres://db"),
        ("SERVER_LISTEN", "127.0.0.1:1"),
        ("TMDB_API_KEY", "k"),
        ("SERVER_CORS_ALLOWED_ORIGINS", "https://a.example,,https://b.example,"),
    ]);
    let c = AppConfig::from_vars(&v).ok().unwrap();
    assert_eq!(c.listen, "127.0.0.1:1");
    assert_eq!(c.tmdb_api_key, Some("k".to_string()));
    assert_eq!(c.cors_allowed_origins, vec!["https://a.example".to_string(), "https://b.example".to_string()]);
}

#[test]
fn missing_required_variables_are_reported_in_order() {
    let only_db = vars(&[("DATABASE_URL", "x")]);
    assert_eq!(AppConfig::from_vars(&only_db).err(), Some("SERVER_ADMIN_BOOTSTRAP_KEY not set".to_string()));
    let no_db = vars(&[("SERVER_ADMIN_BOOTSTRAP_KEY", "a"), ("SERVER_JWT_SECRET", "b")]);
    assert_eq!(AppConfig::from_vars(&no_db).err(), Some("DATABASE_URL not set".to_string()));
    let no_jwt = vars(&[("SERVER_ADMIN_BOOTSTRAP_KEY", "a")]);
    assert_eq!(AppConfig::from_vars(&no_jwt).err(), Some("SERVER_JWT_SECRET not set".to_string()));
}

#[test]
fn cors_origins_drop_empty_entries() {
    assert!(parse_cors_origins("").is_empty());
    assert_eq!(parse_cors_origins("a"), vec!["a".to_string()]);
    assert_eq!(parse_cors_origins(",a,,b"), vec!["a".to_string(), "b".to_string()]);
}

#[test]
fn config_variables_are_listed() {
    let names = config_var_names();
    assert_eq!(names.len(), 28);
    assert!(names.contains(&"DATABASE_URL"));
    assert!(names.contains(&"SERVER_CORS_ALLOWED_ORIGINS"));
}

#[test]
fn provider_ttl_prefers_overrides() {
    let mut p = ProviderConfigs::new();
    assert_eq!(p.provider_ttl("tmdb", Some(100)), 100);
    assert_eq!(p.provider_ttl("tmdb", None), 43_200);
    p.reload(vec![
        ("tmdb".to_string(), ProviderRuntimeConfig { ttl_seconds: 60, enabled: true }),
        ("omdb".to_string(), ProviderRuntimeConfig { ttl_seconds: 5, enabled: false }),
        ("tmdb".to_string(), ProviderRuntimeConfig { ttl_seconds: 90, enabled: false }),
    ]);
    assert_eq!(p.provider_ttl("tmdb", Some(100)), 90);
    assert_eq!(p.get("omdb").map(|c| (c.ttl_seconds, c.enabled)), Some((5, false)));
    assert!(p.get("bing").is_none());
    p.reload(Vec::new());
    assert_eq!(p.provider_ttl("tmdb", Some(100)), 100);
}
