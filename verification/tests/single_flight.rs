use tokimo_server::hashing::key_to_lock_id;
use tokimo_server::single_flight::{follower_outcome, InflightTable, Role};

#[test]
fn key_to_lock_id_is_deterministic() {
    let a = key_to_lock_id("tmdb:movie:550");
    let b = key_to_lock_id("tmdb:movie:550");
    assert_eq!(a, b);
}

#[test]
fn key_to_lock_id_differs_per_key() {
    let a = key_to_lock_id("tmdb:movie:550");
    let b = key_to_lock_id("tmdb:movie:551");
    assert_ne!(a, b);
}

#[test]
fn lock_id_is_the_xxh3_hash_reinterpreted() {
    let key = "currency:USD:EUR:7:1";
    assert_eq!(key_to_lock_id(key), xxhash_rust::xxh3::xxh3_64(key.as_bytes()) as i64);
}

#[test]
fn first_caller_leads_and_later_ones_follow() {
    let mut t = InflightTable::new();
    assert!(!t.is_inflight("k"));
    assert!(matches!(t.join("k"), Role::Leader));
    assert!(t.is_inflight("k"));
    assert!(matches!(t.join("k"), Role::Follower));
    assert!(matches!(t.join("other"), Role::Leader));
    t.finish("k");
    assert!(!t.is_inflight("k"));
    assert!(t.is_inflight("other"));
    assert!(matches!(t.join("k"), Role::Leader));
}

#[test]
fn finishing_an_idle_key_changes_nothing() {
    let mut t = InflightTable::new();
    t.finish("never");
    assert!(!t.is_inflight("never"));
}

#[test]
fn followers_get_the_leaders_outcome() {
    assert_eq!(follower_outcome(Some(Ok(vec![1, 2, 3]))), Ok(vec![1, 2, 3]));
    assert_eq!(follower_outcome(Some(Err("upstream boom".to_string()))), Err("upstream boom".to_string()));
    assert_eq!(follower_outcome(None), Err("Single-flight result disappeared".to_string()));
}
