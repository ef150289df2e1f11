//! Process-local single-flight: concurrent calls for one key share the work
//! of the first caller.
//!
//! The table of in-flight keys decides who leads and who waits; the server
//! runs the leader's work, hands its outcome to the waiters through a slot,
//! and then finishes the key, so a later call runs the work again (a failure
//! is never kept for later callers). The cross-process tier locks on
//! [`crate::hashing::key_to_lock_id`] of the key.
use vstd::prelude::*;
use crate::text::{chars_of, string_of};
use dashmap::DashMap;

verus! {

/// A caller's part for a key.
pub enum Role {
    /// Runs the work and publishes its outcome.
    Leader,
    /// Waits for the leader's outcome.
    Follower,
}

/// The keys whose work is in flight, held in a concurrent map.
pub struct InflightTable {
    map: DashMap<String, ()>,
}

/// A `dashmap::DashMap`, concurrent hash map.
#[verifier::external_type_specification]
#[verifier::external_body]
#[verifier::reject_recursive_types(K)]
#[verifier::reject_recursive_types(V)]
#[verifier::reject_recursive_types(S)]
pub struct ExDashMap<K, V, S>(dashmap::DashMap<K, V, S>);

/// The keys a map of in-flight work holds.
pub uninterp spec fn dash_keys(m: DashMap<String, ()>) -> Set<Seq<char>>;

/// `DashMap::new()`. Trusted: a new map holds no key.
#[verifier::external_body]
fn dash_new() -> (res: DashMap<String, ()>)
    ensures
        dash_keys(res) == Set::<Seq<char>>::empty(),
{
    DashMap::new()
}

/// `DashMap::contains_key(key)`. Trusted: whether the map holds `key`
/// (keys compare as strings).
#[verifier::external_body]
fn dash_contains(m: &DashMap<String, ()>, key: &str) -> (res: bool)
    ensures
        res == dash_keys(*m).contains(key@),
{
    m.contains_key(key)
}

/// `DashMap::insert(key, ())`. Trusted: afterwards the map holds `key` and
/// every key it held; the old value comes back exactly when it held `key`.
#[verifier::external_body]
fn dash_insert(m: &mut DashMap<String, ()>, key: String) -> (res: Option<()>)
    ensures
        dash_keys(*final(m)) == dash_keys(*old(m)).insert(key@),
        res is Some == dash_keys(*old(m)).contains(key@),
{
    m.insert(key, ())
}

/// `DashMap::remove(key)`. Trusted: afterwards the map holds every key it
/// held but `key`; the entry comes back exactly when it held `key`.
#[verifier::external_body]
fn dash_remove(m: &mut DashMap<String, ()>, key: &str) -> (res: Option<(String, ())>)
    ensures
        dash_keys(*final(m)) == dash_keys(*old(m)).remove(key@),
        res is Some == dash_keys(*old(m)).contains(key@),
{
    m.remove(key)
}

/// The table after a caller joins on `k`, and the caller's role: the first
/// caller of a key leads and marks it in flight; later ones follow.
pub open spec fn join_spec(s: Set<Seq<char>>, k: Seq<char>) -> (Set<Seq<char>>, bool) {
    if s.contains(k) {
        (s, false)
    } else {
        (s.insert(k), true)
    }
}

/// The table once the leader of `k` has published its outcome.
pub open spec fn finish_spec(s: Set<Seq<char>>, k: Seq<char>) -> Set<Seq<char>> {
    s.remove(k)
}

impl View for InflightTable {
    type V = Set<Seq<char>>;

    closed spec fn view(&self) -> Set<Seq<char>> {
        dash_keys(self.map)
    }
}

impl InflightTable {
    /// A table with nothing in flight.
    pub fn new() -> (res: Self)
        ensures
            res@ == Set::<Seq<char>>::empty(),
    {
        InflightTable { map: dash_new() }
    }

    /// Whether work for `key` is in flight.
    pub fn is_inflight(&self, key: &str) -> (res: bool)
        ensures
            res == self@.contains(key@),
    {
        dash_contains(&self.map, key)
    }

    /// Joins the call for `key`: the caller leads when nothing is in flight
    /// for it (and the key is then in flight), and follows otherwise.
    pub fn join(&mut self, key: &str) -> (res: Role)
        ensures
            final(self)@ == join_spec(old(self)@, key@).0,
            (res is Leader) == join_spec(old(self)@, key@).1,
    {
        if dash_contains(&self.map, key) {
            Role::Follower
        } else {
            let _ = dash_insert(&mut self.map, string_of(&chars_of(key)));
            Role::Leader
        }
    }

    /// Marks the work for `key` as done: later calls run it again.
    pub fn finish(&mut self, key: &str)
        ensures
            final(self)@ == finish_spec(old(self)@, key@),
    {
        let _ = dash_remove(&mut self.map, key);
    }
}

/// What a waiting caller receives from the leader's slot: the leader's
/// serialized result or its rendered error; an empty slot is an error.
pub open spec fn follower_outcome_spec(slot: Option<Result<Seq<u8>, Seq<char>>>) -> Result<Seq<u8>, Seq<char>> {
    match slot {
        Some(Ok(b)) => Ok(b),
        Some(Err(m)) => Err(m),
        None => Err("Single-flight result disappeared"@),
    }
}

/// The outcome a waiting caller takes from the leader's slot.
pub fn follower_outcome(slot: Option<Result<Vec<u8>, String>>) -> (res: Result<Vec<u8>, String>)
    ensures
        match res {
            Ok(b) => slot matches Some(Ok(b2)) && b@ == b2@,
            Err(m) => match slot {
                Some(Err(m2)) => m@ == m2@,
                Some(Ok(_)) => false,
                None => m@ == "Single-flight result disappeared"@,
            },
        },
{
    match slot {
        Some(Ok(b)) => Ok(b),
        Some(Err(m)) => Err(m),
        None => Err(string_of(&chars_of("Single-flight result disappeared"))),
    }
}

/// A second caller for a key already in flight waits for the first.
pub proof fn law_concurrent_caller_follows(s: Set<Seq<char>>, k: Seq<char>)
    ensures
        !join_spec(join_spec(s, k).0, k).1,
{
}

/// Once the leader has finished, the next caller for the key leads again:
/// an outcome, failed or not, is never reused by a later call.
pub proof fn law_finished_key_leads_again(s: Set<Seq<char>>, k: Seq<char>)
    ensures
        join_spec(finish_spec(join_spec(s, k).0, k), k).1,
        finish_spec(join_spec(finish_spec(join_spec(s, k).0, k), k).0, k) == finish_spec(s, k),
{
    assert(finish_spec(join_spec(finish_spec(join_spec(s, k).0, k), k).0, k) =~= finish_spec(s, k));
}

/// Work for one key never blocks another key.
pub proof fn law_keys_are_independent(s: Set<Seq<char>>, k: Seq<char>, other: Seq<char>)
    requires
        k != other,
    ensures
        join_spec(join_spec(s, k).0, other).1 == join_spec(s, other).1,
{
}

} // verus!
