//! The read-through cache that provider routes run: look the stored row up,
//! serve it while it is fresh, else take a rate-limit permit, look again
//! inside the single flight, fetch upstream, store, and serve; a failed fetch
//! may be answered with the stale row.
//!
//! The server performs each action and reports its outcome as the next
//! event; every decision is made here.
use vstd::prelude::*;
use crate::error::{AppError, CoreError};
use crate::freshness::{fresh_spec, is_fresh_at, should_fallback, should_fallback_spec, Timestamp, MAX_TTL_SECS};

verus! {

/// How a route treats its stored rows.
#[derive(Clone, Copy, Debug)]
pub struct FetchPolicy {
    /// How long a row stays fresh; `None` for rows that never go stale.
    pub ttl_seconds: Option<i64>,
    /// Whether a failed upstream fetch may be answered with the stale row.
    pub stale_fallback: bool,
}

/// Where a request is in the read-through.
#[derive(Clone, Copy, Debug, PartialEq, Eq, Structural)]
pub enum Step {
    LookUp,
    Acquire,
    Recheck,
    Fetch,
    Store,
    Finished,
}

/// A request's read-through state.
#[derive(Clone, Copy, Debug)]
pub struct ReadThrough {
    pub policy: FetchPolicy,
    pub step: Step,
    /// Whether the first lookup found a (stale) row.
    pub had_row: bool,
}

/// The outcome of the last action.
pub enum Event {
    /// A lookup's result: the stored row's fetch time, if there is a row,
    /// and the current time.
    Looked { row: Option<Timestamp>, now: Timestamp },
    /// Whether the credentials and a rate-limit permit were obtained.
    Acquired(Result<(), AppError>),
    /// Whether the upstream fetch succeeded.
    Fetched(Result<(), CoreError>),
    /// Whether the fetched value was stored.
    Stored(Result<(), CoreError>),
}

/// What the server does next.
pub enum Action {
    /// Look the stored row up.
    LookUpRow,
    /// Check the credentials and take a rate-limit permit.
    AcquirePermit,
    /// Inside the single flight, look the stored row up again.
    RecheckRow,
    /// Fetch from upstream.
    FetchUpstream,
    /// Store the fetched value.
    StoreFetched,
    /// Answer with the stored row; `cache_hit` when the first lookup found it.
    ServeRow { cache_hit: bool },
    /// Answer with the fetched value.
    ServeFetched,
    /// Answer with the stale row found by the first lookup.
    ServeStale,
    /// Answer with the error.
    Fail(AppError),
}

/// Whether a looked-up row may be served at `now` under `policy`.
pub open spec fn servable(policy: FetchPolicy, row: Option<Timestamp>, now: Timestamp) -> bool {
    match row {
        None => false,
        Some(f) => match policy.ttl_seconds {
            None => true,
            Some(ttl) => fresh_spec(now, f, ttl),
        },
    }
}

/// Whether a policy's TTL can be measured.
pub open spec fn policy_ok(policy: FetchPolicy) -> bool {
    match policy.ttl_seconds {
        Some(ttl) => -MAX_TTL_SECS <= ttl <= MAX_TTL_SECS,
        None => true,
    }
}

/// Whether `ev` answers the action the state asked for.
pub open spec fn accepts(s: ReadThrough, ev: Event) -> bool {
    match s.step {
        Step::LookUp | Step::Recheck => ev is Looked,
        Step::Acquire => ev is Acquired,
        Step::Fetch => ev is Fetched,
        Step::Store => ev is Stored,
        Step::Finished => false,
    }
}

/// The state after `ev`, and the next action.
pub open spec fn next_spec(s: ReadThrough, ev: Event) -> (ReadThrough, Action) {
    let done = ReadThrough { step: Step::Finished, ..s };
    match ev {
        Event::Looked { row, now } => if s.step == Step::LookUp {
            if servable(s.policy, row, now) {
                (done, Action::ServeRow { cache_hit: true })
            } else {
                (ReadThrough { step: Step::Acquire, had_row: row is Some, ..s }, Action::AcquirePermit)
            }
        } else {
            if servable(s.policy, row, now) {
                (done, Action::ServeRow { cache_hit: false })
            } else {
                (ReadThrough { step: Step::Fetch, ..s }, Action::FetchUpstream)
            }
        },
        Event::Acquired(Ok(())) => (ReadThrough { step: Step::Recheck, ..s }, Action::RecheckRow),
        Event::Acquired(Err(e)) => (done, Action::Fail(e)),
        Event::Fetched(Ok(())) => (ReadThrough { step: Step::Store, ..s }, Action::StoreFetched),
        Event::Fetched(Err(e)) => if s.policy.stale_fallback && s.had_row && should_fallback_spec(e) {
            (done, Action::ServeStale)
        } else {
            (done, Action::Fail(AppError::Core(e)))
        },
        Event::Stored(Ok(())) => (done, Action::ServeFetched),
        Event::Stored(Err(e)) => (done, Action::Fail(AppError::Core(e))),
    }
}

/// A fresh read-through for a request under `policy`: look the row up.
pub fn start(policy: FetchPolicy) -> (res: (ReadThrough, Action))
    ensures
        res.0 == (ReadThrough { policy, step: Step::LookUp, had_row: false }),
        res.1 is LookUpRow,
{
    (ReadThrough { policy, step: Step::LookUp, had_row: false }, Action::LookUpRow)
}

/// Advances the read-through by the outcome of its last action.
pub fn advance(s: ReadThrough, ev: Event) -> (res: (ReadThrough, Action))
    requires
        accepts(s, ev),
        policy_ok(s.policy),
    ensures
        res == next_spec(s, ev),
{
    let done = ReadThrough { step: Step::Finished, ..s };
    match ev {
        Event::Looked { row, now } => {
            let ok = match row {
                None => false,
                Some(f) => match s.policy.ttl_seconds {
                    None => true,
                    Some(ttl) => is_fresh_at(now, f, ttl),
                },
            };
            if s.step == Step::LookUp {
                if ok {
                    (done, Action::ServeRow { cache_hit: true })
                } else {
                    (ReadThrough { step: Step::Acquire, had_row: row.is_some(), ..s }, Action::AcquirePermit)
                }
            } else {
                if ok {
                    (done, Action::ServeRow { cache_hit: false })
                } else {
                    (ReadThrough { step: Step::Fetch, ..s }, Action::FetchUpstream)
                }
            }
        },
        Event::Acquired(Ok(())) => (ReadThrough { step: Step::Recheck, ..s }, Action::RecheckRow),
        Event::Acquired(Err(e)) => (done, Action::Fail(e)),
        Event::Fetched(Ok(())) => (ReadThrough { step: Step::Store, ..s }, Action::StoreFetched),
        Event::Fetched(Err(e)) => {
            if s.policy.stale_fallback && s.had_row && should_fallback(&e) {
                (done, Action::ServeStale)
            } else {
                (done, Action::Fail(AppError::Core(e)))
            }
        },
        Event::Stored(Ok(())) => (done, Action::ServeFetched),
        Event::Stored(Err(e)) => (done, Action::Fail(AppError::Core(e))),
    }
}

/// The position of a step in the read-through.
pub open spec fn rank(step: Step) -> int {
    match step {
        Step::LookUp => 0,
        Step::Acquire => 1,
        Step::Recheck => 2,
        Step::Fetch => 3,
        Step::Store => 4,
        Step::Finished => 5,
    }
}

/// Every accepted event moves a request strictly forward, so a request ends
/// after at most five events and fetches upstream at most once; the machine
/// asks for an action exactly until it has finished.
pub proof fn law_requests_move_forward(s: ReadThrough, ev: Event)
    requires
        accepts(s, ev),
    ensures
        rank(next_spec(s, ev).0.step) > rank(s.step),
        next_spec(s, ev).0.policy == s.policy,
        (next_spec(s, ev).0.step == Step::Finished) == (next_spec(s, ev).1 is ServeRow
            || next_spec(s, ev).1 is ServeFetched || next_spec(s, ev).1 is ServeStale
            || next_spec(s, ev).1 is Fail),
{
}

/// A row that may be served is served from the first lookup, without a
/// permit or an upstream call, and is reported as a cache hit.
pub proof fn law_servable_rows_are_cache_hits(policy: FetchPolicy, row: Option<Timestamp>, now: Timestamp)
    requires
        servable(policy, row, now),
    ensures
        next_spec(ReadThrough { policy, step: Step::LookUp, had_row: false }, Event::Looked { row, now }).1
            matches Action::ServeRow { cache_hit } && cache_hit,
{
}

/// Upstream is fetched only after a permit was taken and the row was found
/// unservable inside the single flight.
pub proof fn law_fetch_follows_a_miss(s: ReadThrough, ev: Event)
    requires
        accepts(s, ev),
        next_spec(s, ev).1 is FetchUpstream,
    ensures
        s.step == Step::Recheck,
        ev matches Event::Looked { row, now } && !servable(s.policy, row, now),
{
}

/// A stale row answers only an upstream failure that allows it, under a
/// policy that allows it, and only when the first lookup found a row.
pub proof fn law_stale_only_on_allowed_failure(s: ReadThrough, ev: Event)
    requires
        accepts(s, ev),
        next_spec(s, ev).1 is ServeStale,
    ensures
        s.policy.stale_fallback,
        s.had_row,
        ev matches Event::Fetched(Err(e)) && should_fallback_spec(e),
{
}

} // verus!
