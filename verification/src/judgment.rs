//! The rule by which a binding is swept.

use crate::reaping::{
    effects_view, reaping_of, remove_and_notify, Effect, EffectView, PhaseView, Reaping,
};
use vstd::prelude::*;

verus! {

/// How long a binding is left alone after it was issued: a day.
pub const MAX_BINDING_AGE_MS: u64 = 86_400_000;

/// How long an agent counts as alive after its last heartbeat: an hour.
pub const MAX_HEARTBEAT_AGE_MS: u64 = 3_600_000;

/// What is known of an agent's heartbeat. Times are in milliseconds since the start
/// of 1970.
#[derive(Debug, Clone, Copy, PartialEq, Eq)]
pub struct HeartbeatPair {
    pub heartbeat_at_ms: u64,
}

/// Whether a binding issued at `issued_at_ms` is more than a day old.
pub open spec fn binding_old(issued_at_ms: int, now_ms: int) -> bool {
    now_ms - issued_at_ms > MAX_BINDING_AGE_MS
}

/// Whether the last heartbeat is more than an hour ago.
pub open spec fn heartbeat_stale(heartbeat_at_ms: int, now_ms: int) -> bool {
    now_ms - heartbeat_at_ms > MAX_HEARTBEAT_AGE_MS
}

/// Whether a binding found by the startup sweep is an orphan: both it and the last
/// heartbeat of its owner are too old.
pub fn is_orphan(issued_at_ms: i64, heartbeat: &HeartbeatPair, now_ms: u64) -> (r: bool)
    ensures
        r == (binding_old(issued_at_ms as int, now_ms as int) && heartbeat_stale(
            heartbeat.heartbeat_at_ms as int,
            now_ms as int,
        )),
{
    let age: i128 = now_ms as i128 - issued_at_ms as i128;
    age > MAX_BINDING_AGE_MS as i128 && now_ms.saturating_sub(heartbeat.heartbeat_at_ms)
        > MAX_HEARTBEAT_AGE_MS
}

/// Judges one binding at daemon startup and, where it is an orphan, begins to reap
/// it. `None` leaves the binding as it is and tells nobody.
pub fn reconcile_orphan(
    agent_name: &str,
    binding: &serde_json::Value,
    issued_at_ms: i64,
    heartbeat: &HeartbeatPair,
    now_ms: u64,
) -> (r: Option<(Reaping, Vec<Effect>)>)
    ensures
        (r is Some) == (binding_old(issued_at_ms as int, now_ms as int) && heartbeat_stale(
            heartbeat.heartbeat_at_ms as int,
            now_ms as int,
        )),
        r matches Some(begun) ==> begun.0@ == reaping_of(agent_name@, *binding, PhaseView::Removing)
            && effects_view(begun.1@) == seq![EffectView::RemoveBinding],
{
    if is_orphan(issued_at_ms, heartbeat, now_ms) {
        Some(remove_and_notify(agent_name, binding))
    } else {
        None
    }
}

} // verus!
