//! The system-wide guarantees of the leasing protocol, stated and proved
//! over the same spec functions that the executable contracts use.

use vstd::prelude::*;

use crate::access::{after_transition, reclaimed_model};
use crate::models::{is_due, is_stale, valid_transition, with_status, TaskModel, TaskStatus};
use crate::store::{idx_of, lemma_idx_of, unique_ids, version_matches};

verus! {

/// Exclusivity: two callers that both observed the same pending snapshot of
/// a task and attempt `transition(task, running)` in turn cannot both win.
/// The first attempt succeeds (the stored version still matches the
/// snapshot); that write advances the fencing token, so the second attempt
/// from the same snapshot is rejected as a stale entry and writes nothing.
pub proof fn lemma_claim_exclusivity(s: Seq<TaskModel>, snap: TaskModel, now1: int, now2: int)
    requires
        unique_ids(s),
        snap.status == TaskStatus::Pending,
        version_matches(s, snap.id, snap.lock_version),
        s[idx_of(s, snap.id)] == snap,
    ensures
        ({
            let s1 = after_transition(s, snap, TaskStatus::Running, now1);
            &&& valid_transition(snap.status, TaskStatus::Running)
            &&& s1 == s.update(idx_of(s, snap.id), with_status(snap, TaskStatus::Running, now1))
            &&& !version_matches(s1, snap.id, snap.lock_version)
            &&& after_transition(s1, snap, TaskStatus::Running, now2) == s1
        }),
{
    let i = idx_of(s, snap.id);
    assert(0 <= i < s.len() && s[i].id == snap.id);
    let s1 = after_transition(s, snap, TaskStatus::Running, now1);
    assert(s1 == s.update(i, with_status(snap, TaskStatus::Running, now1)));
    assert(unique_ids(s1));
    lemma_idx_of(s1, snap.id, i);
    assert(s1[i].lock_version == snap.lock_version + 1);
    assert(!version_matches(s1, snap.id, snap.lock_version));
}

/// Version monotonicity: a transition attempt never decreases and never
/// skips a fencing token. A successful transition advances exactly the
/// targeted task's version by exactly 1; a rejected one changes nothing.
pub proof fn lemma_version_monotonicity(s: Seq<TaskModel>, snap: TaskModel, target: TaskStatus, now: int)
    requires
        unique_ids(s),
    ensures
        ({
            let s2 = after_transition(s, snap, target, now);
            &&& s2.len() == s.len()
            &&& (forall|j: int|
                0 <= j < s.len() ==> (#[trigger] s2[j]).lock_version == s[j].lock_version
                    || s2[j].lock_version == s[j].lock_version + 1)
            &&& (valid_transition(snap.status, target) && version_matches(
                s,
                snap.id,
                snap.lock_version,
            ) ==> s2[idx_of(s, snap.id)].lock_version == s[idx_of(s, snap.id)].lock_version + 1)
            &&& (!(valid_transition(snap.status, target) && version_matches(
                s,
                snap.id,
                snap.lock_version,
            )) ==> s2 == s)
        }),
{
    if valid_transition(snap.status, target) && version_matches(s, snap.id, snap.lock_version) {
        let i = idx_of(s, snap.id);
        assert(0 <= i < s.len() && s[i].id == snap.id);
    }
}

/// Staleness round-trip: a pending task that is claimed and then left
/// untouched past the staleness threshold is reclaimed back to pending with
/// its fencing token advanced once more — two versions above the original
/// snapshot — and, its execution time having passed, it is due and claimable
/// again.
pub proof fn lemma_stale_round_trip(
    s: Seq<TaskModel>,
    snap: TaskModel,
    t_claim: int,
    now: int,
    threshold: int,
)
    requires
        unique_ids(s),
        snap.status == TaskStatus::Pending,
        version_matches(s, snap.id, snap.lock_version),
        s[idx_of(s, snap.id)] == snap,
        t_claim + threshold < now,
        snap.start_job_at <= now,
    ensures
        ({
            let i = idx_of(s, snap.id);
            let s1 = after_transition(s, snap, TaskStatus::Running, t_claim);
            let s2 = reclaimed_model(s1, now, threshold);
            &&& is_stale(s1[i], now, threshold)
            &&& s2[i].status == TaskStatus::Pending
            &&& s2[i].lock_version == snap.lock_version + 2
            &&& is_due(s2[i], now)
            &&& version_matches(s2, snap.id, s2[i].lock_version)
        }),
{
    let i = idx_of(s, snap.id);
    assert(0 <= i < s.len() && s[i].id == snap.id);
    let s1 = after_transition(s, snap, TaskStatus::Running, t_claim);
    assert(s1 == s.update(i, with_status(snap, TaskStatus::Running, t_claim)));
    assert(is_stale(s1[i], now, threshold));
    let s2 = reclaimed_model(s1, now, threshold);
    assert(s2[i] == with_status(s1[i], TaskStatus::Pending, now));
    assert forall|k: int, l: int|
        0 <= k < s2.len() && 0 <= l < s2.len() && k != l implies s2[k].id != s2[l].id by {
        assert(s2[k].id == s1[k].id && s2[l].id == s1[l].id);
        assert(s1[k].id == s[k].id && s1[l].id == s[l].id);
    }
    lemma_idx_of(s2, snap.id, i);
}

/// Version monotonicity of a reclamation sweep: the sweep advances exactly
/// the stale tasks' fencing tokens, each by exactly 1, and touches no other
/// version.
pub proof fn lemma_reclaim_version_monotonicity(s: Seq<TaskModel>, now: int, threshold: int)
    ensures
        ({
            let s2 = reclaimed_model(s, now, threshold);
            &&& s2.len() == s.len()
            &&& (forall|j: int|
                0 <= j < s.len() ==> (#[trigger] s2[j]).lock_version == s[j].lock_version + (
                if is_stale(s[j], now, threshold) {
                    1int
                } else {
                    0int
                }))
        }),
{
}

/// Transition legality: a requested status change that is not in the
/// transition table — for instance `pending -> complete` directly — is
/// rejected without any store write, and the two terminal states have no
/// outgoing transitions at all.
pub proof fn lemma_transition_legality(s: Seq<TaskModel>, snap: TaskModel, target: TaskStatus, now: int)
    ensures
        !valid_transition(snap.status, target) ==> after_transition(s, snap, target, now) == s,
        forall|to: TaskStatus| !(#[trigger] valid_transition(TaskStatus::Complete, to)),
        forall|to: TaskStatus| !(#[trigger] valid_transition(TaskStatus::Terminated, to)),
{
}

} // verus!
