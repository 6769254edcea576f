//! The lease controller and the submission/query/deletion surface.
//!
//! Every status change goes through [`update_status`]: it validates the
//! requested transition against the task's state machine, then issues the
//! store's atomic conditional update with the caller's snapshot version as
//! the expected one. Winning that update is the exclusive mechanism that
//! establishes ownership of a task's execution; losing it yields
//! [`StatusError::StaleEntryError`] and the caller must re-fetch and
//! re-decide, never retry blindly.

use vstd::prelude::*;

use crate::models::{check_transition, is_stale, valid_transition, with_status, NewTask, Task,
    TaskModel, TaskStatus, TaskStatusUpdate};
use crate::store::{contains_id, created_model, due_pred, filters_pred, idx_of, lemma_idx_of,
    models_of, stale_pred, version_matches, TaskStore};

verus! {

broadcast use vstd::seq_lib::group_seq_properties;

/// Why an operation failed.
#[derive(Clone, Copy, Debug, PartialEq, Eq, Structural)]
pub enum StatusError {
    /// The requested status change is not in the transition table: a
    /// programming error, rejected before any store write.
    InvalidTransition,
    /// The caller lost a version race: another dispatcher already moved the
    /// task. Expected and recoverable; re-fetch and re-decide.
    StaleEntryError,
    /// The store could not perform the write (for this table: a duplicate
    /// identifier on insert).
    StoreFailure,
    /// No task carries the identifier.
    NotFound,
}

/// The outcome of a lease-controller operation: the updated task, or why it
/// was not updated.
pub type StatusResult = Result<Task, StatusError>;

/// Relies on `uuid::Uuid::new_v4`: a freshly generated random version-4
/// identifier, read out as its 128-bit value. Nothing is promised of a
/// random value.
#[verifier::external_body]
fn new_task_id() -> u128 {
    uuid::Uuid::new_v4().as_u128()
}

/// What a transition attempt from the snapshot `snap` towards `target` does
/// to the table: exactly the snapshot's task is rewritten, and only when the
/// transition is legal and the snapshot's version still matches.
pub open spec fn after_transition(
    s: Seq<TaskModel>,
    snap: TaskModel,
    target: TaskStatus,
    now: int,
) -> Seq<TaskModel> {
    if valid_transition(snap.status, target) && version_matches(s, snap.id, snap.lock_version) {
        s.update(idx_of(s, snap.id), with_status(s[idx_of(s, snap.id)], target, now))
    } else {
        s
    }
}

/// The full contract of a transition attempt: the table's new value, when
/// the attempt succeeds, what the winner receives, and which error the loser
/// receives.
pub open spec fn transition_post(
    pre: Seq<TaskModel>,
    post: Seq<TaskModel>,
    snap: TaskModel,
    target: TaskStatus,
    now: int,
    r: StatusResult,
) -> bool {
    &&& post == after_transition(pre, snap, target, now)
    &&& (r is Ok <==> valid_transition(snap.status, target) && version_matches(
        pre,
        snap.id,
        snap.lock_version,
    ))
    &&& (r matches Ok(t) ==> t@ == with_status(pre[idx_of(pre, snap.id)], target, now))
    &&& (r matches Err(e) ==> e == (if !valid_transition(snap.status, target) {
        StatusError::InvalidTransition
    } else {
        StatusError::StaleEntryError
    }))
}

/// The lease controller's transition operation.
///
/// Validates that `task.status -> s` is in the transition table — an illegal
/// request is rejected without a store write — then issues the conditional
/// update with the snapshot's version as the expected one and the fencing
/// token advanced by exactly 1.
pub fn update_status(store: &mut TaskStore, task: &Task, s: TaskStatus, now: i64) -> (r:
    StatusResult)
    requires
        old(store).wf(),
        task.lock_version < i64::MAX,
    ensures
        final(store).wf(),
        final(store).next_number_spec() == old(store).next_number_spec(),
        transition_post(old(store)@, final(store)@, task@, s, now as int, r),
{
    if !check_transition(task.status, s) {
        return Err(StatusError::InvalidTransition);
    }
    let update = TaskStatusUpdate { lock_version: task.lock_version + 1, status: s };
    store.conditional_update(task.id, task.lock_version, update, now)
}

/// Claims a task: `Pending -> Running`.
pub fn start(store: &mut TaskStore, task: &Task, now: i64) -> (r: StatusResult)
    requires
        old(store).wf(),
        task.lock_version < i64::MAX,
    ensures
        final(store).wf(),
        final(store).next_number_spec() == old(store).next_number_spec(),
        transition_post(old(store)@, final(store)@, task@, TaskStatus::Running, now as int, r),
{
    update_status(store, task, TaskStatus::Running, now)
}

/// Records a handler's success: `Running -> Complete`.
pub fn complete(store: &mut TaskStore, task: &Task, now: i64) -> (r: StatusResult)
    requires
        old(store).wf(),
        task.lock_version < i64::MAX,
    ensures
        final(store).wf(),
        final(store).next_number_spec() == old(store).next_number_spec(),
        transition_post(old(store)@, final(store)@, task@, TaskStatus::Complete, now as int, r),
{
    update_status(store, task, TaskStatus::Complete, now)
}

/// Records an unrecoverable handler failure: `Running -> Terminated`.
pub fn terminated(store: &mut TaskStore, task: &Task, now: i64) -> (r: StatusResult)
    requires
        old(store).wf(),
        task.lock_version < i64::MAX,
    ensures
        final(store).wf(),
        final(store).next_number_spec() == old(store).next_number_spec(),
        transition_post(old(store)@, final(store)@, task@, TaskStatus::Terminated, now as int, r),
{
    update_status(store, task, TaskStatus::Terminated, now)
}

/// Submits a task: a fresh random identifier, inserted in `Pending` with
/// version 0. The identifier is random, so success cannot be promised in
/// general: on the (practically impossible) collision the store reports the
/// constraint failure and is left untouched. A collision needs an occupied
/// table, though, so on an empty one success is owed.
pub fn create(store: &mut TaskStore, job_type: String, start_job_at: i64, now: i64) -> (r:
    StatusResult)
    requires
        old(store).wf(),
        old(store).next_number_spec() < i64::MAX,
    ensures
        final(store).wf(),
        match r {
            Ok(t) => {
                &&& !contains_id(old(store)@, t@.id)
                &&& t@ == created_model(
                    t@.id,
                    job_type@,
                    old(store).next_number_spec(),
                    start_job_at as int,
                    now as int,
                )
                &&& final(store)@ == old(store)@.push(t@)
                &&& final(store).next_number_spec() == old(store).next_number_spec() + 1
            },
            Err(e) => {
                &&& e == StatusError::StoreFailure
                &&& old(store)@.len() > 0
                &&& final(store)@ == old(store)@
                &&& final(store).next_number_spec() == old(store).next_number_spec()
            },
        },
{
    let id = new_task_id();
    let new_task = NewTask { id, job_type, status: TaskStatus::Pending, start_job_at };
    store.insert(new_task, now)
}

/// Looks a task up by its identifier.
pub fn get_by_id(store: &TaskStore, id: u128) -> (r: Option<Task>)
    requires
        store.wf(),
    ensures
        match r {
            Some(t) => contains_id(store@, id) && t@ == store@[idx_of(store@, id)],
            None => !contains_id(store@, id),
        },
{
    store.find(id)
}

/// Deletes a task, whatever its status; an in-flight handler is not
/// interrupted, its result is simply discarded.
pub fn delete(store: &mut TaskStore, task: &Task) -> (r: StatusResult)
    requires
        old(store).wf(),
    ensures
        final(store).wf(),
        match r {
            Ok(t) => {
                &&& contains_id(old(store)@, task@.id)
                &&& t@ == old(store)@[idx_of(old(store)@, task@.id)]
                &&& final(store)@ == old(store)@.remove(idx_of(old(store)@, task@.id))
            },
            Err(e) => {
                &&& e == StatusError::NotFound
                &&& !contains_id(old(store)@, task@.id)
                &&& final(store)@ == old(store)@
            },
        },
{
    store.delete(task.id)
}

/// Deletes every task.
pub fn delete_all(store: &mut TaskStore)
    requires
        old(store).wf(),
    ensures
        final(store).wf(),
        final(store)@ == Seq::<TaskModel>::empty(),
{
    store.delete_all()
}

/// The tasks eligible for claiming now: pending, due.
pub fn get_pending_tasks(store: &TaskStore, now: i64) -> (r: Vec<Task>)
    requires
        store.wf(),
    ensures
        models_of(r@) == store@.filter(due_pred(now as int)),
{
    store.list_due(now)
}

/// The tasks in one status.
fn get_tasks_by_status(store: &TaskStore, s: TaskStatus) -> (r: Vec<Task>)
    requires
        store.wf(),
    ensures
        models_of(r@) == store@.filter(filters_pred(Some(s), None)),
{
    store.list(Some(s), None)
}

/// The tasks whose handler finished successfully.
pub fn get_completed_tasks(store: &TaskStore) -> (r: Vec<Task>)
    requires
        store.wf(),
    ensures
        models_of(r@) == store@.filter(filters_pred(Some(TaskStatus::Complete), None)),
{
    get_tasks_by_status(store, TaskStatus::Complete)
}

/// The tasks currently claimed.
pub fn get_running_tasks(store: &TaskStore) -> (r: Vec<Task>)
    requires
        store.wf(),
    ensures
        models_of(r@) == store@.filter(filters_pred(Some(TaskStatus::Running), None)),
{
    get_tasks_by_status(store, TaskStatus::Running)
}

/// The view of an optional owned type filter.
pub open spec fn opt_string_view(o: Option<String>) -> Option<Seq<char>> {
    match o {
        Some(s) => Some(s@),
        None => None,
    }
}

/// The tasks admitted by an optional status filter and an optional type
/// filter.
pub fn get_tasks_by_status_and_type(
    store: &TaskStore,
    stat: Option<TaskStatus>,
    jtype: Option<String>,
) -> (r: Vec<Task>)
    requires
        store.wf(),
    ensures
        models_of(r@) == store@.filter(filters_pred(stat, opt_string_view(jtype))),
{
    match &jtype {
        Some(jt) => store.list(stat, Some(jt)),
        None => store.list(stat, None),
    }
}

/// The tasks presumed abandoned: running, last updated further back than the
/// staleness threshold.
pub fn get_stale_tasks(store: &TaskStore, now: i64, threshold: i64) -> (r: Vec<Task>)
    requires
        store.wf(),
    ensures
        models_of(r@) == store@.filter(stale_pred(now as int, threshold as int)),
{
    store.list_stale(now, threshold)
}

/// The table after one reclamation sweep: every stale task is back in
/// `Pending` with its fencing token advanced by exactly 1; every other task
/// is untouched.
pub open spec fn reclaimed_model(s: Seq<TaskModel>, now: int, threshold: int) -> Seq<TaskModel> {
    s.map(
        |i: int, t: TaskModel|
            if is_stale(t, now, threshold) {
                with_status(t, TaskStatus::Pending, now)
            } else {
                t
            },
    )
}

/// Returns every stale task to the pending pool through the lease
/// controller, and reports how many were reclaimed.
///
/// This is the system's sole recovery against a dispatcher that crashed or
/// hung mid-execution; a reclaimed task re-enters the pending pool and will
/// be claimed again (at-least-once execution). Concurrent reclamation by
/// several dispatchers is safe: a loser receives a stale-entry error and
/// does nothing further.
pub fn reset_stale_tasks(store: &mut TaskStore, now: i64, threshold: i64) -> (count: usize)
    requires
        old(store).wf(),
        forall|j: int|
            0 <= j < old(store)@.len() && is_stale(
                #[trigger] old(store)@[j],
                now as int,
                threshold as int,
            ) ==> old(store)@[j].lock_version < i64::MAX,
    ensures
        final(store).wf(),
        final(store).next_number_spec() == old(store).next_number_spec(),
        final(store)@ == reclaimed_model(old(store)@, now as int, threshold as int),
        count as int == old(store)@.filter(stale_pred(now as int, threshold as int)).len(),
{
    let ghost s0 = store@;
    let ghost goal = reclaimed_model(s0, now as int, threshold as int);
    let mut count: usize = 0;
    let mut i: usize = 0;
    while i < store.len()
        invariant
            store.wf(),
            store.next_number_spec() == old(store).next_number_spec(),
            s0 == old(store)@,
            goal == reclaimed_model(s0, now as int, threshold as int),
            store@.len() == s0.len(),
            i <= s0.len(),
            forall|j: int|
                0 <= j < s0.len() && is_stale(#[trigger] s0[j], now as int, threshold as int)
                    ==> s0[j].lock_version < i64::MAX,
            forall|j: int| 0 <= j < i ==> #[trigger] store@[j] == goal[j],
            forall|j: int| i <= j < s0.len() ==> #[trigger] store@[j] == s0[j],
            count <= i,
            count as int == s0.take(i as int).filter(
                stale_pred(now as int, threshold as int),
            ).len(),
        decreases store@.len() - i,
    {
        let t = store.task_at(i);
        proof {
            assert(t@ == s0[i as int]);
            assert(s0.take(i as int + 1) =~= s0.take(i as int).push(s0[i as int]));
            s0.take(i as int).lemma_filter_len_push(
                stale_pred(now as int, threshold as int),
                s0[i as int],
            );
        }
        let stale = t.status == TaskStatus::Running && (t.updated_at as i128) < (now as i128) - (
        threshold as i128);
        if stale {
            proof {
                lemma_idx_of(store@, t.id, i as int);
            }
            let ghost pre = store@;
            let r = update_status(store, &t, TaskStatus::Pending, now);
            proof {
                assert(store@ == pre.update(
                    i as int,
                    with_status(pre[i as int], TaskStatus::Pending, now as int),
                ));
                assert(store@[i as int] == goal[i as int]);
            }
            count += 1;
        }
        i += 1;
    }
    proof {
        assert(s0.take(s0.len() as int) =~= s0);
        assert(store@ =~= goal);
    }
    count
}

} // verus!
