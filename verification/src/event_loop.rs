//! The scheduling core of the dispatch loop.
//!
//! One call of [`poll_once`] is one cycle of the loop: reclaim stale tasks,
//! discover due pending tasks, and claim each of them through the lease
//! controller. The caller (a long-lived loop around this crate) executes the
//! claimed batch concurrently, reports each handler's outcome through
//! [`finish_task`], and on an idle cycle suspends for the returned interval
//! before polling again — the backpressure valve that keeps an idle loop from
//! saturating the store.

use vstd::prelude::*;

use crate::access::{reclaimed_model, reset_stale_tasks, start, terminated, complete,
    transition_post, StatusResult};
use crate::models::{is_due, spec_task_type, with_status, Task, TaskModel, TaskStatus};
use crate::store::{lemma_idx_of, models_of, TaskStore};

verus! {

/// The tuning knobs of the dispatch loop: how long a running task may sit
/// unrefreshed before it is presumed abandoned, and how long an idle cycle
/// suspends before the next poll.
pub struct DispatchConfig {
    pub staleness_threshold: i64,
    pub idle_interval_ms: u64,
}

/// What one poll cycle decided: suspend for the idle interval (no due work
/// existed, so no claim was attempted), or a batch of claimed tasks whose
/// handlers the caller must now run.
pub enum DispatchOutcome {
    Idle(u64),
    Claimed(Vec<Task>),
}

/// How a handler ended.
#[derive(Clone, Copy, Debug, PartialEq, Eq, Structural)]
pub enum HandlerOutcome {
    Success,
    Failure,
}

/// The terminal status a handler outcome maps to: success completes the
/// task, an unrecoverable failure terminates it (never retried
/// automatically).
pub open spec fn outcome_status(o: HandlerOutcome) -> TaskStatus {
    match o {
        HandlerOutcome::Success => TaskStatus::Complete,
        HandlerOutcome::Failure => TaskStatus::Terminated,
    }
}

/// A task the poll cycle hands to handler execution: due, and of a type that
/// has a registered handler.
pub open spec fn claimable_pred(now: int) -> spec_fn(TaskModel) -> bool {
    |t: TaskModel| is_due(t, now) && spec_task_type(t.job_type) is Ok
}

/// The claim write a task in the batch received.
pub open spec fn claim_map(now: int) -> spec_fn(TaskModel) -> TaskModel {
    |t: TaskModel| with_status(t, TaskStatus::Running, now)
}

/// What one poll cycle does to one task: a due task of known type is
/// claimed; a due task of unknown type is claimed and at once terminated,
/// with no handler run; any other task is untouched.
pub open spec fn claim_step(t: TaskModel, now: int) -> TaskModel {
    if is_due(t, now) {
        if spec_task_type(t.job_type) is Ok {
            with_status(t, TaskStatus::Running, now)
        } else {
            with_status(with_status(t, TaskStatus::Running, now), TaskStatus::Terminated, now)
        }
    } else {
        t
    }
}

/// The table after the claiming sweep of one poll cycle.
pub open spec fn dispatched_model(s: Seq<TaskModel>, now: int) -> Seq<TaskModel> {
    s.map(|i: int, t: TaskModel| claim_step(t, now))
}

/// One cycle of the dispatch loop.
///
/// First returns every stale task to the pending pool, then walks the table
/// and attempts to claim each due pending task through the lease controller;
/// a claim that loses the version race to another dispatcher is silently
/// skipped. A claimed task of unknown type is terminated at once. When no
/// due task existed, no claim is attempted and the caller is told to idle
/// for the configured interval.
pub fn poll_once(store: &mut TaskStore, config: &DispatchConfig, now: i64) -> (r: DispatchOutcome)
    requires
        old(store).wf(),
        forall|j: int|
            0 <= j < old(store)@.len() ==> (#[trigger] old(store)@[j]).lock_version < i64::MAX
                - 2,
    ensures
        final(store).wf(),
        ({
            let s1 = reclaimed_model(old(store)@, now as int, config.staleness_threshold as int);
            match r {
                DispatchOutcome::Idle(wait_ms) => {
                    &&& wait_ms == config.idle_interval_ms
                    &&& final(store)@ == s1
                    &&& (forall|j: int| 0 <= j < s1.len() ==> !is_due(#[trigger] s1[j], now as int))
                },
                DispatchOutcome::Claimed(batch) => {
                    &&& (exists|j: int| 0 <= j < s1.len() && is_due(#[trigger] s1[j], now as int))
                    &&& final(store)@ == dispatched_model(s1, now as int)
                    &&& models_of(batch@) == s1.filter(claimable_pred(now as int)).map_values(
                        claim_map(now as int),
                    )
                },
            }
        }),
{
    let _reclaimed = reset_stale_tasks(store, now, config.staleness_threshold);
    let ghost s1 = store@;
    proof {
        assert forall|j: int| 0 <= j < s1.len() implies (#[trigger] s1[j]).lock_version < i64::MAX
            - 1 by {
            assert(old(store)@[j].lock_version < i64::MAX - 2);
        }
    }
    let mut batch: Vec<Task> = Vec::new();
    let mut any_due = false;
    let mut i: usize = 0;
    while i < store.len()
        invariant
            store.wf(),
            s1 == reclaimed_model(old(store)@, now as int, config.staleness_threshold as int),
            store@.len() == s1.len(),
            i <= s1.len(),
            forall|j: int|
                0 <= j < s1.len() ==> (#[trigger] s1[j]).lock_version < i64::MAX - 1,
            forall|j: int| 0 <= j < i ==> #[trigger] store@[j] == claim_step(s1[j], now as int),
            forall|j: int| i <= j < s1.len() ==> #[trigger] store@[j] == s1[j],
            models_of(batch@) == s1.take(i as int).filter(claimable_pred(now as int)).map_values(
                claim_map(now as int),
            ),
            any_due <==> (exists|j: int| 0 <= j < i && is_due(#[trigger] s1[j], now as int)),
        decreases store@.len() - i,
    {
        let t = store.task_at(i);
        proof {
            assert(t@ == s1[i as int]);
            assert(s1.take(i as int + 1) =~= s1.take(i as int).push(s1[i as int]));
            s1.take(i as int).lemma_filter_push(s1[i as int], claimable_pred(now as int));
        }
        if t.status == TaskStatus::Pending && t.start_job_at <= now {
            any_due = true;
            proof {
                lemma_idx_of(store@, t.id, i as int);
            }
            let ghost pre = store@;
            match start(store, &t, now) {
                Ok(claimed) => {
                    proof {
                        assert(store@ == pre.update(
                            i as int,
                            with_status(pre[i as int], TaskStatus::Running, now as int),
                        ));
                        assert(claimed@ == with_status(
                            s1[i as int],
                            TaskStatus::Running,
                            now as int,
                        ));
                    }
                    match claimed.get_type() {
                        Ok(_handler) => {
                            proof {
                                assert(models_of(batch@.push(claimed)) =~= models_of(
                                    batch@,
                                ).push(claimed@));
                                assert(s1.take(i as int + 1).filter(
                                    claimable_pred(now as int),
                                ).map_values(claim_map(now as int)) =~= s1.take(i as int).filter(
                                    claimable_pred(now as int),
                                ).map_values(claim_map(now as int)).push(claimed@));
                            }
                            batch.push(claimed);
                        },
                        Err(_) => {
                            proof {
                                lemma_idx_of(store@, claimed.id, i as int);
                            }
                            let ghost pre2 = store@;
                            let _ = terminated(store, &claimed, now);
                            proof {
                                assert(store@ == pre2.update(
                                    i as int,
                                    with_status(pre2[i as int], TaskStatus::Terminated, now as int),
                                ));
                            }
                        },
                    }
                },
                Err(_) => {
                    // The claim lost a version race: with this one store
                    // handle no other claimant exists, so this cannot happen
                    // here; a replicated dispatcher simply skips the task.
                    proof {
                        assert(false);
                    }
                },
            }
        }
        i += 1;
    }
    proof {
        assert(s1.take(s1.len() as int) =~= s1);
    }
    if any_due {
        proof {
            assert(store@ =~= dispatched_model(s1, now as int));
        }
        DispatchOutcome::Claimed(batch)
    } else {
        proof {
            assert(store@ =~= s1);
        }
        DispatchOutcome::Idle(config.idle_interval_ms)
    }
}

/// Records how a claimed task's handler ended: success moves it to
/// `Complete`, an unrecoverable failure to `Terminated`. A failure in one
/// task's handler never halts the processing of others; the caller reports
/// each task separately.
pub fn finish_task(store: &mut TaskStore, task: &Task, outcome: HandlerOutcome, now: i64) -> (r:
    StatusResult)
    requires
        old(store).wf(),
        task.lock_version < i64::MAX,
    ensures
        final(store).wf(),
        transition_post(
            old(store)@,
            final(store)@,
            task@,
            outcome_status(outcome),
            now as int,
            r,
        ),
{
    match outcome {
        HandlerOutcome::Success => complete(store, task, now),
        HandlerOutcome::Failure => terminated(store, task, now),
    }
}

} // verus!
