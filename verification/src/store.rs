//! The store adapter: an in-memory task table offering find-by-id, insert,
//! atomic conditional update, filtered listing, and delete.
//!
//! The conditional update is the single write primitive the whole leasing
//! protocol is built on: it writes a new status only when the caller's
//! expected version still matches the stored one, so a caller that lost a
//! race is rejected instead of overwriting a newer lease.

use vstd::prelude::*;

use crate::access::StatusError;
use crate::models::{is_due, is_stale, with_status, NewTask, Task, TaskModel, TaskStatus,
    TaskStatusUpdate};

verus! {

broadcast use vstd::seq_lib::group_seq_properties;

/// No two tasks of the table share an identifier.
pub open spec fn unique_ids(s: Seq<TaskModel>) -> bool {
    forall|i: int, j: int|
        #![trigger s[i].id, s[j].id]
        0 <= i < s.len() && 0 <= j < s.len() && i != j ==> s[i].id != s[j].id
}

/// Some task of the table carries the identifier.
pub open spec fn contains_id(s: Seq<TaskModel>, id: u128) -> bool {
    exists|i: int| 0 <= i < s.len() && (#[trigger] s[i]).id == id
}

/// The position of the task carrying the identifier; meaningful only when
/// `contains_id` holds and the identifiers are unique.
pub open spec fn idx_of(s: Seq<TaskModel>, id: u128) -> int {
    choose|i: int| 0 <= i < s.len() && (#[trigger] s[i]).id == id
}

/// The fencing check of the conditional update: the table holds the
/// identifier and its stored version is still the expected one.
pub open spec fn version_matches(s: Seq<TaskModel>, id: u128, expected: int) -> bool {
    contains_id(s, id) && s[idx_of(s, id)].lock_version == expected
}

/// The models of a sequence of tasks.
pub open spec fn models_of(s: Seq<Task>) -> Seq<TaskModel> {
    s.map_values(|t: Task| t@)
}

/// The model of a freshly created task: pending, version 0, both audit
/// timestamps at the moment of creation.
pub open spec fn created_model(
    id: u128,
    job_type: Seq<char>,
    number: int,
    start_job_at: int,
    now: int,
) -> TaskModel {
    TaskModel {
        id,
        job_type,
        number,
        status: TaskStatus::Pending,
        result: None,
        lock_version: 0,
        start_job_at,
        created_at: now,
        updated_at: now,
    }
}

/// With unique identifiers, `idx_of` names exactly the position where the
/// identifier was found.
pub proof fn lemma_idx_of(s: Seq<TaskModel>, id: u128, i: int)
    requires
        unique_ids(s),
        0 <= i < s.len(),
        s[i].id == id,
    ensures
        contains_id(s, id),
        idx_of(s, id) == i,
{
    assert(contains_id(s, id));
    let j = idx_of(s, id);
    assert(0 <= j < s.len() && s[j].id == id);
    assert(j == i);
}

/// The filter of the listing primitive: an absent filter admits every task,
/// a present one admits the tasks whose field equals it.
pub open spec fn matches_filters(
    t: TaskModel,
    status_filter: Option<TaskStatus>,
    type_filter: Option<Seq<char>>,
) -> bool {
    &&& match status_filter {
        Some(s) => t.status == s,
        None => true,
    }
    &&& match type_filter {
        Some(jt) => t.job_type == jt,
        None => true,
    }
}

/// [`matches_filters`] as a predicate value, for stating what a listing
/// returns.
pub open spec fn filters_pred(
    status_filter: Option<TaskStatus>,
    type_filter: Option<Seq<char>>,
) -> spec_fn(TaskModel) -> bool {
    |t: TaskModel| matches_filters(t, status_filter, type_filter)
}

/// [`is_due`] as a predicate value.
pub open spec fn due_pred(now: int) -> spec_fn(TaskModel) -> bool {
    |t: TaskModel| is_due(t, now)
}

/// [`is_stale`] as a predicate value.
pub open spec fn stale_pred(now: int, threshold: int) -> spec_fn(TaskModel) -> bool {
    |t: TaskModel| is_stale(t, now, threshold)
}

/// The view of an optional borrowed type filter.
pub open spec fn opt_str_view(o: Option<&String>) -> Option<Seq<char>> {
    match o {
        Some(s) => Some(s@),
        None => None,
    }
}

/// The in-memory task table. Its abstract value is the sequence of task
/// models in insertion order; a durable implementation of the same interface
/// would be keyed by the identifier, which this table keeps unique.
pub struct TaskStore {
    tasks: Vec<Task>,
    next_number: i64,
}

impl View for TaskStore {
    type V = Seq<TaskModel>;

    closed spec fn view(&self) -> Seq<TaskModel> {
        models_of(self.tasks@)
    }
}

impl TaskStore {
    /// The next store-assigned sequence number.
    pub closed spec fn next_number_spec(&self) -> int {
        self.next_number as int
    }

    /// Well-formedness: identifiers are unique, fencing tokens are never
    /// negative, and every assigned sequence number is positive and below the
    /// counter of the next one.
    pub open spec fn wf(&self) -> bool {
        &&& unique_ids(self@)
        &&& (forall|i: int| 0 <= i < self@.len() ==> 0 <= (#[trigger] self@[i]).lock_version)
        &&& (forall|i: int|
            0 <= i < self@.len() ==> 1 <= (#[trigger] self@[i]).number < self.next_number_spec())
        &&& 1 <= self.next_number_spec()
    }

    /// An empty table.
    pub fn new() -> (r: TaskStore)
        ensures
            r.wf(),
            r@ == Seq::<TaskModel>::empty(),
            r.next_number_spec() == 1,
    {
        let r = TaskStore { tasks: Vec::new(), next_number: 1 };
        proof {
            assert(r@ =~= Seq::<TaskModel>::empty());
        }
        r
    }

    /// How many tasks the table holds.
    pub fn len(&self) -> (r: usize)
        ensures
            r == self@.len(),
    {
        self.tasks.len()
    }

    /// The next store-assigned sequence number, for callers that must test
    /// the machine limit of [`TaskStore::insert`] before calling it.
    pub fn next_number(&self) -> (r: i64)
        ensures
            r as int == self.next_number_spec(),
    {
        self.next_number
    }

    /// A copy of the task at a position.
    pub fn task_at(&self, i: usize) -> (r: Task)
        requires
            i < self@.len(),
        ensures
            r@ == self@[i as int],
    {
        self.tasks[i].clone()
    }

    /// The position of the task with the identifier, if any.
    fn find_index(&self, id: u128) -> (r: Option<usize>)
        requires
            self.wf(),
        ensures
            match r {
                Some(i) => {
                    &&& i < self@.len()
                    &&& self@[i as int].id == id
                    &&& contains_id(self@, id)
                    &&& idx_of(self@, id) == i as int
                },
                None => !contains_id(self@, id),
            },
    {
        let mut i: usize = 0;
        while i < self.tasks.len()
            invariant
                self.wf(),
                i <= self@.len(),
                self@.len() == self.tasks@.len(),
                forall|j: int| 0 <= j < i ==> (#[trigger] self@[j]).id != id,
            decreases self.tasks.len() - i,
        {
            if self.tasks[i].id == id {
                proof {
                    lemma_idx_of(self@, id, i as int);
                }
                return Some(i);
            }
            i += 1;
        }
        None
    }

    /// The find-by-id primitive.
    pub fn find(&self, id: u128) -> (r: Option<Task>)
        requires
            self.wf(),
        ensures
            match r {
                Some(t) => contains_id(self@, id) && t@ == self@[idx_of(self@, id)],
                None => !contains_id(self@, id),
            },
    {
        match self.find_index(id) {
            Some(i) => Some(self.tasks[i].clone()),
            None => None,
        }
    }

    /// The insert primitive: creates a task in `Pending` with version 0 and
    /// the next sequence number. A duplicate identifier is a constraint
    /// failure, reported as `StoreFailure` with the table untouched.
    pub fn insert(&mut self, new_task: NewTask, now: i64) -> (r: Result<Task, StatusError>)
        requires
            old(self).wf(),
            new_task.status == TaskStatus::Pending,
            old(self).next_number_spec() < i64::MAX,
        ensures
            final(self).wf(),
            match r {
                Ok(t) => {
                    &&& !contains_id(old(self)@, new_task.id)
                    &&& t@ == created_model(
                        new_task.id,
                        new_task.job_type@,
                        old(self).next_number_spec(),
                        new_task.start_job_at as int,
                        now as int,
                    )
                    &&& final(self)@ == old(self)@.push(t@)
                    &&& final(self).next_number_spec() == old(self).next_number_spec() + 1
                },
                Err(e) => {
                    &&& e == StatusError::StoreFailure
                    &&& contains_id(old(self)@, new_task.id)
                    &&& final(self)@ == old(self)@
                    &&& final(self).next_number_spec() == old(self).next_number_spec()
                },
            },
    {
        if self.find_index(new_task.id).is_some() {
            return Err(StatusError::StoreFailure);
        }
        let t = Task {
            id: new_task.id,
            job_type: new_task.job_type,
            number: self.next_number,
            status: new_task.status,
            result: None,
            lock_version: 0,
            start_job_at: new_task.start_job_at,
            created_at: now,
            updated_at: now,
        };
        let copy = t.clone();
        self.tasks.push(t);
        self.next_number = self.next_number + 1;
        proof {
            assert(self@ =~= old(self)@.push(copy@));
            assert forall|i: int, j: int|
                0 <= i < self@.len() && 0 <= j < self@.len() && i != j implies self@[i].id
                != self@[j].id by {
                if i < old(self)@.len() && j < old(self)@.len() {
                    assert(old(self)@[i].id != old(self)@[j].id);
                } else if i < old(self)@.len() {
                    assert(old(self)@[i].id != new_task.id);
                } else {
                    assert(old(self)@[j].id != new_task.id);
                }
            }
        }
        Ok(copy)
    }

    /// The conditional-update primitive: atomically writes the new status and
    /// advanced fencing token, but only when the stored version still equals
    /// the expected one; otherwise the table is untouched and the caller has
    /// lost the race.
    pub fn conditional_update(
        &mut self,
        id: u128,
        expected_version: i64,
        update: TaskStatusUpdate,
        now: i64,
    ) -> (r: Result<Task, StatusError>)
        requires
            old(self).wf(),
            expected_version < i64::MAX,
            update.lock_version as int == expected_version as int + 1,
        ensures
            final(self).wf(),
            final(self).next_number_spec() == old(self).next_number_spec(),
            match r {
                Ok(t) => {
                    &&& version_matches(old(self)@, id, expected_version as int)
                    &&& t@ == with_status(
                        old(self)@[idx_of(old(self)@, id)],
                        update.status,
                        now as int,
                    )
                    &&& final(self)@ == old(self)@.update(idx_of(old(self)@, id), t@)
                },
                Err(e) => {
                    &&& e == StatusError::StaleEntryError
                    &&& !version_matches(old(self)@, id, expected_version as int)
                    &&& final(self)@ == old(self)@
                },
            },
    {
        match self.find_index(id) {
            Some(i) => {
                if self.tasks[i].lock_version == expected_version {
                    let base = self.tasks[i].clone();
                    let updated = Task {
                        status: update.status,
                        lock_version: update.lock_version,
                        updated_at: now,
                        ..base
                    };
                    let copy = updated.clone();
                    self.tasks.set(i, updated);
                    proof {
                        assert(copy@ == with_status(old(self)@[i as int], update.status, now as int));
                        assert(self@ =~= old(self)@.update(i as int, copy@));
                        assert forall|k: int, l: int|
                            0 <= k < self@.len() && 0 <= l < self@.len() && k != l implies self@[k].id
                            != self@[l].id by {
                            assert(self@[k].id == old(self)@[k].id);
                            assert(self@[l].id == old(self)@[l].id);
                        }
                    }
                    Ok(copy)
                } else {
                    Err(StatusError::StaleEntryError)
                }
            },
            None => Err(StatusError::StaleEntryError),
        }
    }

    /// The delete primitive: removes the task with the identifier and returns
    /// it; an absent identifier is `NotFound` with the table untouched.
    pub fn delete(&mut self, id: u128) -> (r: Result<Task, StatusError>)
        requires
            old(self).wf(),
        ensures
            final(self).wf(),
            final(self).next_number_spec() == old(self).next_number_spec(),
            match r {
                Ok(t) => {
                    &&& contains_id(old(self)@, id)
                    &&& t@ == old(self)@[idx_of(old(self)@, id)]
                    &&& final(self)@ == old(self)@.remove(idx_of(old(self)@, id))
                },
                Err(e) => {
                    &&& e == StatusError::NotFound
                    &&& !contains_id(old(self)@, id)
                    &&& final(self)@ == old(self)@
                },
            },
    {
        match self.find_index(id) {
            Some(i) => {
                let removed = self.tasks.remove(i);
                proof {
                    assert(self@ =~= old(self)@.remove(i as int));
                    assert forall|k: int, l: int|
                        0 <= k < self@.len() && 0 <= l < self@.len() && k != l implies self@[k].id
                        != self@[l].id by {
                        let k0 = if k < i as int { k } else { k + 1 };
                        let l0 = if l < i as int { l } else { l + 1 };
                        assert(self@[k] == old(self)@[k0]);
                        assert(self@[l] == old(self)@[l0]);
                    }
                }
                Ok(removed)
            },
            None => Err(StatusError::NotFound),
        }
    }

    /// Removes every task.
    pub fn delete_all(&mut self)
        requires
            old(self).wf(),
        ensures
            final(self).wf(),
            final(self)@ == Seq::<TaskModel>::empty(),
            final(self).next_number_spec() == old(self).next_number_spec(),
    {
        self.tasks.clear();
        proof {
            assert(self@ =~= Seq::<TaskModel>::empty());
        }
    }

    /// The listing primitive: the tasks admitted by the optional status and
    /// type filters, in table order.
    pub fn list(&self, status_filter: Option<TaskStatus>, type_filter: Option<&String>) -> (r:
        Vec<Task>)
        requires
            self.wf(),
        ensures
            models_of(r@) == self@.filter(filters_pred(status_filter, opt_str_view(type_filter))),
    {
        let ghost pred = filters_pred(status_filter, opt_str_view(type_filter));
        let mut out: Vec<Task> = Vec::new();
        let mut i: usize = 0;
        while i < self.tasks.len()
            invariant
                self.wf(),
                i <= self@.len(),
                self@.len() == self.tasks@.len(),
                pred == filters_pred(status_filter, opt_str_view(type_filter)),
                models_of(out@) == self@.take(i as int).filter(pred),
            decreases self.tasks.len() - i,
        {
            let status_ok = match status_filter {
                Some(s) => self.tasks[i].status == s,
                None => true,
            };
            let type_ok = match type_filter {
                Some(jt) => self.tasks[i].job_type == *jt,
                None => true,
            };
            proof {
                assert(self@.take(i as int + 1) =~= self@.take(i as int).push(self@[i as int]));
                self@.take(i as int).lemma_filter_push(self@[i as int], pred);
            }
            if status_ok && type_ok {
                let t = self.tasks[i].clone();
                proof {
                    assert(pred(self@[i as int]));
                    assert(models_of(out@.push(t)) =~= models_of(out@).push(t@));
                }
                out.push(t);
            } else {
                proof {
                    assert(!pred(self@[i as int]));
                }
            }
            i += 1;
        }
        proof {
            assert(self@.take(self@.len() as int) =~= self@);
        }
        out
    }

    /// The tasks eligible for claiming: pending, with the earliest execution
    /// time already reached.
    pub fn list_due(&self, now: i64) -> (r: Vec<Task>)
        requires
            self.wf(),
        ensures
            models_of(r@) == self@.filter(due_pred(now as int)),
    {
        let ghost pred = due_pred(now as int);
        let mut out: Vec<Task> = Vec::new();
        let mut i: usize = 0;
        while i < self.tasks.len()
            invariant
                self.wf(),
                i <= self@.len(),
                self@.len() == self.tasks@.len(),
                pred == due_pred(now as int),
                models_of(out@) == self@.take(i as int).filter(pred),
            decreases self.tasks.len() - i,
        {
            proof {
                assert(self@.take(i as int + 1) =~= self@.take(i as int).push(self@[i as int]));
                self@.take(i as int).lemma_filter_push(self@[i as int], pred);
            }
            if self.tasks[i].status == TaskStatus::Pending && self.tasks[i].start_job_at <= now {
                let t = self.tasks[i].clone();
                proof {
                    assert(pred(self@[i as int]));
                    assert(models_of(out@.push(t)) =~= models_of(out@).push(t@));
                }
                out.push(t);
            } else {
                proof {
                    assert(!pred(self@[i as int]));
                }
            }
            i += 1;
        }
        proof {
            assert(self@.take(self@.len() as int) =~= self@);
        }
        out
    }

    /// The tasks eligible for stale reclamation: running, last updated
    /// further back than the staleness threshold.
    pub fn list_stale(&self, now: i64, threshold: i64) -> (r: Vec<Task>)
        requires
            self.wf(),
        ensures
            models_of(r@) == self@.filter(stale_pred(now as int, threshold as int)),
    {
        let ghost pred = stale_pred(now as int, threshold as int);
        let mut out: Vec<Task> = Vec::new();
        let mut i: usize = 0;
        while i < self.tasks.len()
            invariant
                self.wf(),
                i <= self@.len(),
                self@.len() == self.tasks@.len(),
                pred == stale_pred(now as int, threshold as int),
                models_of(out@) == self@.take(i as int).filter(pred),
            decreases self.tasks.len() - i,
        {
            proof {
                assert(self@.take(i as int + 1) =~= self@.take(i as int).push(self@[i as int]));
                self@.take(i as int).lemma_filter_push(self@[i as int], pred);
            }
            if self.tasks[i].status == TaskStatus::Running && (self.tasks[i].updated_at as i128)
                < (now as i128) - (threshold as i128) {
                let t = self.tasks[i].clone();
                proof {
                    assert(pred(self@[i as int]));
                    assert(models_of(out@.push(t)) =~= models_of(out@).push(t@));
                }
                out.push(t);
            } else {
                proof {
                    assert(!pred(self@[i as int]));
                }
            }
            i += 1;
        }
        proof {
            assert(self@.take(self@.len() as int) =~= self@);
        }
        out
    }
}

} // verus!
