//! The task entity and its valid state transitions: pure data plus the
//! transition rules, no I/O.

use vstd::prelude::*;

verus! {

/// The lifecycle states of a task.
///
/// `Complete` and `Terminated` are terminal: the lease controller accepts no
/// transition out of them.
#[derive(Clone, Copy, Debug, PartialEq, Eq, Structural)]
pub enum TaskStatus {
    Pending,
    Running,
    Complete,
    Terminated,
}

/// The task types that have a registered handler. A task whose type tag is
/// none of these is terminated by the dispatcher without running a handler.
#[derive(Clone, Copy, Debug, PartialEq, Eq, Structural)]
pub enum TaskType {
    Foo,
    Bar,
    Baz,
}

/// The mathematical model of a task: what every contract in this crate speaks
/// of. Timestamps are integers (a uniform unit chosen by the caller, e.g.
/// milliseconds since some epoch); the type tag is a character sequence.
pub struct TaskModel {
    pub id: u128,
    pub job_type: Seq<char>,
    pub number: int,
    pub status: TaskStatus,
    pub result: Option<Seq<char>>,
    pub lock_version: int,
    pub start_job_at: int,
    pub created_at: int,
    pub updated_at: int,
}

/// The unit of schedulable work.
///
/// `lock_version` is the optimistic-lock fencing token: it starts at 0 and
/// increases by exactly 1 on every successful status write, and a write whose
/// expected version does not match the stored one is rejected.
pub struct Task {
    pub id: u128,
    pub job_type: String,
    pub number: i64,
    pub status: TaskStatus,
    pub result: Option<String>,
    pub lock_version: i64,
    pub start_job_at: i64,
    pub created_at: i64,
    pub updated_at: i64,
}

impl View for Task {
    type V = TaskModel;

    open spec fn view(&self) -> TaskModel {
        TaskModel {
            id: self.id,
            job_type: self.job_type@,
            number: self.number as int,
            status: self.status,
            result: match self.result {
                Some(s) => Some(s@),
                None => None,
            },
            lock_version: self.lock_version as int,
            start_job_at: self.start_job_at as int,
            created_at: self.created_at as int,
            updated_at: self.updated_at as int,
        }
    }
}

impl Clone for Task {
    fn clone(&self) -> (r: Task)
        ensures
            r@ == self@,
            r.lock_version == self.lock_version,
            r.id == self.id,
            r.status == self.status,
    {
        Task {
            id: self.id,
            job_type: self.job_type.clone(),
            number: self.number,
            status: self.status,
            result: match &self.result {
                Some(s) => Some(s.clone()),
                None => None,
            },
            lock_version: self.lock_version,
            start_job_at: self.start_job_at,
            created_at: self.created_at,
            updated_at: self.updated_at,
        }
    }
}

/// The fields a client supplies when a task is created; the store assigns the
/// rest. A task is always created `Pending` with version 0.
pub struct NewTask {
    pub id: u128,
    pub job_type: String,
    pub status: TaskStatus,
    pub start_job_at: i64,
}

/// The change set of a conditional status update: the new status together
/// with the new fencing token (the expected version plus one).
pub struct TaskStatusUpdate {
    pub lock_version: i64,
    pub status: TaskStatus,
}

/// The transition table. These four edges are the only valid status changes:
/// claiming, finishing well, finishing badly, and stale reclamation.
pub open spec fn valid_transition(from: TaskStatus, to: TaskStatus) -> bool {
    ||| (from == TaskStatus::Pending && to == TaskStatus::Running)
    ||| (from == TaskStatus::Running && to == TaskStatus::Complete)
    ||| (from == TaskStatus::Running && to == TaskStatus::Terminated)
    ||| (from == TaskStatus::Running && to == TaskStatus::Pending)
}

/// Exec mirror of [`valid_transition`].
pub fn check_transition(from: TaskStatus, to: TaskStatus) -> (r: bool)
    ensures
        r == valid_transition(from, to),
{
    match (from, to) {
        (TaskStatus::Pending, TaskStatus::Running) => true,
        (TaskStatus::Running, TaskStatus::Complete) => true,
        (TaskStatus::Running, TaskStatus::Terminated) => true,
        (TaskStatus::Running, TaskStatus::Pending) => true,
        _ => false,
    }
}

/// A task is eligible for claiming iff it is pending and its earliest
/// execution time has been reached.
pub open spec fn is_due(t: TaskModel, now: int) -> bool {
    t.status == TaskStatus::Pending && t.start_job_at <= now
}

/// A task is eligible for stale reclamation iff it is running and its last
/// update lies further back than the staleness threshold: its claimant is
/// presumed to have crashed or hung.
pub open spec fn is_stale(t: TaskModel, now: int, threshold: int) -> bool {
    t.status == TaskStatus::Running && t.updated_at < now - threshold
}

/// The model of a successful status write: the requested status, the fencing
/// token advanced by exactly 1, and a fresh audit timestamp; all other fields
/// kept.
pub open spec fn with_status(t: TaskModel, s: TaskStatus, now: int) -> TaskModel {
    TaskModel { status: s, lock_version: t.lock_version + 1, updated_at: now, ..t }
}

impl TaskType {
    /// Parses a type tag. Exactly the tags `"foo"`, `"bar"` and `"baz"` have
    /// registered handlers; anything else is unknown.
    pub fn from_str(s: &str) -> (r: Result<TaskType, ()>)
        ensures
            r == spec_task_type(s@),
    {
        if s.to_owned() == "foo".to_owned() {
            Ok(TaskType::Foo)
        } else if s.to_owned() == "bar".to_owned() {
            Ok(TaskType::Bar)
        } else if s.to_owned() == "baz".to_owned() {
            Ok(TaskType::Baz)
        } else {
            Err(())
        }
    }
}

/// Which handler, if any, a type tag selects.
pub open spec fn spec_task_type(tag: Seq<char>) -> Result<TaskType, ()> {
    if tag == "foo"@ {
        Ok(TaskType::Foo)
    } else if tag == "bar"@ {
        Ok(TaskType::Bar)
    } else if tag == "baz"@ {
        Ok(TaskType::Baz)
    } else {
        Err(())
    }
}

impl Task {
    /// The handler selected by the task's type tag, or `Err` when the tag
    /// names none. An unknown type is an ordinary outcome, never a panic:
    /// the dispatcher terminates such a task without running anything.
    pub fn get_type(&self) -> (r: Result<TaskType, ()>)
        ensures
            r == spec_task_type(self@.job_type),
    {
        TaskType::from_str(self.job_type.as_str())
    }
}

} // verus!
