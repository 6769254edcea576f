use task_scheduler::access::{
    complete, create, delete, delete_all, get_by_id, get_completed_tasks, get_pending_tasks,
    get_running_tasks, get_stale_tasks, get_tasks_by_status_and_type, reset_stale_tasks, start,
    terminated, update_status, StatusError,
};
use task_scheduler::models::{NewTask, TaskStatus};
use task_scheduler::store::TaskStore;

const NOW: i64 = 1_000_000;

#[test]
pub fn should_create_task() {
    let mut store = TaskStore::new();
    let task = create(&mut store, "test".to_string(), NOW, NOW).unwrap();
    assert_eq!(task.job_type, "test");
    assert_eq!(task.status, TaskStatus::Pending);
    assert_eq!(task.start_job_at, task.start_job_at);
    assert!(task.number > 0);
}

#[test]
pub fn should_get_task_by_id() {
    let mut store = TaskStore::new();
    let task = create(&mut store, "test".to_string(), NOW, NOW).unwrap();
    println!("task: {:?}", task.id);
    let task2 = get_by_id(&store, task.id).unwrap();
    assert_eq!(task.id, task2.id);
}

#[test]
pub fn should_set_status_to_running() {
    let mut store = TaskStore::new();
    let task = create(&mut store, "test".to_string(), NOW, NOW).unwrap();
    let task2 = start(&mut store, &task, NOW);

    match task2 {
        Ok(t) => {
            assert_eq!(t.status, TaskStatus::Running);
        }
        _ => panic!("Error setting status to running"),
    }
}

#[test]
pub fn should_return_error_if_task_is_stale() {
    let mut store = TaskStore::new();
    let task = create(&mut store, "test".to_string(), NOW, NOW).unwrap();
    let _ = start(&mut store, &task, NOW);
    let task3 = start(&mut store, &task, NOW);
    match task3 {
        Err(StatusError::StaleEntryError) => {
            assert!(true);
        }
        _ => panic!("Error setting status to running"),
    }
}

#[test]
pub fn should_set_status_to_complete() {
    let mut store = TaskStore::new();
    let task = create(&mut store, "test".to_string(), NOW, NOW).unwrap();
    // the transition table admits `complete` only from `running`, so the
    // task is claimed first
    let task = start(&mut store, &task, NOW).unwrap();
    let task2 = complete(&mut store, &task, NOW);
    match task2 {
        Ok(t) => {
            assert_eq!(t.status, TaskStatus::Complete);
        }
        _ => panic!("Error setting status to complete"),
    }
}

#[test]
pub fn should_delete_task() {
    let mut store = TaskStore::new();
    let task = create(&mut store, "test".to_string(), NOW, NOW).unwrap();
    let _ = delete(&mut store, &task);
    let task3 = get_by_id(&store, task.id);
    match task3 {
        None => {
            assert!(true);
        }
        _ => panic!("Error deleting task"),
    }
}

#[test]
pub fn should_get_pending_tasks() {
    let mut store = TaskStore::new();
    delete_all(&mut store);
    create(&mut store, "test".to_string(), NOW, NOW).unwrap();
    create(&mut store, "test2".to_string(), NOW, NOW).unwrap();
    let task = create(&mut store, "test3".to_string(), NOW, NOW).unwrap();
    let _ = start(&mut store, &task, NOW);
    let tasks = get_pending_tasks(&store, NOW);
    for t in tasks {
        assert_eq!(t.status, TaskStatus::Pending);
    }
}

#[test]
fn insert_with_duplicate_id_is_a_store_failure() {
    let mut store = TaskStore::new();
    let nt = NewTask {
        id: 42,
        job_type: "foo".to_string(),
        status: TaskStatus::Pending,
        start_job_at: NOW,
    };
    let first = store.insert(nt, NOW);
    assert!(first.is_ok());
    let nt2 = NewTask {
        id: 42,
        job_type: "bar".to_string(),
        status: TaskStatus::Pending,
        start_job_at: NOW,
    };
    match store.insert(nt2, NOW) {
        Err(StatusError::StoreFailure) => {}
        _ => panic!("a duplicate identifier must be a constraint failure"),
    }
    // the failed insert left the table untouched
    assert_eq!(store.len(), 1);
}

#[test]
fn delete_of_missing_task_is_not_found() {
    let mut store = TaskStore::new();
    let task = create(&mut store, "foo".to_string(), NOW, NOW).unwrap();
    let _ = delete(&mut store, &task);
    match delete(&mut store, &task) {
        Err(StatusError::NotFound) => {}
        _ => panic!("deleting an absent task must be NotFound"),
    }
}

#[test]
fn illegal_transitions_are_rejected_without_a_write() {
    let mut store = TaskStore::new();
    let pending = create(&mut store, "foo".to_string(), NOW, NOW).unwrap();

    // pending -> complete directly is not in the table
    match complete(&mut store, &pending, NOW) {
        Err(StatusError::InvalidTransition) => {}
        _ => panic!("pending -> complete must be rejected"),
    }
    // pending -> terminated directly is not in the table
    match terminated(&mut store, &pending, NOW) {
        Err(StatusError::InvalidTransition) => {}
        _ => panic!("pending -> terminated must be rejected"),
    }
    // the rejections wrote nothing: the task is unchanged and still claimable
    let unchanged = get_by_id(&store, pending.id).unwrap();
    assert_eq!(unchanged.lock_version, 0);
    assert_eq!(unchanged.status, TaskStatus::Pending);

    let running = start(&mut store, &pending, NOW).unwrap();
    let done = complete(&mut store, &running, NOW).unwrap();

    // no transition leaves a terminal state
    match start(&mut store, &done, NOW) {
        Err(StatusError::InvalidTransition) => {}
        _ => panic!("complete -> running must be rejected"),
    }
    match update_status(&mut store, &done, TaskStatus::Pending, NOW) {
        Err(StatusError::InvalidTransition) => {}
        _ => panic!("complete -> pending must be rejected"),
    }
    let other = create(&mut store, "bar".to_string(), NOW, NOW).unwrap();
    let other_running = start(&mut store, &other, NOW).unwrap();
    let dead = terminated(&mut store, &other_running, NOW).unwrap();
    match start(&mut store, &dead, NOW) {
        Err(StatusError::InvalidTransition) => {}
        _ => panic!("terminated -> running must be rejected"),
    }
}

#[test]
fn versions_increase_by_exactly_one() {
    let mut store = TaskStore::new();
    let t0 = create(&mut store, "foo".to_string(), NOW, NOW).unwrap();
    assert_eq!(t0.lock_version, 0);
    let t1 = start(&mut store, &t0, NOW + 1).unwrap();
    assert_eq!(t1.lock_version, 1);
    let t2 = complete(&mut store, &t1, NOW + 2).unwrap();
    assert_eq!(t2.lock_version, 2);
    assert_eq!(get_by_id(&store, t0.id).unwrap().lock_version, 2);
}

#[test]
fn exactly_one_of_two_racing_claims_wins() {
    let mut store = TaskStore::new();
    let snapshot = create(&mut store, "foo".to_string(), NOW, NOW).unwrap();
    // two callers hold the same observed pending snapshot
    let first = start(&mut store, &snapshot, NOW);
    let second = start(&mut store, &snapshot, NOW);
    assert!(first.is_ok());
    match second {
        Err(StatusError::StaleEntryError) => {}
        _ => panic!("the losing claim must see a stale entry"),
    }
    // the loser wrote nothing: one claim, one version bump
    assert_eq!(get_by_id(&store, snapshot.id).unwrap().lock_version, 1);
}

#[test]
fn stale_running_task_is_reclaimed_to_pending() {
    let threshold: i64 = 60_000;
    let mut store = TaskStore::new();
    // task C: running, last updated two minutes ago against a one-minute
    // threshold
    let t0 = create(&mut store, "foo".to_string(), NOW, NOW).unwrap();
    let running = start(&mut store, &t0, NOW).unwrap();
    assert_eq!(running.lock_version, 1);

    let later = NOW + 120_000;
    let stale = get_stale_tasks(&store, later, threshold);
    assert_eq!(stale.len(), 1);
    let count = reset_stale_tasks(&mut store, later, threshold);
    assert_eq!(count, 1);

    let reclaimed = get_by_id(&store, t0.id).unwrap();
    assert_eq!(reclaimed.status, TaskStatus::Pending);
    assert_eq!(reclaimed.lock_version, 2);
    // and it is claimable again
    let again = start(&mut store, &reclaimed, later);
    assert!(again.is_ok());
}

#[test]
fn fresh_running_task_is_not_reclaimed() {
    let threshold: i64 = 60_000;
    let mut store = TaskStore::new();
    let t0 = create(&mut store, "foo".to_string(), NOW, NOW).unwrap();
    let _running = start(&mut store, &t0, NOW).unwrap();
    // thirty seconds later the lease is still fresh
    let count = reset_stale_tasks(&mut store, NOW + 30_000, threshold);
    assert_eq!(count, 0);
    assert_eq!(get_by_id(&store, t0.id).unwrap().status, TaskStatus::Running);
}

#[test]
fn concurrent_reclamation_is_safe() {
    let threshold: i64 = 60_000;
    let mut store = TaskStore::new();
    let t0 = create(&mut store, "foo".to_string(), NOW, NOW).unwrap();
    let _ = start(&mut store, &t0, NOW).unwrap();
    let later = NOW + 120_000;
    // two dispatcher instances sweep in turn; the second finds nothing stale
    assert_eq!(reset_stale_tasks(&mut store, later, threshold), 1);
    assert_eq!(reset_stale_tasks(&mut store, later, threshold), 0);
    assert_eq!(get_by_id(&store, t0.id).unwrap().lock_version, 2);
}

#[test]
fn listings_filter_by_status_and_type() {
    let mut store = TaskStore::new();
    let a = create(&mut store, "foo".to_string(), NOW, NOW).unwrap();
    let b = create(&mut store, "bar".to_string(), NOW, NOW).unwrap();
    let _c = create(&mut store, "foo".to_string(), NOW, NOW).unwrap();

    let a1 = start(&mut store, &a, NOW).unwrap();
    let _a2 = complete(&mut store, &a1, NOW).unwrap();
    let _b1 = start(&mut store, &b, NOW).unwrap();

    let completed = get_completed_tasks(&store);
    assert_eq!(completed.len(), 1);
    assert_eq!(completed[0].id, a.id);

    let running = get_running_tasks(&store);
    assert_eq!(running.len(), 1);
    assert_eq!(running[0].id, b.id);

    let foo_tasks = get_tasks_by_status_and_type(&store, None, Some("foo".to_string()));
    assert_eq!(foo_tasks.len(), 2);

    let pending_foo = get_tasks_by_status_and_type(
        &store,
        Some(TaskStatus::Pending),
        Some("foo".to_string()),
    );
    assert_eq!(pending_foo.len(), 1);
    assert_eq!(pending_foo[0].id, _c.id);

    let everything = get_tasks_by_status_and_type(&store, None, None);
    assert_eq!(everything.len(), 3);
}

#[test]
fn pending_tasks_exclude_not_yet_due_ones() {
    let mut store = TaskStore::new();
    let _due = create(&mut store, "foo".to_string(), NOW - 1_000, NOW).unwrap();
    let _future = create(&mut store, "foo".to_string(), NOW + 3_600_000, NOW).unwrap();
    let due_list = get_pending_tasks(&store, NOW);
    assert_eq!(due_list.len(), 1);
    assert_eq!(due_list[0].id, _due.id);
}
