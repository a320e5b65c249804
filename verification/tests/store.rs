use task_manager_api::models::{NewTask, Task};
use task_manager_api::store::{row_changed, TaskStore};
use task_manager_api::errors::StoreError;
use task_manager_api::table::MAX_TASK_ID;

fn new_task(title: &str, description: &str) -> NewTask {
    NewTask { title: title.to_string(), description: description.to_string() }
}

fn ids(tasks: &[Task]) -> Vec<i32> {
    tasks.iter().map(|task| task.id).collect()
}

fn titles(tasks: &[Task]) -> Vec<String> {
    tasks.iter().map(|task| task.title.clone()).collect()
}

#[test]
fn a_new_store_is_empty() {
    let store = TaskStore::new();
    assert!(store.list(1).is_empty());
    assert_eq!(store.get(1, 1), None);
}

#[test]
fn create_returns_the_inserted_row() {
    let mut store = TaskStore::new();
    let task = store.create(7, &new_task("T", "D")).unwrap();
    assert_eq!(
        task,
        Task {
            id: 1,
            title: "T".to_string(),
            description: "D".to_string(),
            completed: false,
            user_id: 7,
        }
    );
}

#[test]
fn ids_count_up_from_one() {
    let mut store = TaskStore::new();
    assert_eq!(store.create(1, &new_task("a", "")).unwrap().id, 1);
    assert_eq!(store.create(2, &new_task("b", "")).unwrap().id, 2);
    assert_eq!(store.create(1, &new_task("c", "")).unwrap().id, 3);
}

#[test]
fn created_task_is_fetched_again() {
    let mut store = TaskStore::new();
    store.create(3, &new_task("other", "x")).unwrap();
    let created = store.create(5, &new_task("T", "D")).unwrap();
    let fetched = store.get(5, created.id).unwrap();
    assert_eq!(fetched.id, created.id);
    assert_eq!(fetched.title, "T");
    assert_eq!(fetched.description, "D");
    assert_eq!(fetched.completed, false);
    assert_eq!(fetched.user_id, 5);
    assert_eq!(fetched, created);
}

#[test]
fn deleting_what_is_not_there_finds_nothing_each_time() {
    let mut store = TaskStore::new();
    store.create(1, &new_task("kept", "")).unwrap();
    assert_eq!(store.delete(1, 99), false);
    assert_eq!(store.delete(1, 99), false);
    assert_eq!(store.delete(1, 99), false);
    assert_eq!(titles(&store.list(1)), vec!["kept".to_string()]);
}

#[test]
fn delete_removes_once() {
    let mut store = TaskStore::new();
    let task = store.create(1, &new_task("gone", "")).unwrap();
    assert_eq!(store.delete(1, task.id), true);
    assert_eq!(store.get(1, task.id), None);
    assert_eq!(store.delete(1, task.id), false);
    assert!(store.list(1).is_empty());
}

#[test]
fn delete_leaves_the_other_rows() {
    let mut store = TaskStore::new();
    store.create(1, &new_task("a", "")).unwrap();
    store.create(1, &new_task("b", "")).unwrap();
    store.create(1, &new_task("c", "")).unwrap();
    assert_eq!(store.delete(1, 2), true);
    assert_eq!(ids(&store.list(1)), vec![1, 3]);
    assert_eq!(titles(&store.list(1)), vec!["a".to_string(), "c".to_string()]);
}

#[test]
fn a_deleted_id_is_not_assigned_again() {
    let mut store = TaskStore::new();
    store.create(1, &new_task("a", "")).unwrap();
    store.create(1, &new_task("b", "")).unwrap();
    assert_eq!(store.delete(1, 2), true);
    assert_eq!(store.create(1, &new_task("c", "")).unwrap().id, 3);
}

#[test]
fn another_owner_cannot_reach_a_task() {
    let mut store = TaskStore::new();
    let task = store.create(1, &new_task("mine", "secret")).unwrap();
    assert_eq!(store.get(2, task.id), None);
    assert_eq!(store.update(2, task.id, &new_task("theirs", "")), false);
    assert_eq!(store.delete(2, task.id), false);
    assert!(store.list(2).is_empty());
    let kept = store.get(1, task.id).unwrap();
    assert_eq!(kept.title, "mine");
    assert_eq!(kept.description, "secret");
    assert_eq!(kept.user_id, 1);
}

#[test]
fn list_is_in_order_of_creation() {
    let mut store = TaskStore::new();
    let a = store.create(4, &new_task("A", "")).unwrap();
    let b = store.create(4, &new_task("B", "")).unwrap();
    let c = store.create(4, &new_task("C", "")).unwrap();
    let listed = store.list(4);
    assert_eq!(titles(&listed), vec!["A".to_string(), "B".to_string(), "C".to_string()]);
    assert_eq!(ids(&listed), vec![a.id, b.id, c.id]);
    assert!(a.id < b.id && b.id < c.id);
}

#[test]
fn list_holds_the_owner_s_tasks_only() {
    let mut store = TaskStore::new();
    store.create(1, &new_task("a1", "")).unwrap();
    store.create(2, &new_task("b1", "")).unwrap();
    store.create(1, &new_task("a2", "")).unwrap();
    store.create(3, &new_task("c1", "")).unwrap();
    store.create(2, &new_task("b2", "")).unwrap();
    assert_eq!(ids(&store.list(1)), vec![1, 3]);
    assert_eq!(ids(&store.list(2)), vec![2, 5]);
    assert_eq!(ids(&store.list(3)), vec![4]);
    assert!(store.list(4).is_empty());
    assert!(store.list(1).iter().all(|task| task.user_id == 1));
}

#[test]
fn update_replaces_title_and_description_only() {
    let mut store = TaskStore::new();
    let task = store.create(9, &new_task("old title", "old text")).unwrap();
    assert_eq!(store.update(9, task.id, &new_task("new title", "new text")), true);
    assert_eq!(
        store.get(9, task.id),
        Some(Task {
            id: task.id,
            title: "new title".to_string(),
            description: "new text".to_string(),
            completed: false,
            user_id: 9,
        })
    );
}

#[test]
fn update_of_what_is_not_there_changes_nothing() {
    let mut store = TaskStore::new();
    let task = store.create(9, &new_task("title", "text")).unwrap();
    assert_eq!(store.update(9, task.id + 1, &new_task("x", "y")), false);
    assert_eq!(store.get(9, task.id), Some(task));
}

#[test]
fn update_touches_one_row() {
    let mut store = TaskStore::new();
    store.create(1, &new_task("a", "1")).unwrap();
    store.create(1, &new_task("b", "2")).unwrap();
    store.create(2, &new_task("c", "3")).unwrap();
    assert_eq!(store.update(1, 2, &new_task("B", "two")), true);
    assert_eq!(titles(&store.list(1)), vec!["a".to_string(), "B".to_string()]);
    assert_eq!(titles(&store.list(2)), vec!["c".to_string()]);
}

#[test]
fn a_row_changed_when_exactly_one_was_affected() {
    assert_eq!(row_changed(0), false);
    assert_eq!(row_changed(1), true);
    assert_eq!(row_changed(2), false);
    assert_eq!(row_changed(u64::MAX), false);
}

#[test]
fn a_resumed_store_goes_on_after_the_last_id() {
    let mut store = TaskStore::resuming_after(41).unwrap();
    assert!(store.list(1).is_empty());
    assert_eq!(store.create(1, &new_task("a", "")).unwrap().id, 42);
    let mut fresh = TaskStore::resuming_after(0).unwrap();
    assert_eq!(fresh.create(1, &new_task("a", "")).unwrap().id, 1);
}

#[test]
fn a_store_cannot_resume_after_a_negative_id() {
    assert!(TaskStore::resuming_after(-1).is_none());
    assert!(TaskStore::resuming_after(i32::MIN).is_none());
}

#[test]
fn create_fails_when_no_id_is_left() {
    assert_eq!(MAX_TASK_ID, 2147483647);
    let mut store = TaskStore::resuming_after(MAX_TASK_ID - 1).unwrap();
    assert_eq!(store.create(1, &new_task("last", "")).unwrap().id, MAX_TASK_ID);
    assert_eq!(store.create(1, &new_task("too many", "")), Err(StoreError));
    assert_eq!(store.create(2, &new_task("too many", "")), Err(StoreError));
    assert_eq!(titles(&store.list(1)), vec!["last".to_string()]);
    assert!(store.list(2).is_empty());
}

#[test]
fn a_clone_of_a_task_is_equal_to_it() {
    let task = Task {
        id: 3,
        title: "t".to_string(),
        description: "d".to_string(),
        completed: true,
        user_id: 8,
    };
    assert_eq!(task.clone(), task);
}

#[test]
fn every_database_failure_is_a_store_error() {
    assert_eq!(StoreError::from(sqlx::Error::RowNotFound), StoreError);
    assert_eq!(StoreError::from(sqlx::Error::PoolTimedOut), StoreError);
    assert_eq!(StoreError::from(sqlx::Error::PoolClosed), StoreError);
    assert_eq!(StoreError::from(sqlx::Error::ColumnNotFound("id".to_string())), StoreError);
}
