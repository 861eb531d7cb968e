use backend::dashboard::{compose_summary, summarize, RECENT_TASKS};
use backend::error::StorageError;
use backend::model::TaskItem;
use backend::tasks::TaskStore;

fn text(value: &str) -> String {
    value.to_string()
}

fn store_of(count: u128) -> TaskStore {
    let mut store = TaskStore::new();
    for id in 1..=count {
        store
            .insert(id, format!("task {}", id), None)
            .expect("an unused identifier");
    }
    store
}

fn titles(list: &[TaskItem]) -> Vec<String> {
    list.iter().map(|item| item.title.clone()).collect()
}

#[test]
fn new_store_is_empty() {
    let store = TaskStore::new();
    assert_eq!(store.len(), 0);
    assert_eq!(store.count_pending(), 0);
    assert!(store.recent(3).is_empty());
    assert!(!store.contains(1));
}

#[test]
fn create_returns_the_stored_row() {
    let mut store = TaskStore::new();
    let item = store
        .create(text("Buy milk"), Some(text("low")))
        .expect("a created task");
    assert_eq!(item.title, "Buy milk");
    assert_eq!(item.priority, Some(text("low")));
    assert!(!item.is_done);
    assert_eq!(store.len(), 1);
    assert!(store.contains(item.id));
    assert_eq!(store.recent(1), vec![item]);
}

#[test]
fn create_keeps_a_missing_priority_missing() {
    let mut store = TaskStore::new();
    let item = store.create(text("untitled"), None).expect("a created task");
    assert_eq!(item.priority, None);
    assert_eq!(store.recent(1)[0].priority, None);
}

#[test]
fn create_draws_a_new_identifier_each_time() {
    let mut store = TaskStore::new();
    let first = store.create(text("one"), None).expect("a created task");
    let second = store.create(text("two"), None).expect("a created task");
    let third = store.create(text("two"), None).expect("a created task");
    assert_ne!(first.id, second.id);
    assert_ne!(first.id, third.id);
    assert_ne!(second.id, third.id);
    assert_eq!(store.len(), 3);
}

#[test]
fn insert_refuses_an_identifier_in_use() {
    let mut store = TaskStore::new();
    let first = store
        .insert(7, text("first"), Some(text("high")))
        .expect("an unused identifier");
    assert_eq!(
        first,
        TaskItem { id: 7, title: text("first"), is_done: false, priority: Some(text("high")) }
    );
    assert_eq!(store.insert(7, text("second"), None), Err(StorageError::DuplicateKey));
    assert_eq!(store.len(), 1);
    assert_eq!(store.recent(5), vec![first]);
}

#[test]
fn toggling_twice_returns_a_created_task_to_not_done() {
    let mut store = TaskStore::new();
    let item = store.create(text("Buy milk"), Some(text("low"))).expect("a created task");
    assert!(!store.recent(1)[0].is_done);
    assert_eq!(store.toggle(item.id), 1);
    assert!(store.recent(1)[0].is_done);
    assert_eq!(store.toggle(item.id), 1);
    assert!(!store.recent(1)[0].is_done);
    assert_eq!(store.recent(1), vec![item]);
}

#[test]
fn toggle_changes_the_one_task_only() {
    let mut store = store_of(3);
    assert_eq!(store.toggle(2), 1);
    let listed = store.recent(3);
    assert_eq!(
        listed,
        vec![
            TaskItem { id: 3, title: text("task 3"), is_done: false, priority: None },
            TaskItem { id: 2, title: text("task 2"), is_done: true, priority: None },
            TaskItem { id: 1, title: text("task 1"), is_done: false, priority: None },
        ]
    );
}

#[test]
fn toggle_of_an_unknown_identifier_changes_nothing() {
    let mut store = store_of(2);
    let before = store.recent(2);
    assert_eq!(store.toggle(99), 0);
    assert_eq!(store.recent(2), before);
    assert_eq!(store.count_pending(), 2);
}

#[test]
fn count_pending_counts_the_tasks_not_done() {
    let mut store = store_of(5);
    assert_eq!(store.count_pending(), 5);
    store.toggle(1);
    store.toggle(4);
    assert_eq!(store.count_pending(), 3);
    store.toggle(4);
    assert_eq!(store.count_pending(), 4);
    for id in 1..=5 {
        if id != 1 {
            store.toggle(id);
        }
    }
    assert_eq!(store.count_pending(), 0);
}

#[test]
fn recent_lists_the_newest_first() {
    let store = store_of(5);
    assert_eq!(titles(&store.recent(3)), vec!["task 5", "task 4", "task 3"]);
    assert_eq!(titles(&store.recent(1)), vec!["task 5"]);
    assert!(store.recent(0).is_empty());
}

#[test]
fn recent_lists_all_where_there_are_fewer() {
    let store = store_of(2);
    assert_eq!(titles(&store.recent(3)), vec!["task 2", "task 1"]);
    assert_eq!(titles(&store.recent(2)), vec!["task 2", "task 1"]);
    assert_eq!(titles(&store.recent(usize::MAX)), vec!["task 2", "task 1"]);
}

#[test]
fn summary_shows_the_pending_count_and_the_three_newest() {
    let mut store = store_of(5);
    store.toggle(5);
    store.toggle(2);
    let summary = summarize(&store);
    assert_eq!(summary.greeting, "Welcome back, System Admin.");
    assert_eq!(summary.widgets.tasks.pending_count, 3);
    assert_eq!(
        summary.widgets.tasks.recent_tasks,
        vec![
            TaskItem { id: 5, title: text("task 5"), is_done: true, priority: None },
            TaskItem { id: 4, title: text("task 4"), is_done: false, priority: None },
            TaskItem { id: 3, title: text("task 3"), is_done: false, priority: None },
        ]
    );
    assert_eq!(RECENT_TASKS, 3);
}

#[test]
fn summary_of_an_empty_store() {
    let summary = summarize(&TaskStore::new());
    assert_eq!(summary.greeting, "Welcome back, System Admin.");
    assert_eq!(summary.widgets.tasks.pending_count, 0);
    assert!(summary.widgets.tasks.recent_tasks.is_empty());
}

#[test]
fn summary_is_computed_anew_on_every_call() {
    let mut store = store_of(1);
    assert_eq!(summarize(&store).widgets.tasks.pending_count, 1);
    store.toggle(1);
    assert_eq!(summarize(&store).widgets.tasks.pending_count, 0);
    store.insert(2, text("later"), None).expect("an unused identifier");
    let summary = summarize(&store);
    assert_eq!(summary.widgets.tasks.pending_count, 1);
    assert_eq!(titles(&summary.widgets.tasks.recent_tasks), vec!["later", "task 1"]);
}

#[test]
fn compose_summary_holds_what_it_is_given() {
    let item = TaskItem { id: 9, title: text("only"), is_done: true, priority: Some(text("x")) };
    let summary = compose_summary(-4, vec![item.clone()]);
    assert_eq!(summary.greeting, "Welcome back, System Admin.");
    assert_eq!(summary.widgets.tasks.pending_count, -4);
    assert_eq!(summary.widgets.tasks.recent_tasks, vec![item]);
}

#[test]
fn created_at_grows_with_every_creation() {
    let mut store = TaskStore::new();
    let first = store.create(text("one"), None).expect("a created task");
    let second = store.create(text("two"), None).expect("a created task");
    let third = store.create(text("three"), None).expect("a created task");
    assert_eq!(store.created_at(first.id), Some(0));
    assert_eq!(store.created_at(second.id), Some(1));
    assert_eq!(store.created_at(third.id), Some(2));
    assert!(store.created_at(first.id) < store.created_at(second.id));
}

#[test]
fn created_at_is_kept_by_a_toggle() {
    let mut store = store_of(3);
    store.toggle(2);
    assert_eq!(store.created_at(1), Some(0));
    assert_eq!(store.created_at(2), Some(1));
    assert_eq!(store.created_at(3), Some(2));
    assert_eq!(store.created_at(4), None);
}
