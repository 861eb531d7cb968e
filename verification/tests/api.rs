use backend::api::{
    dashboard_response, entry_from_row, health_check, log_date, login_from_lookup,
    login_response, register_response, storage_response, toggle_response, Backend, RECENT_LOGS,
};
use backend::calendar::Date;
use backend::error::{ApiError, AuthError, Failure, StorageError, ValidationError};
use backend::model::{
    AuthPayload, AuthResponse, CreateLogPayload, CreateTaskPayload, JournalEntry, TaskItem,
};

/// A hash of the word `password`, made at the lowest cost.
const PASSWORD_HASH: &str = "$2a$04$UuTkLRZZ6QofpDOlMz32MuuxEHA43WOemOYHPz6.SjsVsyO1tDU96";

fn text(value: &str) -> String {
    value.to_string()
}

fn failure(status: u16, message: &str) -> Failure {
    Failure { status, message: text(message) }
}

fn auth(username: &str, password: &str) -> AuthPayload {
    AuthPayload { username: text(username), password: text(password) }
}

fn task(title: &str, priority: &str) -> CreateTaskPayload {
    CreateTaskPayload { title: text(title), priority: text(priority) }
}

fn log(date: &str, entry_type: &str, mood: Option<&str>, content: &str) -> CreateLogPayload {
    CreateLogPayload {
        date: text(date),
        entry_type: text(entry_type),
        mood: mood.map(text),
        content: text(content),
    }
}

fn render(id: u128) -> String {
    uuid::Uuid::from_u128(id).to_string()
}

#[test]
fn health_check_answers_with_its_text() {
    assert_eq!(health_check(), "CyberMe Systems Operational.");
}

#[test]
fn validation_failures_are_client_errors() {
    assert_eq!(ValidationError::MalformedId.to_failure(), failure(400, "Invalid task id"));
    assert_eq!(ValidationError::MalformedDate.to_failure(), failure(422, "Invalid date"));
}

#[test]
fn auth_failures_have_their_status_and_message() {
    assert_eq!(AuthError::AccountNotFound.to_failure(), failure(401, "Account not found"));
    assert_eq!(AuthError::InvalidCredentials.to_failure(), failure(401, "Wrong password"));
    assert_eq!(
        AuthError::DuplicateUsername.to_failure(),
        failure(500, "DB Error: username already exists")
    );
    assert_eq!(
        AuthError::HashingFailed(text("Rand error: none")).to_failure(),
        failure(500, "Rand error: none")
    );
}

#[test]
fn storage_failures_are_server_faults() {
    assert_eq!(
        StorageError::DuplicateKey.to_failure(),
        failure(500, "duplicate key value violates unique constraint")
    );
    assert_eq!(
        StorageError::CapacityExhausted.to_failure(),
        failure(500, "storage capacity exhausted")
    );
    assert_eq!(
        StorageError::Engine(text("connection refused")).to_failure(),
        failure(500, "connection refused")
    );
}

#[test]
fn api_errors_are_rendered_as_the_error_inside() {
    assert_eq!(
        ApiError::Validation(ValidationError::MalformedId).to_failure(),
        failure(400, "Invalid task id")
    );
    assert_eq!(
        ApiError::Auth(AuthError::InvalidCredentials).to_failure(),
        failure(401, "Wrong password")
    );
    assert_eq!(
        ApiError::Storage(StorageError::Engine(text("pool timed out"))).to_failure(),
        failure(500, "pool timed out")
    );
}

#[test]
fn register_response_maps_every_outcome() {
    assert_eq!(
        register_response(Ok(())),
        Ok(AuthResponse { message: text("User created"), status: text("success") })
    );
    assert_eq!(
        register_response(Err(ApiError::Storage(StorageError::Engine(text("boom"))))),
        Err(failure(500, "DB Error: boom"))
    );
    assert_eq!(
        register_response(Err(ApiError::Storage(StorageError::DuplicateKey))),
        Err(failure(500, "DB Error: duplicate key value violates unique constraint"))
    );
    assert_eq!(
        register_response(Err(ApiError::Auth(AuthError::DuplicateUsername))),
        Err(failure(500, "DB Error: username already exists"))
    );
    assert_eq!(
        register_response(Err(ApiError::Auth(AuthError::HashingFailed(text("no entropy"))))),
        Err(failure(500, "no entropy"))
    );
}

#[test]
fn login_response_maps_every_outcome() {
    assert_eq!(
        login_response(Ok(())),
        Ok(AuthResponse { message: text("Login successful"), status: text("success") })
    );
    assert_eq!(
        login_response(Err(AuthError::AccountNotFound)),
        Err(failure(401, "Account not found"))
    );
    assert_eq!(
        login_response(Err(AuthError::InvalidCredentials)),
        Err(failure(401, "Wrong password"))
    );
}

#[test]
fn storage_response_passes_a_row_and_renders_a_failure() {
    let row = TaskItem { id: 3, title: text("t"), is_done: false, priority: None };
    assert_eq!(storage_response(Ok(row.clone())), Ok(row));
    assert_eq!(
        storage_response::<TaskItem>(Err(StorageError::Engine(text("disk full")))),
        Err(failure(500, "disk full"))
    );
}

#[test]
fn toggle_response_answers_alike_whatever_changed() {
    assert_eq!(toggle_response(Ok(1)), Ok(text("Task updated")));
    assert_eq!(toggle_response(Ok(0)), Ok(text("Task updated")));
    assert_eq!(
        toggle_response(Err(StorageError::Engine(text("gone")))),
        Err(failure(500, "gone"))
    );
}

#[test]
fn dashboard_response_needs_both_reads() {
    let row = TaskItem { id: 3, title: text("t"), is_done: false, priority: None };
    let summary = dashboard_response(Ok(4), Ok(vec![row.clone()])).expect("a summary");
    assert_eq!(summary.greeting, "Welcome back, System Admin.");
    assert_eq!(summary.widgets.tasks.pending_count, 4);
    assert_eq!(summary.widgets.tasks.recent_tasks, vec![row.clone()]);
    assert_eq!(
        dashboard_response(Err(StorageError::Engine(text("count failed"))), Ok(vec![row])),
        Err(failure(500, "count failed"))
    );
    assert_eq!(
        dashboard_response(Ok(4), Err(StorageError::Engine(text("list failed")))),
        Err(failure(500, "list failed"))
    );
    assert_eq!(
        dashboard_response(
            Err(StorageError::Engine(text("count failed"))),
            Err(StorageError::Engine(text("list failed")))
        ),
        Err(failure(500, "count failed"))
    );
}

#[test]
fn log_date_reads_the_date_of_the_payload() {
    assert_eq!(
        log_date(&log("2024-01-01", "note", None, "hello")),
        Ok(Date::new(2024, 1, 1).expect("a date"))
    );
    assert_eq!(
        log_date(&log("2024-02-30", "note", None, "hello")),
        Err(ValidationError::MalformedDate)
    );
    assert_eq!(log_date(&log("today", "note", None, "hello")), Err(ValidationError::MalformedDate));
}

#[test]
fn created_task_shows_in_the_dashboard() {
    let mut backend = Backend::new();
    let created = backend.create_task(task("Buy milk", "low")).expect("a created task");
    assert_eq!(created.title, "Buy milk");
    assert_eq!(created.priority, Some(text("low")));
    assert!(!created.is_done);
    assert_eq!(render(created.id).len(), 36);
    let summary = backend.get_dashboard_summary().expect("a summary");
    assert!(summary.widgets.tasks.pending_count >= 1);
    assert_eq!(summary.widgets.tasks.pending_count, 1);
    assert_eq!(summary.widgets.tasks.recent_tasks, vec![created]);
}

#[test]
fn dashboard_lists_a_task_while_it_is_among_the_three_newest() {
    let mut backend = Backend::new();
    let milk = backend.create_task(task("Buy milk", "low")).expect("a created task");
    backend.create_task(task("second", "high")).expect("a created task");
    backend.create_task(task("third", "high")).expect("a created task");
    let summary = backend.get_dashboard_summary().expect("a summary");
    assert_eq!(summary.widgets.tasks.recent_tasks.len(), 3);
    assert_eq!(summary.widgets.tasks.recent_tasks[2], milk);
    backend.create_task(task("fourth", "high")).expect("a created task");
    let summary = backend.get_dashboard_summary().expect("a summary");
    assert_eq!(summary.widgets.tasks.pending_count, 4);
    assert_eq!(summary.widgets.tasks.recent_tasks.len(), 3);
    assert!(!summary.widgets.tasks.recent_tasks.contains(&milk));
    assert_eq!(summary.widgets.tasks.recent_tasks[0].title, "fourth");
}

#[test]
fn toggle_task_reads_the_identifier_from_its_text() {
    let mut backend = Backend::new();
    let created = backend.create_task(task("Buy milk", "low")).expect("a created task");
    assert_eq!(backend.toggle_task(&render(created.id)), Ok(text("Task updated")));
    let summary = backend.get_dashboard_summary().expect("a summary");
    assert_eq!(summary.widgets.tasks.pending_count, 0);
    assert!(summary.widgets.tasks.recent_tasks[0].is_done);
    assert_eq!(
        backend.toggle_task(&render(created.id).to_uppercase()),
        Ok(text("Task updated"))
    );
    let summary = backend.get_dashboard_summary().expect("a summary");
    assert_eq!(summary.widgets.tasks.pending_count, 1);
    assert_eq!(summary.widgets.tasks.recent_tasks, vec![created]);
}

#[test]
fn toggle_task_of_an_unknown_identifier_is_answered_alike() {
    let mut backend = Backend::new();
    let created = backend.create_task(task("Buy milk", "low")).expect("a created task");
    let other = render(created.id ^ 1);
    assert_eq!(backend.toggle_task(&other), Ok(text("Task updated")));
    let summary = backend.get_dashboard_summary().expect("a summary");
    assert_eq!(summary.widgets.tasks.pending_count, 1);
    assert_eq!(summary.widgets.tasks.recent_tasks, vec![created]);
}

#[test]
fn toggle_task_refuses_a_text_that_is_no_identifier() {
    let mut backend = Backend::new();
    backend.create_task(task("Buy milk", "low")).expect("a created task");
    assert_eq!(backend.toggle_task("milk"), Err(failure(400, "Invalid task id")));
    assert_eq!(backend.toggle_task(""), Err(failure(400, "Invalid task id")));
    assert_eq!(backend.get_dashboard_summary().expect("a summary").widgets.tasks.pending_count, 1);
}

#[test]
fn created_log_without_mood_is_listed() {
    let mut backend = Backend::new();
    let created = backend
        .create_log(log("2024-01-01", "note", None, "hello"))
        .expect("a created entry");
    assert_eq!(created.date.to_text(), "2024-01-01");
    assert_eq!(created.entry_type, "note");
    assert_eq!(created.mood, None);
    assert_eq!(created.content, "hello");
    let listed = backend.list_logs().expect("a listing");
    assert!(listed.contains(&created));
    assert_eq!(listed, vec![created]);
}

#[test]
fn created_log_keeps_its_mood() {
    let mut backend = Backend::new();
    let created = backend
        .create_log(log("2024-01-02", "diary", Some("tired"), "long day"))
        .expect("a created entry");
    assert_eq!(created.mood, Some(text("tired")));
}

#[test]
fn create_log_refuses_a_date_that_does_not_exist() {
    let mut backend = Backend::new();
    assert_eq!(
        backend.create_log(log("2023-02-29", "note", None, "hello")),
        Err(failure(422, "Invalid date"))
    );
    assert_eq!(
        backend.create_log(log("01/01/2024", "note", None, "hello")),
        Err(failure(422, "Invalid date"))
    );
    assert_eq!(backend.list_logs(), Ok(vec![]));
}

#[test]
fn list_logs_returns_the_ten_latest_by_date() {
    let mut backend = Backend::new();
    for day in [5u8, 1, 12, 3, 9, 7, 2, 11, 4, 10, 6, 8] {
        let written = Date::new(2024, 6, day).expect("a date").to_text();
        backend
            .create_log(log(&written, "note", None, "entry"))
            .expect("a created entry");
    }
    let listed = backend.list_logs().expect("a listing");
    assert_eq!(listed.len(), 10);
    assert_eq!(RECENT_LOGS, 10);
    let days: Vec<u8> = listed.iter().map(|entry| entry.date.day()).collect();
    assert_eq!(days, vec![12, 11, 10, 9, 8, 7, 6, 5, 4, 3]);
}

#[test]
fn register_then_login_through_the_api() {
    let mut backend = Backend::new();
    assert_eq!(
        backend.register_user(&auth("erin", "s3cret")),
        Ok(AuthResponse { message: text("User created"), status: text("success") })
    );
    assert_eq!(
        backend.login_user(&auth("erin", "s3cret")),
        Ok(AuthResponse { message: text("Login successful"), status: text("success") })
    );
    assert_eq!(
        backend.login_user(&auth("erin", "secret")),
        Err(failure(401, "Wrong password"))
    );
    assert_eq!(
        backend.login_user(&auth("frank", "s3cret")),
        Err(failure(401, "Account not found"))
    );
}

#[test]
fn register_user_refuses_a_registered_username() {
    let mut backend = Backend::new();
    backend
        .credentials
        .insert_user(text("alice"), text(PASSWORD_HASH))
        .expect("a new username");
    assert_eq!(
        backend.register_user(&auth("alice", "other")),
        Err(failure(500, "DB Error: username already exists"))
    );
    assert_eq!(backend.credentials.lookup("alice"), Some(text(PASSWORD_HASH)));
    assert_eq!(
        backend.login_user(&auth("alice", "password")),
        Ok(AuthResponse { message: text("Login successful"), status: text("success") })
    );
}

#[test]
fn operations_on_one_store_leave_the_others_alone() {
    let mut backend = Backend::new();
    backend.create_task(task("Buy milk", "low")).expect("a created task");
    backend.create_log(log("2024-01-01", "note", None, "hello")).expect("a created entry");
    backend
        .credentials
        .insert_user(text("alice"), text(PASSWORD_HASH))
        .expect("a new username");
    assert_eq!(backend.tasks.len(), 1);
    assert_eq!(backend.journal.len(), 1);
    assert_eq!(backend.credentials.len(), 1);
}

#[test]
fn login_from_lookup_counts_a_failed_lookup_as_an_unknown_account() {
    assert_eq!(login_from_lookup(Ok(text(PASSWORD_HASH)), "password"), Ok(()));
    assert_eq!(
        login_from_lookup(Ok(text(PASSWORD_HASH)), "passw0rd"),
        Err(AuthError::InvalidCredentials)
    );
    assert_eq!(
        login_from_lookup(Err(StorageError::Engine(text("no rows returned"))), "password"),
        Err(AuthError::AccountNotFound)
    );
    assert_eq!(
        login_from_lookup(Err(StorageError::Engine(text("connection reset"))), "password"),
        Err(AuthError::AccountNotFound)
    );
}

#[test]
fn entry_from_row_reads_the_date_of_the_row() {
    let entry = entry_from_row(5, text("2024-01-01"), text("note"), None, text("hello"))
        .expect("an entry");
    assert_eq!(
        entry,
        JournalEntry {
            id: 5,
            date: Date::new(2024, 1, 1).expect("a date"),
            entry_type: text("note"),
            mood: None,
            content: text("hello"),
        }
    );
    let entry = entry_from_row(6, text("1999-12-31"), text("diary"), Some(text("glad")), text(""))
        .expect("an entry");
    assert_eq!(entry.mood, Some(text("glad")));
    assert_eq!(entry.date.to_text(), "1999-12-31");
}

#[test]
fn entry_from_row_refuses_a_date_it_cannot_read() {
    assert_eq!(
        entry_from_row(5, text("12024-01-01"), text("note"), None, text("hello")),
        Err(StorageError::Engine(text("date out of range: 12024-01-01")))
    );
    assert_eq!(
        entry_from_row(5, text("infinity"), text("note"), None, text("hello")),
        Err(StorageError::Engine(text("date out of range: infinity")))
    );
}
