//! The API boundary: every operation mapped onto one store call, every
//! outcome onto a payload or a failure with its status code.

use vstd::prelude::*;
use vstd::string::*;
use crate::calendar::{parsed_date, Date};
use crate::credentials::{login_outcome, stored_hash, verify_login, CredentialStore};
use crate::dashboard::{compose_summary, summarize, summary_of, RECENT_TASKS};
use crate::error::{
    ApiError, AuthError, Failure, FailureView, StorageError, ValidationError, STATUS_INTERNAL,
};
use crate::ident::{parse_task_id, uuid_parse};
use crate::journal::{
    contains_entry_id, dates_descending, first_entries, insertion_point, JournalStore,
};
use crate::model::{
    entry_views, task_views, text_of, AuthPayload, AuthResponse, AuthResponseView,
    CreateLogPayload, CreateTaskPayload, DashboardSummary, JournalEntry, JournalEntryView,
    TaskItem,
};
use crate::password::password_accepted;
use crate::tasks::{
    contains_id, most_recent, new_task, newest_first, pending_count, toggled, TaskStore,
    MAX_ROWS,
};

verus! {

/// How many of the latest journal entries a listing returns.
pub const RECENT_LOGS: usize = 10;

/// The text of the health check.
pub open spec fn health_text() -> Seq<char> {
    "CyberMe Systems Operational."@
}

/// The answer to a registration that succeeded.
pub open spec fn registered_view() -> AuthResponseView {
    AuthResponseView { message: "User created"@, status: "success"@ }
}

/// The answer to a login that succeeded.
pub open spec fn logged_in_view() -> AuthResponseView {
    AuthResponseView { message: "Login successful"@, status: "success"@ }
}

/// The answer to a toggle that reached the store.
pub open spec fn toggled_text() -> Seq<char> {
    "Task updated"@
}

/// The failure that a registration reports for an error: a storage error
/// is reported as a server fault whose message names the database.
pub open spec fn registration_failure(error: ApiError) -> FailureView {
    match error {
        ApiError::Storage(e) => FailureView {
            status: STATUS_INTERNAL,
            message: "DB Error: "@ + e.message_text(),
        },
        _ => error.failure(),
    }
}

/// Answers the health check.
pub fn health_check() -> (text: &'static str)
    ensures
        text@ == health_text(),
{
    "CyberMe Systems Operational."
}

/// Maps the outcome of a registration onto its answer.
pub fn register_response(outcome: Result<(), ApiError>) -> (r: Result<AuthResponse, Failure>)
    ensures
        outcome is Ok ==> (r matches Ok(response) && response@ == registered_view()),
        outcome matches Err(e) ==> (r matches Err(f) && f@ == registration_failure(e)),
{
    match outcome {
        Ok(()) => Ok(
            AuthResponse {
                message: String::from_str("User created"),
                status: String::from_str("success"),
            },
        ),
        Err(ApiError::Storage(e)) => {
            let detail: String = e.to_failure().message;
            Err(
                Failure {
                    status: STATUS_INTERNAL,
                    message: String::from_str("DB Error: ").concat(detail.as_str()),
                },
            )
        },
        Err(e) => Err(e.to_failure()),
    }
}

/// Maps the outcome of a login onto its answer.
pub fn login_response(outcome: Result<(), AuthError>) -> (r: Result<AuthResponse, Failure>)
    ensures
        outcome is Ok ==> (r matches Ok(response) && response@ == logged_in_view()),
        outcome matches Err(e) ==> (r matches Err(f) && f@ == e.failure()),
{
    match outcome {
        Ok(()) => Ok(
            AuthResponse {
                message: String::from_str("Login successful"),
                status: String::from_str("success"),
            },
        ),
        Err(e) => Err(e.to_failure()),
    }
}

/// Maps the outcome of a store call onto its answer: the row or rows as
/// they are, a storage error as a server fault.
pub fn storage_response<T>(outcome: Result<T, StorageError>) -> (r: Result<T, Failure>)
    ensures
        outcome matches Ok(value) ==> (r matches Ok(same) && same == value),
        outcome matches Err(e) ==> (r matches Err(f) && f@ == e.failure()),
{
    match outcome {
        Ok(value) => Ok(value),
        Err(e) => Err(e.to_failure()),
    }
}

/// Maps the outcome of a toggle onto its answer. A toggle that changed no
/// row is answered like one that changed a row.
pub fn toggle_response(outcome: Result<u64, StorageError>) -> (r: Result<String, Failure>)
    ensures
        outcome is Ok ==> (r matches Ok(text) && text@ == toggled_text()),
        outcome matches Err(e) ==> (r matches Err(f) && f@ == e.failure()),
{
    match outcome {
        Ok(_) => Ok(String::from_str("Task updated")),
        Err(e) => Err(e.to_failure()),
    }
}

/// Maps the outcomes of the two reads of the task store onto the summary.
/// Where both reads fail, the failure of the count is reported.
pub fn dashboard_response(
    pending: Result<i64, StorageError>,
    recent: Result<Vec<TaskItem>, StorageError>,
) -> (r: Result<DashboardSummary, Failure>)
    ensures
        pending matches Err(e) ==> (r matches Err(f) && f@ == e.failure()),
        pending is Ok ==> (recent matches Err(e) ==> (r matches Err(f) && f@ == e.failure())),
        pending matches Ok(count) ==> (recent matches Ok(list) ==> (r matches Ok(summary)
            && summary@ == summary_of(count as int, task_views(list@)))),
{
    match pending {
        Err(e) => Err(e.to_failure()),
        Ok(count) => match recent {
            Err(e) => Err(e.to_failure()),
            Ok(list) => Ok(compose_summary(count, list)),
        },
    }
}

/// Decides a login from the outcome of the lookup of the stored hash. A
/// lookup that failed is answered like a username that is not registered.
pub fn login_from_lookup(lookup: Result<String, StorageError>, password: &str) -> (r: Result<
    (),
    AuthError,
>)
    ensures
        lookup matches Ok(hash) ==> r == login_outcome(Some(hash@), password@),
        lookup is Err ==> r == Err::<(), AuthError>(AuthError::AccountNotFound),
{
    match lookup {
        Ok(hash) => verify_login(Some(hash), password),
        Err(_) => verify_login(None, password),
    }
}

/// The message for a stored date that is no calendar date written
/// `YYYY-MM-DD`.
pub open spec fn unreadable_date_text(date: Seq<char>) -> Seq<char> {
    "date out of range: "@ + date
}

/// Builds a journal entry from a stored row whose date is written as text.
/// A row whose date cannot be read is a storage failure.
pub fn entry_from_row(
    id: u128,
    date: String,
    entry_type: String,
    mood: Option<String>,
    content: String,
) -> (r: Result<JournalEntry, StorageError>)
    ensures
        parsed_date(date@) matches Some(day) ==> (r matches Ok(entry) && entry@ == (
        JournalEntryView {
            id,
            date: day,
            entry_type: entry_type@,
            mood: text_of(mood),
            content: content@,
        })),
        parsed_date(date@) is None ==> (r matches Err(e) && e.message_text()
            == unreadable_date_text(date@) && e is Engine),
{
    match Date::parse(date.as_str()) {
        Some(day) => Ok(JournalEntry { id, date: day, entry_type, mood, content }),
        None => Err(
            StorageError::Engine(String::from_str("date out of range: ").concat(date.as_str())),
        ),
    }
}

/// Reads the date of a request to create a journal entry.
pub fn log_date(payload: &CreateLogPayload) -> (r: Result<Date, ValidationError>)
    ensures
        parsed_date(payload.date@) matches Some(date) ==> (r matches Ok(read) && read@ == date),
        parsed_date(payload.date@) is None ==> r == Err::<Date, ValidationError>(
            ValidationError::MalformedDate,
        ),
{
    match Date::parse(payload.date.as_str()) {
        Some(date) => Ok(date),
        None => Err(ValidationError::MalformedDate),
    }
}

/// The three stores behind the API.
pub struct Backend {
    pub credentials: CredentialStore,
    pub tasks: TaskStore,
    pub journal: JournalStore,
}

impl Backend {
    /// The invariant of the backend: that of each store.
    pub open spec fn wf(&self) -> bool {
        &&& self.credentials.wf()
        &&& self.tasks.wf()
        &&& self.journal.wf()
    }

    /// A backend with three empty stores.
    pub fn new() -> (backend: Self)
        ensures
            backend.wf(),
            backend.credentials@ == Map::<Seq<char>, Seq<char>>::empty(),
            backend.tasks@.len() == 0,
            backend.journal@.len() == 0,
    {
        Backend {
            credentials: CredentialStore::new(),
            tasks: TaskStore::new(),
            journal: JournalStore::new(),
        }
    }

    /// Registers the user of the payload. A registered username is refused
    /// as a server fault and keeps its stored hash.
    pub fn register_user(&mut self, payload: &AuthPayload) -> (r: Result<AuthResponse, Failure>)
        requires
            old(self).wf(),
        ensures
            final(self).wf(),
            final(self).tasks@ == old(self).tasks@,
            final(self).journal@ == old(self).journal@,
            old(self).credentials@.contains_key(payload.username@) ==> (r matches Err(f) && f@
                == AuthError::DuplicateUsername.failure()),
            r matches Ok(response) ==> {
                &&& response@ == registered_view()
                &&& !old(self).credentials@.contains_key(payload.username@)
                &&& final(self).credentials@.contains_key(payload.username@)
                &&& final(self).credentials@ == old(self).credentials@.insert(
                    payload.username@,
                    final(self).credentials@[payload.username@],
                )
                &&& password_accepted(
                    payload.password@,
                    final(self).credentials@[payload.username@],
                )
            },
            r matches Err(f) ==> {
                &&& f@.status == STATUS_INTERNAL
                &&& final(self).credentials@ == old(self).credentials@
            },
    {
        let outcome = self.credentials.register(
            payload.username.as_str(),
            payload.password.as_str(),
        );
        match outcome {
            Ok(()) => register_response(Ok(())),
            Err(e) => register_response(Err(ApiError::Auth(e))),
        }
    }

    /// Verifies the login of the payload. An unknown username and a wrong
    /// password are both refused as unauthorized, with different messages.
    pub fn login_user(&self, payload: &AuthPayload) -> (r: Result<AuthResponse, Failure>)
        requires
            self.wf(),
        ensures
            match login_outcome(
                stored_hash(self.credentials@, payload.username@),
                payload.password@,
            ) {
                Ok(_) => r matches Ok(response) && response@ == logged_in_view(),
                Err(e) => r matches Err(f) && f@ == e.failure(),
            },
    {
        login_response(
            self.credentials.login(payload.username.as_str(), payload.password.as_str()),
        )
    }

    /// Summarizes the tasks for the dashboard.
    pub fn get_dashboard_summary(&self) -> (r: Result<DashboardSummary, Failure>)
        requires
            self.wf(),
        ensures
            r matches Ok(summary) && summary@ == summary_of(
                pending_count(self.tasks@) as int,
                most_recent(self.tasks@, RECENT_TASKS as nat),
            ),
            r matches Ok(summary) ==> {
                &&& summary@.widgets.tasks.pending_count == pending_count(self.tasks@)
                &&& summary@.widgets.tasks.recent_tasks.len() <= RECENT_TASKS
                &&& summary@.widgets.tasks.recent_tasks.is_prefix_of(newest_first(self.tasks@))
            },
    {
        Ok(summarize(&self.tasks))
    }

    /// Creates the task of the payload and returns the stored row.
    pub fn create_task(&mut self, payload: CreateTaskPayload) -> (r: Result<TaskItem, Failure>)
        requires
            old(self).wf(),
        ensures
            final(self).wf(),
            final(self).credentials@ == old(self).credentials@,
            final(self).journal@ == old(self).journal@,
            r matches Ok(item) ==> {
                &&& item@ == new_task(item@.id, payload.title@, Some(payload.priority@))
                &&& !contains_id(old(self).tasks@, item@.id)
                &&& final(self).tasks@ == old(self).tasks@.push(item@)
            },
            r matches Err(f) ==> {
                &&& final(self).tasks@ == old(self).tasks@
                &&& old(self).tasks@.len() > 0
                &&& (f@ == StorageError::DuplicateKey.failure() || f@
                    == StorageError::CapacityExhausted.failure())
                &&& (f@ == StorageError::CapacityExhausted.failure() ==> old(self).tasks@.len()
                    == MAX_ROWS)
            },
            old(self).tasks@.len() == MAX_ROWS ==> r is Err,
    {
        let outcome = self.tasks.create(payload.title, Some(payload.priority));
        proof {
            reveal_strlit("duplicate key value violates unique constraint");
            reveal_strlit("storage capacity exhausted");
            assert(StorageError::DuplicateKey.message_text().len() == 46);
            assert(StorageError::CapacityExhausted.message_text().len() == 26);
        }
        storage_response(outcome)
    }

    /// Toggles the task whose identifier is written in `id`. A text that
    /// is no identifier is refused; an identifier that no task carries
    /// changes nothing and is answered like any other.
    pub fn toggle_task(&mut self, id: &str) -> (r: Result<String, Failure>)
        requires
            old(self).wf(),
        ensures
            final(self).wf(),
            final(self).credentials@ == old(self).credentials@,
            final(self).journal@ == old(self).journal@,
            uuid_parse(id@) is None ==> {
                &&& (r matches Err(f) && f@ == ValidationError::MalformedId.failure())
                &&& final(self).tasks@ == old(self).tasks@
            },
            uuid_parse(id@) matches Some(task) ==> {
                &&& (r matches Ok(text) && text@ == toggled_text())
                &&& final(self).tasks@ == toggled(old(self).tasks@, task)
            },
    {
        match parse_task_id(id) {
            Err(e) => Err(e.to_failure()),
            Ok(task) => toggle_response(Ok(self.tasks.toggle(task))),
        }
    }

    /// Creates the journal entry of the payload and returns the stored row.
    /// A date that is no calendar date is refused.
    pub fn create_log(&mut self, payload: CreateLogPayload) -> (r: Result<JournalEntry, Failure>)
        requires
            old(self).wf(),
        ensures
            final(self).wf(),
            final(self).credentials@ == old(self).credentials@,
            final(self).tasks@ == old(self).tasks@,
            parsed_date(payload.date@) is None ==> {
                &&& (r matches Err(f) && f@ == ValidationError::MalformedDate.failure())
                &&& final(self).journal@ == old(self).journal@
            },
            parsed_date(payload.date@) matches Some(date) ==> match r {
                Ok(entry) => {
                    &&& entry@ == (JournalEntryView {
                        id: entry@.id,
                        date,
                        entry_type: payload.entry_type@,
                        mood: text_of(payload.mood),
                        content: payload.content@,
                    })
                    &&& !contains_entry_id(old(self).journal@, entry@.id)
                    &&& final(self).journal@ == old(self).journal@.insert(
                        insertion_point(old(self).journal@, date) as int,
                        entry@,
                    )
                },
                Err(f) => {
                    &&& f@ == StorageError::DuplicateKey.failure()
                    &&& final(self).journal@ == old(self).journal@
                    &&& old(self).journal@.len() > 0
                },
            },
    {
        match log_date(&payload) {
            Err(e) => Err(e.to_failure()),
            Ok(date) => storage_response(
                self.journal.create(date, payload.entry_type, payload.mood, payload.content),
            ),
        }
    }

    /// Lists the ten journal entries of the latest dates, latest first.
    pub fn list_logs(&self) -> (r: Result<Vec<JournalEntry>, Failure>)
        requires
            self.wf(),
        ensures
            r matches Ok(list) && entry_views(list@) == first_entries(
                self.journal@,
                RECENT_LOGS as nat,
            ),
            r matches Ok(list) ==> {
                &&& list@.len() <= RECENT_LOGS
                &&& dates_descending(entry_views(list@))
            },
    {
        Ok(self.journal.recent(RECENT_LOGS))
    }
}

} // verus!
