//! The rows the stores hold and the payloads the API exchanges.

use vstd::prelude::*;
use crate::calendar::{Date, DateView};

verus! {

/// The view of an optional text.
pub open spec fn text_of(value: Option<String>) -> Option<Seq<char>> {
    match value {
        Some(text) => Some(text@),
        None => None,
    }
}

/// Copies an optional text.
pub fn copy_text(value: &Option<String>) -> (copy: Option<String>)
    ensures
        text_of(copy) == text_of(*value),
{
    match value {
        Some(text) => Some(text.clone()),
        None => None,
    }
}

/// A task as it is stored and returned.
#[derive(Debug, PartialEq, Eq)]
pub struct TaskItem {
    pub id: u128,
    pub title: String,
    pub is_done: bool,
    pub priority: Option<String>,
}

/// Mathematical value of a [`TaskItem`].
pub struct TaskItemView {
    pub id: u128,
    pub title: Seq<char>,
    pub is_done: bool,
    pub priority: Option<Seq<char>>,
}

impl View for TaskItem {
    type V = TaskItemView;

    open spec fn view(&self) -> TaskItemView {
        TaskItemView {
            id: self.id,
            title: self.title@,
            is_done: self.is_done,
            priority: text_of(self.priority),
        }
    }
}

impl Clone for TaskItem {
    fn clone(&self) -> (copy: Self)
        ensures
            copy@ == self@,
    {
        TaskItem {
            id: self.id,
            title: self.title.clone(),
            is_done: self.is_done,
            priority: copy_text(&self.priority),
        }
    }
}

/// The values of a list of tasks, in the order of the list.
pub open spec fn task_views(items: Seq<TaskItem>) -> Seq<TaskItemView> {
    items.map_values(|item: TaskItem| item@)
}

/// The task widget of the dashboard.
#[derive(Debug, PartialEq, Eq)]
pub struct TaskSummary {
    pub pending_count: i64,
    pub recent_tasks: Vec<TaskItem>,
}

/// Mathematical value of a [`TaskSummary`].
pub struct TaskSummaryView {
    pub pending_count: int,
    pub recent_tasks: Seq<TaskItemView>,
}

impl View for TaskSummary {
    type V = TaskSummaryView;

    open spec fn view(&self) -> TaskSummaryView {
        TaskSummaryView {
            pending_count: self.pending_count as int,
            recent_tasks: task_views(self.recent_tasks@),
        }
    }
}

/// The widgets of the dashboard.
#[derive(Debug, PartialEq, Eq)]
pub struct WidgetData {
    pub tasks: TaskSummary,
}

/// Mathematical value of a [`WidgetData`].
pub struct WidgetDataView {
    pub tasks: TaskSummaryView,
}

impl View for WidgetData {
    type V = WidgetDataView;

    open spec fn view(&self) -> WidgetDataView {
        WidgetDataView { tasks: self.tasks@ }
    }
}

/// The dashboard summary: a greeting and the widgets.
#[derive(Debug, PartialEq, Eq)]
pub struct DashboardSummary {
    pub greeting: String,
    pub widgets: WidgetData,
}

/// Mathematical value of a [`DashboardSummary`].
pub struct DashboardSummaryView {
    pub greeting: Seq<char>,
    pub widgets: WidgetDataView,
}

impl View for DashboardSummary {
    type V = DashboardSummaryView;

    open spec fn view(&self) -> DashboardSummaryView {
        DashboardSummaryView { greeting: self.greeting@, widgets: self.widgets@ }
    }
}

/// The body of a registration or login request.
#[derive(Debug, PartialEq, Eq)]
pub struct AuthPayload {
    pub username: String,
    pub password: String,
}

/// The body of the answer to a registration or login that succeeded.
#[derive(Debug, PartialEq, Eq)]
pub struct AuthResponse {
    pub message: String,
    pub status: String,
}

/// Mathematical value of an [`AuthResponse`].
pub struct AuthResponseView {
    pub message: Seq<char>,
    pub status: Seq<char>,
}

impl View for AuthResponse {
    type V = AuthResponseView;

    open spec fn view(&self) -> AuthResponseView {
        AuthResponseView { message: self.message@, status: self.status@ }
    }
}

/// The body of a request to create a task.
#[derive(Debug, PartialEq, Eq)]
pub struct CreateTaskPayload {
    pub title: String,
    pub priority: String,
}

/// A journal entry as it is stored and returned.
#[derive(Debug, PartialEq, Eq)]
pub struct JournalEntry {
    pub id: u128,
    pub date: Date,
    pub entry_type: String,
    pub mood: Option<String>,
    pub content: String,
}

/// Mathematical value of a [`JournalEntry`].
pub struct JournalEntryView {
    pub id: u128,
    pub date: DateView,
    pub entry_type: Seq<char>,
    pub mood: Option<Seq<char>>,
    pub content: Seq<char>,
}

impl View for JournalEntry {
    type V = JournalEntryView;

    open spec fn view(&self) -> JournalEntryView {
        JournalEntryView {
            id: self.id,
            date: self.date@,
            entry_type: self.entry_type@,
            mood: text_of(self.mood),
            content: self.content@,
        }
    }
}

impl Clone for JournalEntry {
    fn clone(&self) -> (copy: Self)
        ensures
            copy@ == self@,
    {
        JournalEntry {
            id: self.id,
            date: self.date,
            entry_type: self.entry_type.clone(),
            mood: copy_text(&self.mood),
            content: self.content.clone(),
        }
    }
}

/// The values of a list of journal entries, in the order of the list.
pub open spec fn entry_views(entries: Seq<JournalEntry>) -> Seq<JournalEntryView> {
    entries.map_values(|entry: JournalEntry| entry@)
}

/// The body of a request to create a journal entry; the date is written
/// `YYYY-MM-DD`.
#[derive(Debug, PartialEq, Eq)]
pub struct CreateLogPayload {
    pub date: String,
    pub entry_type: String,
    pub mood: Option<String>,
    pub content: String,
}

} // verus!
