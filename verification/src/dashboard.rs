//! The dashboard aggregator: a read-only summary composed from the task
//! store.

use vstd::prelude::*;
use vstd::string::*;
use crate::model::{
    task_views, DashboardSummary, DashboardSummaryView, TaskItem, TaskItemView, TaskSummary,
    TaskSummaryView, WidgetData, WidgetDataView,
};
use crate::tasks::{most_recent, newest_first, pending_count, TaskStore};

verus! {

/// How many of the newest tasks the summary lists.
pub const RECENT_TASKS: usize = 3;

/// The greeting of every summary.
pub open spec fn greeting_text() -> Seq<char> {
    "Welcome back, System Admin."@
}

/// The summary that shows a pending count and a list of recent tasks.
pub open spec fn summary_of(pending: int, recent: Seq<TaskItemView>) -> DashboardSummaryView {
    DashboardSummaryView {
        greeting: greeting_text(),
        widgets: WidgetDataView {
            tasks: TaskSummaryView { pending_count: pending, recent_tasks: recent },
        },
    }
}

/// Composes the summary from the two things read from the task store.
pub fn compose_summary(pending_count: i64, recent_tasks: Vec<TaskItem>) -> (summary:
    DashboardSummary)
    ensures
        summary@ == summary_of(pending_count as int, task_views(recent_tasks@)),
{
    DashboardSummary {
        greeting: String::from_str("Welcome back, System Admin."),
        widgets: WidgetData { tasks: TaskSummary { pending_count, recent_tasks } },
    }
}

/// Summarizes the task store: the number of tasks that are not done, and
/// the three newest tasks, newest first. Nothing is kept between calls.
pub fn summarize(tasks: &TaskStore) -> (summary: DashboardSummary)
    requires
        tasks.wf(),
    ensures
        summary@ == summary_of(
            pending_count(tasks@) as int,
            most_recent(tasks@, RECENT_TASKS as nat),
        ),
        summary@.widgets.tasks.pending_count == pending_count(tasks@),
        summary@.widgets.tasks.recent_tasks.len() <= RECENT_TASKS,
        summary@.widgets.tasks.recent_tasks.is_prefix_of(newest_first(tasks@)),
{
    let pending: i64 = tasks.count_pending();
    let recent: Vec<TaskItem> = tasks.recent(RECENT_TASKS);
    compose_summary(pending, recent)
}

} // verus!
