//! Laws that relate the operations of the stores to one another.

use vstd::prelude::*;
use crate::calendar::{is_calendar_date, ordinal, DateView};
use crate::credentials::{login_outcome, registration_outcome, stored_hash, with_user};
use crate::dashboard::{summary_of, RECENT_TASKS};
use crate::error::{AuthError, STATUS_UNAUTHORIZED};
use crate::journal::{dates_descending, first_entries, insertion_point};
use crate::model::{JournalEntryView, TaskItemView};
use crate::password::password_accepted;
use crate::tasks::{
    ids_distinct, most_recent, new_task, newest_first, pending, pending_count, toggled,
};

verus! {

/// A username that was registered is refused as a duplicate when it is
/// registered again, and the second attempt leaves every account, with the
/// hash that the first one stored, as it was.
pub proof fn law_second_registration_refused(
    accounts: Map<Seq<char>, Seq<char>>,
    username: Seq<char>,
    first_hash: Seq<char>,
    second_hash: Seq<char>,
)
    ensures
        registration_outcome(with_user(accounts, username, first_hash), username) == Err::<
            (),
            AuthError,
        >(AuthError::DuplicateUsername),
        with_user(with_user(accounts, username, first_hash), username, second_hash) == with_user(
            accounts,
            username,
            first_hash,
        ),
        !accounts.contains_key(username) ==> with_user(
            with_user(accounts, username, first_hash),
            username,
            second_hash,
        )[username] == first_hash,
{
}

/// After a username is registered with a hash that the password is
/// accepted for, a login with that username and password succeeds.
pub proof fn law_login_after_registration(
    accounts: Map<Seq<char>, Seq<char>>,
    username: Seq<char>,
    password: Seq<char>,
    hash: Seq<char>,
)
    requires
        !accounts.contains_key(username),
        password_accepted(password, hash),
    ensures
        login_outcome(stored_hash(with_user(accounts, username, hash), username), password) == Ok::<
            (),
            AuthError,
        >(()),
{
}

/// A login fails in exactly two ways, both reported as unauthorized: the
/// username is unknown, or it is known and the password is not accepted for
/// its hash. Which of the two it is tells only whether the lookup of the
/// username found a row.
pub proof fn law_login_refusals(
    accounts: Map<Seq<char>, Seq<char>>,
    username: Seq<char>,
    password: Seq<char>,
)
    ensures
        !accounts.contains_key(username) ==> login_outcome(
            stored_hash(accounts, username),
            password,
        ) == Err::<(), AuthError>(AuthError::AccountNotFound),
        accounts.contains_key(username) && !password_accepted(password, accounts[username])
            ==> login_outcome(stored_hash(accounts, username), password) == Err::<(), AuthError>(
            AuthError::InvalidCredentials,
        ),
        accounts.contains_key(username) && password_accepted(password, accounts[username])
            ==> login_outcome(stored_hash(accounts, username), password) is Ok,
        login_outcome(stored_hash(accounts, username), password) matches Err(e) ==> e.status_code()
            == STATUS_UNAUTHORIZED,
{
}

/// Toggling a task twice gives back the tasks as they were.
pub proof fn law_toggle_twice(tasks: Seq<TaskItemView>, id: u128)
    ensures
        toggled(toggled(tasks, id), id) == tasks,
{
    assert(toggled(toggled(tasks, id), id) =~= tasks);
}

/// A task that was just created is done after one toggle and not done
/// again after a second.
pub proof fn law_created_task_toggled_twice(
    tasks: Seq<TaskItemView>,
    id: u128,
    title: Seq<char>,
    priority: Option<Seq<char>>,
)
    ensures
        !tasks.push(new_task(id, title, priority)).last().is_done,
        toggled(tasks.push(new_task(id, title, priority)), id).last().is_done,
        !toggled(toggled(tasks.push(new_task(id, title, priority)), id), id).last().is_done,
        toggled(toggled(tasks.push(new_task(id, title, priority)), id), id) == tasks.push(
            new_task(id, title, priority),
        ),
{
    law_toggle_twice(tasks.push(new_task(id, title, priority)), id);
}

/// A toggle changes neither the number of tasks nor any identifier, and it
/// changes the done flag of the tasks with the identifier only.
pub proof fn law_toggle_touches_one_identifier(tasks: Seq<TaskItemView>, id: u128)
    ensures
        toggled(tasks, id).len() == tasks.len(),
        ids_distinct(tasks) ==> ids_distinct(toggled(tasks, id)),
        forall|i: int|
            0 <= i < tasks.len() ==> (#[trigger] toggled(tasks, id)[i]).id == tasks[i].id,
        forall|i: int|
            0 <= i < tasks.len() && tasks[i].id != id ==> #[trigger] toggled(tasks, id)[i]
                == tasks[i],
        forall|i: int|
            0 <= i < tasks.len() && tasks[i].id == id ==> (#[trigger] toggled(
                tasks,
                id,
            )[i]).is_done != tasks[i].is_done,
{
    if ids_distinct(tasks) {
        let after = toggled(tasks, id);
        assert forall|i: int, j: int|
            0 <= i < after.len() && 0 <= j < after.len() && i != j implies (#[trigger] after[i]).id
            != (#[trigger] after[j]).id by {
            assert(tasks[i].id != tasks[j].id);
        }
    }
}

/// The summary of a task list shows as pending count the number of tasks
/// that are not done, and as recent tasks a prefix of at most three of the
/// tasks ordered by creation time, newest first.
pub proof fn law_summary_matches_tasks(tasks: Seq<TaskItemView>)
    ensures
        summary_of(
            pending_count(tasks) as int,
            most_recent(tasks, RECENT_TASKS as nat),
        ).widgets.tasks.pending_count == tasks.filter(pending()).len(),
        pending_count(tasks) <= tasks.len(),
        most_recent(tasks, RECENT_TASKS as nat).len() <= RECENT_TASKS,
        most_recent(tasks, RECENT_TASKS as nat).is_prefix_of(newest_first(tasks)),
        forall|i: int|
            0 <= i < most_recent(tasks, RECENT_TASKS as nat).len() ==> #[trigger] most_recent(
                tasks,
                RECENT_TASKS as nat,
            )[i] == tasks[tasks.len() - 1 - i],
{
    tasks.lemma_filter_len(pending());
    law_most_recent(tasks, RECENT_TASKS as nat);
}

/// The `n` most recent tasks are the first `n` of the tasks ordered newest
/// first, or all of them where there are fewer.
pub proof fn law_most_recent(tasks: Seq<TaskItemView>, n: nat)
    ensures
        most_recent(tasks, n).len() == if n <= tasks.len() {
            n
        } else {
            tasks.len()
        },
        most_recent(tasks, n).is_prefix_of(newest_first(tasks)),
        forall|i: int|
            0 <= i < most_recent(tasks, n).len() ==> #[trigger] most_recent(tasks, n)[i]
                == tasks[tasks.len() - 1 - i],
{
}

/// A task that was just created counts as pending and leads the recent
/// tasks.
pub proof fn law_created_task_is_listed(
    tasks: Seq<TaskItemView>,
    id: u128,
    title: Seq<char>,
    priority: Option<Seq<char>>,
    n: nat,
)
    requires
        n >= 1,
    ensures
        pending_count(tasks.push(new_task(id, title, priority))) == pending_count(tasks) + 1,
        most_recent(tasks.push(new_task(id, title, priority)), n).len() >= 1,
        most_recent(tasks.push(new_task(id, title, priority)), n)[0] == new_task(
            id,
            title,
            priority,
        ),
{
    tasks.lemma_filter_len_push(pending(), new_task(id, title, priority));
    law_most_recent(tasks.push(new_task(id, title, priority)), n);
}

/// The ordinal orders the dates that exist as the calendar does: by year,
/// then by month, then by day; two dates share it only where they are one
/// date.
pub proof fn law_ordinal_follows_calendar(a: DateView, b: DateView)
    requires
        is_calendar_date(a),
        is_calendar_date(b),
    ensures
        ordinal(a) < ordinal(b) <==> (a.year < b.year || (a.year == b.year && (a.month < b.month
            || (a.month == b.month && a.day < b.day)))),
        ordinal(a) == ordinal(b) <==> a == b,
{
}

/// The insertion point of a date has only entries of later dates before
/// it, and in entries that stand latest date first none of a later date
/// from it on.
pub proof fn law_insertion_point_splits(entries: Seq<JournalEntryView>, date: DateView)
    ensures
        insertion_point(entries, date) <= entries.len(),
        forall|i: int|
            0 <= i < insertion_point(entries, date) ==> ordinal((#[trigger] entries[i]).date)
                > ordinal(date),
        dates_descending(entries) ==> forall|i: int|
            insertion_point(entries, date) <= i < entries.len() ==> ordinal(
                (#[trigger] entries[i]).date,
            ) <= ordinal(date),
    decreases entries.len(),
{
    if entries.len() > 0 && ordinal(entries[0].date) > ordinal(date) {
        let rest = entries.drop_first();
        law_insertion_point_splits(rest, date);
        assert forall|i: int| 0 <= i < insertion_point(entries, date) implies ordinal(
            (#[trigger] entries[i]).date,
        ) > ordinal(date) by {
            if i > 0 {
                assert(rest[i - 1] == entries[i]);
            }
        }
        if dates_descending(entries) {
            assert(dates_descending(rest)) by {
                assert forall|i: int, j: int| 0 <= i <= j < rest.len() implies ordinal(
                    (#[trigger] rest[i]).date,
                ) >= ordinal((#[trigger] rest[j]).date) by {
                    assert(rest[i] == entries[i + 1]);
                    assert(rest[j] == entries[j + 1]);
                }
            }
            assert forall|i: int|
                insertion_point(entries, date) <= i < entries.len() implies ordinal(
                (#[trigger] entries[i]).date,
            ) <= ordinal(date) by {
                assert(rest[i - 1] == entries[i]);
            }
        }
    } else if dates_descending(entries) {
        assert forall|i: int| 0 <= i < entries.len() implies ordinal((#[trigger] entries[i]).date)
            <= ordinal(date) by {
            assert(ordinal(entries[0].date) >= ordinal(entries[i].date));
        }
    }
}

/// Entries that stand latest date first still do after an entry is put at
/// the insertion point of its date.
pub proof fn law_insertion_keeps_order(entries: Seq<JournalEntryView>, entry: JournalEntryView)
    requires
        dates_descending(entries),
    ensures
        dates_descending(entries.insert(insertion_point(entries, entry.date) as int, entry)),
{
    law_insertion_point_splits(entries, entry.date);
    let at = insertion_point(entries, entry.date) as int;
    let after = entries.insert(at, entry);
    assert forall|i: int, j: int| 0 <= i <= j < after.len() implies ordinal(
        (#[trigger] after[i]).date,
    ) >= ordinal((#[trigger] after[j]).date) by {
        if i < at {
            assert(after[i] == entries[i]);
        } else if i > at {
            assert(after[i] == entries[i - 1]);
        }
        if j < at {
            assert(after[j] == entries[j]);
        } else if j > at {
            assert(after[j] == entries[j - 1]);
        }
    }
}

/// A listing of the first `n` entries of a journal that stands latest date
/// first has at most `n` entries, is a prefix of the journal, and never
/// shows an entry before one of a later date.
pub proof fn law_recent_entries_descending(entries: Seq<JournalEntryView>, n: nat)
    requires
        dates_descending(entries),
    ensures
        first_entries(entries, n).len() <= n,
        first_entries(entries, n).is_prefix_of(entries),
        dates_descending(first_entries(entries, n)),
{
    let listed = first_entries(entries, n);
    assert forall|i: int, j: int| 0 <= i <= j < listed.len() implies ordinal(
        (#[trigger] listed[i]).date,
    ) >= ordinal((#[trigger] listed[j]).date) by {
        assert(listed[i] == entries[i]);
        assert(listed[j] == entries[j]);
    }
}

} // verus!
