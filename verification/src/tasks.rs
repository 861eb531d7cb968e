//! The task store: tasks in the order of their creation, found by identifier.

use vstd::prelude::*;
use crate::error::StorageError;
use crate::ident::uuid_new_v4;
use crate::model::{copy_text, task_views, text_of, TaskItem, TaskItemView};

verus! {

/// The most rows a store holds: the largest count that fits the signed
/// 64-bit integer in which counts are reported.
pub const MAX_ROWS: u64 = 0x7fff_ffff_ffff_ffff;

/// The predicate that tells the pending tasks from the done ones.
pub open spec fn pending() -> spec_fn(TaskItemView) -> bool {
    |task: TaskItemView| !task.is_done
}

/// The number of tasks that are not done.
pub open spec fn pending_count(tasks: Seq<TaskItemView>) -> nat {
    tasks.filter(pending()).len()
}

/// Whether some task carries the identifier.
pub open spec fn contains_id(tasks: Seq<TaskItemView>, id: u128) -> bool {
    exists|i: int| 0 <= i < tasks.len() && (#[trigger] tasks[i]).id == id
}

/// Whether no identifier is carried by two tasks.
pub open spec fn ids_distinct(tasks: Seq<TaskItemView>) -> bool {
    forall|i: int, j: int|
        0 <= i < tasks.len() && 0 <= j < tasks.len() && i != j ==> (#[trigger] tasks[i]).id != (
        #[trigger] tasks[j]).id
}

/// A task as it is at creation: not done.
pub open spec fn new_task(id: u128, title: Seq<char>, priority: Option<Seq<char>>) -> TaskItemView {
    TaskItemView { id, title, is_done: false, priority }
}

/// The task with its done flag inverted and nothing else changed.
pub open spec fn flipped(task: TaskItemView) -> TaskItemView {
    TaskItemView { is_done: !task.is_done, ..task }
}

/// The tasks after the done flag of every task with the identifier is
/// inverted.
pub open spec fn toggled(tasks: Seq<TaskItemView>, id: u128) -> Seq<TaskItemView> {
    Seq::new(
        tasks.len(),
        |i: int|
            if tasks[i].id == id {
                flipped(tasks[i])
            } else {
                tasks[i]
            },
    )
}

/// The number of tasks that a toggle of the identifier changes.
pub open spec fn rows_matching(tasks: Seq<TaskItemView>, id: u128) -> nat {
    if contains_id(tasks, id) {
        1
    } else {
        0
    }
}

/// The tasks ordered by creation time, newest first.
pub open spec fn newest_first(tasks: Seq<TaskItemView>) -> Seq<TaskItemView> {
    tasks.reverse()
}

/// The `n` most recently created tasks, newest first; all of them where
/// there are fewer than `n`.
pub open spec fn most_recent(tasks: Seq<TaskItemView>, n: nat) -> Seq<TaskItemView> {
    if n <= tasks.len() {
        newest_first(tasks).take(n as int)
    } else {
        newest_first(tasks)
    }
}

/// Tasks in the order of their creation: the position of a task is its
/// creation stamp, so a later task stands behind every earlier one.
pub struct TaskStore {
    rows: Vec<TaskItem>,
}

impl View for TaskStore {
    type V = Seq<TaskItemView>;

    closed spec fn view(&self) -> Seq<TaskItemView> {
        task_views(self.rows@)
    }
}

impl TaskStore {
    /// The store's invariant: identifiers are unique and the rows can be
    /// counted.
    pub open spec fn wf(&self) -> bool {
        &&& ids_distinct(self@)
        &&& self@.len() <= MAX_ROWS
    }

    /// An empty store.
    pub fn new() -> (store: Self)
        ensures
            store.wf(),
            store@ == Seq::<TaskItemView>::empty(),
    {
        let store = TaskStore { rows: Vec::new() };
        assert(store@ =~= Seq::<TaskItemView>::empty());
        store
    }

    /// The number of tasks.
    pub fn len(&self) -> (n: usize)
        ensures
            n == self@.len(),
    {
        self.rows.len()
    }

    /// The position of the task with the identifier, if there is one.
    fn position(&self, id: u128) -> (found: Option<usize>)
        ensures
            match found {
                Some(i) => i < self@.len() && self@[i as int].id == id,
                None => !contains_id(self@, id),
            },
    {
        let mut i: usize = 0;
        while i < self.rows.len()
            invariant
                i <= self.rows.len(),
                forall|j: int| 0 <= j < i ==> (#[trigger] self@[j]).id != id,
            decreases self.rows.len() - i,
        {
            if self.rows[i].id == id {
                return Some(i);
            }
            i += 1;
        }
        None
    }

    /// Whether a task carries the identifier.
    pub fn contains(&self, id: u128) -> (found: bool)
        ensures
            found == contains_id(self@, id),
    {
        self.position(id).is_some()
    }

    /// Stores a new task under the given identifier. The identifier must be
    /// unused and the store must have room; the store is unchanged otherwise.
    pub fn insert(&mut self, id: u128, title: String, priority: Option<String>) -> (r: Result<
        TaskItem,
        StorageError,
    >)
        requires
            old(self).wf(),
        ensures
            final(self).wf(),
            contains_id(old(self)@, id) ==> r matches Err(StorageError::DuplicateKey),
            !contains_id(old(self)@, id) && old(self)@.len() == MAX_ROWS ==> r matches Err(
                StorageError::CapacityExhausted,
            ),
            !contains_id(old(self)@, id) && old(self)@.len() < MAX_ROWS ==> r is Ok,
            r matches Ok(item) ==> {
                &&& item@ == new_task(id, title@, text_of(priority))
                &&& final(self)@ == old(self)@.push(item@)
            },
            r is Err ==> final(self)@ == old(self)@,
    {
        if self.position(id).is_some() {
            return Err(StorageError::DuplicateKey);
        }
        if self.rows.len() as u64 >= MAX_ROWS {
            return Err(StorageError::CapacityExhausted);
        }
        let stored = TaskItem {
            id,
            title: title.clone(),
            is_done: false,
            priority: copy_text(&priority),
        };
        let item = TaskItem { id, title, is_done: false, priority };
        self.rows.push(stored);
        proof {
            assert(self@ =~= old(self)@.push(item@));
        }
        Ok(item)
    }

    /// Creates a task under a freshly drawn identifier: not done, and newer
    /// than every task in the store. Fails, leaving the store unchanged,
    /// where the drawn identifier is in use or the store is full; an empty
    /// store never fails.
    pub fn create(&mut self, title: String, priority: Option<String>) -> (r: Result<
        TaskItem,
        StorageError,
    >)
        requires
            old(self).wf(),
        ensures
            final(self).wf(),
            r matches Ok(item) ==> {
                &&& item@ == new_task(item@.id, title@, text_of(priority))
                &&& !contains_id(old(self)@, item@.id)
                &&& old(self)@.len() < MAX_ROWS
                &&& final(self)@ == old(self)@.push(item@)
            },
            r matches Err(e) ==> {
                &&& final(self)@ == old(self)@
                &&& old(self)@.len() > 0
                &&& (e == StorageError::DuplicateKey || e == StorageError::CapacityExhausted)
                &&& (e == StorageError::CapacityExhausted ==> old(self)@.len() == MAX_ROWS)
            },
            old(self)@.len() == MAX_ROWS ==> r is Err,
    {
        let id: u128 = uuid_new_v4();
        self.insert(id, title, priority)
    }

    /// The creation stamp of the task with the identifier: its position in
    /// the order of creation, so that a task created later has a larger
    /// stamp and no toggle changes it.
    pub fn created_at(&self, id: u128) -> (stamp: Option<u64>)
        requires
            self.wf(),
        ensures
            match stamp {
                Some(at) => at < self@.len() && self@[at as int].id == id,
                None => !contains_id(self@, id),
            },
    {
        match self.position(id) {
            Some(at) => Some(at as u64),
            None => None,
        }
    }

    /// Inverts the done flag of the task with the identifier and says how
    /// many rows that changed: none where no task carries it.
    pub fn toggle(&mut self, id: u128) -> (affected: u64)
        requires
            old(self).wf(),
        ensures
            final(self).wf(),
            final(self)@ == toggled(old(self)@, id),
            affected == rows_matching(old(self)@, id),
    {
        match self.position(id) {
            Some(i) => {
                let done: bool = self.rows[i].is_done;
                self.rows[i].is_done = !done;
                proof {
                    assert(self@ =~= toggled(old(self)@, id));
                }
                1
            },
            None => {
                proof {
                    assert(self@ =~= toggled(old(self)@, id));
                }
                0
            },
        }
    }

    /// Counts the tasks that are not done.
    pub fn count_pending(&self) -> (count: i64)
        requires
            self.wf(),
        ensures
            count == pending_count(self@),
    {
        let mut count: i64 = 0;
        let mut i: usize = 0;
        while i < self.rows.len()
            invariant
                self.wf(),
                i <= self.rows.len(),
                self.rows.len() == self@.len(),
                count == pending_count(self@.take(i as int)),
                count <= i,
            decreases self.rows.len() - i,
        {
            proof {
                let seen = self@.take(i as int);
                assert(self@.take(i + 1) =~= seen.push(self@[i as int]));
                seen.lemma_filter_len_push(pending(), self@[i as int]);
            }
            if !self.rows[i].is_done {
                count += 1;
            }
            i += 1;
        }
        proof {
            assert(self@.take(i as int) =~= self@);
        }
        count
    }

    /// Lists up to `n` tasks, most recently created first.
    pub fn recent(&self, n: usize) -> (list: Vec<TaskItem>)
        ensures
            task_views(list@) == most_recent(self@, n as nat),
            list@.len() == most_recent(self@, n as nat).len(),
            forall|i: int|
                0 <= i < list@.len() ==> (#[trigger] list@[i])@ == self@[self@.len() - 1 - i],
            list@.len() <= n,
    {
        let total: usize = self.rows.len();
        let count: usize = if n <= total {
            n
        } else {
            total
        };
        let mut list: Vec<TaskItem> = Vec::new();
        let mut i: usize = 0;
        while i < count
            invariant
                total == self.rows.len(),
                total == self@.len(),
                count <= total,
                i <= count,
                list@.len() == i,
                forall|j: int| 0 <= j < i ==> (#[trigger] list@[j])@ == self@[total - 1 - j],
            decreases count - i,
        {
            list.push(self.rows[total - 1 - i].clone());
            i += 1;
        }
        proof {
            assert(task_views(list@) =~= most_recent(self@, n as nat));
        }
        list
    }
}

} // verus!
