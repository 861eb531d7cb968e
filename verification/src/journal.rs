//! The journal store: dated entries, kept latest date first.

use vstd::prelude::*;
use crate::calendar::{ordinal, Date, DateView};
use crate::error::StorageError;
use crate::ident::uuid_new_v4;
use crate::model::{copy_text, entry_views, text_of, JournalEntry, JournalEntryView};

verus! {

/// Whether some entry carries the identifier.
pub open spec fn contains_entry_id(entries: Seq<JournalEntryView>, id: u128) -> bool {
    exists|i: int| 0 <= i < entries.len() && (#[trigger] entries[i]).id == id
}

/// Whether no identifier is carried by two entries.
pub open spec fn entry_ids_distinct(entries: Seq<JournalEntryView>) -> bool {
    forall|i: int, j: int|
        0 <= i < entries.len() && 0 <= j < entries.len() && i != j ==> (#[trigger] entries[i]).id
            != (#[trigger] entries[j]).id
}

/// Whether no entry stands before one of a later date.
pub open spec fn dates_descending(entries: Seq<JournalEntryView>) -> bool {
    forall|i: int, j: int|
        0 <= i <= j < entries.len() ==> ordinal((#[trigger] entries[i]).date) >= ordinal(
            (#[trigger] entries[j]).date,
        )
}

/// Where an entry of the date is put: before the first entry that is not of
/// a later date, so that among entries of one date the newest stands first.
pub open spec fn insertion_point(entries: Seq<JournalEntryView>, date: DateView) -> nat
    decreases entries.len(),
{
    if entries.len() == 0 || ordinal(entries[0].date) <= ordinal(date) {
        0
    } else {
        1 + insertion_point(entries.drop_first(), date)
    }
}

/// The first `n` entries; all of them where there are fewer than `n`.
pub open spec fn first_entries(entries: Seq<JournalEntryView>, n: nat) -> Seq<JournalEntryView> {
    if n <= entries.len() {
        entries.take(n as int)
    } else {
        entries
    }
}

/// The insertion point is the one position with only later dates before it
/// and no later date from it on.
pub proof fn lemma_insertion_point(entries: Seq<JournalEntryView>, date: DateView, at: int)
    requires
        0 <= at <= entries.len(),
        forall|i: int| 0 <= i < at ==> ordinal((#[trigger] entries[i]).date) > ordinal(date),
        at < entries.len() ==> ordinal(entries[at].date) <= ordinal(date),
    ensures
        insertion_point(entries, date) == at,
    decreases at,
{
    if at > 0 {
        let rest = entries.drop_first();
        assert forall|i: int| 0 <= i < at - 1 implies ordinal((#[trigger] rest[i]).date) > ordinal(
            date,
        ) by {
            assert(rest[i] == entries[i + 1]);
        }
        assert(ordinal(entries[0].date) > ordinal(date));
        lemma_insertion_point(rest, date, at - 1);
    }
}

/// Journal entries, latest date first.
pub struct JournalStore {
    rows: Vec<JournalEntry>,
}

impl View for JournalStore {
    type V = Seq<JournalEntryView>;

    closed spec fn view(&self) -> Seq<JournalEntryView> {
        entry_views(self.rows@)
    }
}

impl JournalStore {
    /// The store's invariant: identifiers are unique and the entries stand
    /// latest date first.
    pub open spec fn wf(&self) -> bool {
        &&& entry_ids_distinct(self@)
        &&& dates_descending(self@)
    }

    /// An empty store.
    pub fn new() -> (store: Self)
        ensures
            store.wf(),
            store@ == Seq::<JournalEntryView>::empty(),
    {
        let store = JournalStore { rows: Vec::new() };
        assert(store@ =~= Seq::<JournalEntryView>::empty());
        store
    }

    /// The number of entries.
    pub fn len(&self) -> (n: usize)
        ensures
            n == self@.len(),
    {
        self.rows.len()
    }

    /// Whether an entry carries the identifier.
    pub fn contains(&self, id: u128) -> (found: bool)
        ensures
            found == contains_entry_id(self@, id),
    {
        let mut i: usize = 0;
        while i < self.rows.len()
            invariant
                i <= self.rows.len(),
                forall|j: int| 0 <= j < i ==> (#[trigger] self@[j]).id != id,
            decreases self.rows.len() - i,
        {
            if self.rows[i].id == id {
                assert(self@[i as int].id == id);
                return true;
            }
            i += 1;
        }
        false
    }

    /// The position at which an entry of the date is put.
    fn slot(&self, date: &Date) -> (at: usize)
        requires
            self.wf(),
        ensures
            at == insertion_point(self@, date@),
            at <= self@.len(),
            forall|i: int| 0 <= i < at ==> ordinal((#[trigger] self@[i]).date) > ordinal(date@),
            forall|i: int|
                at <= i < self@.len() ==> ordinal((#[trigger] self@[i]).date) <= ordinal(date@),
    {
        let key: u32 = date.ordinal();
        let mut at: usize = 0;
        while at < self.rows.len() && self.rows[at].date.ordinal() > key
            invariant
                at <= self.rows.len(),
                self.rows.len() == self@.len(),
                key == ordinal(date@),
                forall|i: int| 0 <= i < at ==> ordinal((#[trigger] self@[i]).date) > key,
            decreases self.rows.len() - at,
        {
            at += 1;
        }
        proof {
            lemma_insertion_point(self@, date@, at as int);
        }
        at
    }

    /// Stores a new entry under the given identifier, which must be unused;
    /// the store is unchanged otherwise.
    pub fn insert(
        &mut self,
        id: u128,
        date: Date,
        entry_type: String,
        mood: Option<String>,
        content: String,
    ) -> (r: Result<JournalEntry, StorageError>)
        requires
            old(self).wf(),
        ensures
            final(self).wf(),
            contains_entry_id(old(self)@, id) ==> r matches Err(StorageError::DuplicateKey),
            !contains_entry_id(old(self)@, id) ==> r is Ok,
            r matches Ok(entry) ==> {
                &&& entry@ == (JournalEntryView {
                    id,
                    date: date@,
                    entry_type: entry_type@,
                    mood: text_of(mood),
                    content: content@,
                })
                &&& final(self)@ == old(self)@.insert(
                    insertion_point(old(self)@, date@) as int,
                    entry@,
                )
            },
            r is Err ==> final(self)@ == old(self)@,
    {
        if self.contains(id) {
            return Err(StorageError::DuplicateKey);
        }
        let at: usize = self.slot(&date);
        let stored = JournalEntry {
            id,
            date,
            entry_type: entry_type.clone(),
            mood: copy_text(&mood),
            content: content.clone(),
        };
        let entry = JournalEntry { id, date, entry_type, mood, content };
        self.rows.insert(at, stored);
        proof {
            assert(self@ =~= old(self)@.insert(at as int, entry@));
        }
        Ok(entry)
    }

    /// Creates an entry under a freshly drawn identifier. Fails, leaving the
    /// store unchanged, where the drawn identifier is in use; an empty store
    /// never fails.
    pub fn create(
        &mut self,
        date: Date,
        entry_type: String,
        mood: Option<String>,
        content: String,
    ) -> (r: Result<JournalEntry, StorageError>)
        requires
            old(self).wf(),
        ensures
            final(self).wf(),
            r matches Ok(entry) ==> {
                &&& entry@ == (JournalEntryView {
                    id: entry@.id,
                    date: date@,
                    entry_type: entry_type@,
                    mood: text_of(mood),
                    content: content@,
                })
                &&& !contains_entry_id(old(self)@, entry@.id)
                &&& final(self)@ == old(self)@.insert(
                    insertion_point(old(self)@, date@) as int,
                    entry@,
                )
            },
            r matches Err(e) ==> {
                &&& final(self)@ == old(self)@
                &&& old(self)@.len() > 0
                &&& e == StorageError::DuplicateKey
            },
    {
        let id: u128 = uuid_new_v4();
        self.insert(id, date, entry_type, mood, content)
    }

    /// Lists up to `n` entries, latest date first.
    pub fn recent(&self, n: usize) -> (list: Vec<JournalEntry>)
        requires
            self.wf(),
        ensures
            entry_views(list@) == first_entries(self@, n as nat),
            list@.len() == first_entries(self@, n as nat).len(),
            forall|i: int| 0 <= i < list@.len() ==> (#[trigger] list@[i])@ == self@[i],
            list@.len() <= n,
            dates_descending(entry_views(list@)),
    {
        let total: usize = self.rows.len();
        let count: usize = if n <= total {
            n
        } else {
            total
        };
        let mut list: Vec<JournalEntry> = Vec::new();
        let mut i: usize = 0;
        while i < count
            invariant
                total == self.rows.len(),
                total == self@.len(),
                count <= total,
                i <= count,
                list@.len() == i,
                forall|j: int| 0 <= j < i ==> (#[trigger] list@[j])@ == self@[j],
            decreases count - i,
        {
            list.push(self.rows[i].clone());
            i += 1;
        }
        proof {
            assert(entry_views(list@) =~= first_entries(self@, n as nat));
        }
        list
    }
}

} // verus!
