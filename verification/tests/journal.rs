use backend::calendar::Date;
use backend::error::StorageError;
use backend::journal::JournalStore;
use backend::model::JournalEntry;

fn text(value: &str) -> String {
    value.to_string()
}

fn date(written: &str) -> Date {
    Date::parse(written).expect("a date")
}

fn note(store: &mut JournalStore, id: u128, written: &str) -> JournalEntry {
    store
        .insert(id, date(written), text("note"), None, format!("entry {}", id))
        .expect("an unused identifier")
}

fn ids(list: &[JournalEntry]) -> Vec<u128> {
    list.iter().map(|entry| entry.id).collect()
}

#[test]
fn new_journal_is_empty() {
    let store = JournalStore::new();
    assert_eq!(store.len(), 0);
    assert!(store.recent(10).is_empty());
    assert!(!store.contains(1));
}

#[test]
fn create_returns_the_stored_entry() {
    let mut store = JournalStore::new();
    let entry = store
        .create(date("2024-01-01"), text("note"), None, text("hello"))
        .expect("a created entry");
    assert_eq!(entry.date, date("2024-01-01"));
    assert_eq!(entry.entry_type, "note");
    assert_eq!(entry.mood, None);
    assert_eq!(entry.content, "hello");
    assert!(store.contains(entry.id));
    assert_eq!(store.recent(10), vec![entry]);
}

#[test]
fn create_keeps_the_mood() {
    let mut store = JournalStore::new();
    let entry = store
        .create(date("2024-03-05"), text("diary"), Some(text("calm")), text("a quiet day"))
        .expect("a created entry");
    assert_eq!(entry.mood, Some(text("calm")));
    assert_eq!(store.recent(1)[0].mood, Some(text("calm")));
}

#[test]
fn journal_insert_refuses_an_identifier_in_use() {
    let mut store = JournalStore::new();
    let first = note(&mut store, 1, "2024-01-01");
    assert_eq!(
        store.insert(1, date("2025-01-01"), text("note"), None, text("again")),
        Err(StorageError::DuplicateKey)
    );
    assert_eq!(store.len(), 1);
    assert_eq!(store.recent(10), vec![first]);
}

#[test]
fn recent_lists_the_latest_date_first() {
    let mut store = JournalStore::new();
    note(&mut store, 1, "2024-01-15");
    note(&mut store, 2, "2023-12-31");
    note(&mut store, 3, "2024-02-01");
    note(&mut store, 4, "2024-01-16");
    note(&mut store, 5, "2022-06-30");
    assert_eq!(ids(&store.recent(10)), vec![3, 4, 1, 2, 5]);
    assert_eq!(ids(&store.recent(2)), vec![3, 4]);
    assert!(store.recent(0).is_empty());
}

#[test]
fn recent_never_lists_a_date_before_a_later_one() {
    let mut store = JournalStore::new();
    let written = [
        "2024-05-05", "2021-01-01", "2024-05-04", "2024-05-05", "2030-12-31", "2021-01-01",
        "1999-09-09", "2024-05-06",
    ];
    for (at, day) in written.iter().enumerate() {
        note(&mut store, at as u128, day);
    }
    let listed = store.recent(10);
    assert_eq!(listed.len(), written.len());
    for pair in listed.windows(2) {
        assert!(pair[0].date.ordinal() >= pair[1].date.ordinal());
    }
}

#[test]
fn entries_of_one_date_are_listed_newest_first() {
    let mut store = JournalStore::new();
    note(&mut store, 1, "2024-01-01");
    note(&mut store, 2, "2024-01-01");
    note(&mut store, 3, "2024-01-02");
    note(&mut store, 4, "2024-01-01");
    assert_eq!(ids(&store.recent(10)), vec![3, 4, 2, 1]);
}

#[test]
fn recent_lists_at_most_as_many_as_asked() {
    let mut store = JournalStore::new();
    for day in 1..=12u8 {
        let written = Date::new(2024, 3, day).expect("a date").to_text();
        note(&mut store, day as u128, &written);
    }
    let listed = store.recent(10);
    assert_eq!(listed.len(), 10);
    assert_eq!(ids(&listed), vec![12, 11, 10, 9, 8, 7, 6, 5, 4, 3]);
    assert_eq!(store.recent(12).len(), 12);
    assert_eq!(store.recent(usize::MAX).len(), 12);
}
