use book_store::{Book, Store};

fn book(id: u128, title: &str, author: &str) -> Book {
    Book { id, title: title.to_string(), author: author.to_string() }
}

#[test]
fn empty_store_lists_nothing() {
    let store = Store::new();
    assert_eq!(store.list(), vec![]);
}

#[test]
fn create_then_get_returns_created_record() {
    let mut store = Store::new();
    let b = book(7, "The Title", "The Author");
    store.insert(b.clone());
    assert_eq!(store.get(7), Some(b));
}

#[test]
fn get_absent_id_signals_not_found() {
    let mut store = Store::new();
    store.insert(book(1, "A", "B"));
    assert_eq!(store.get(2), None);
    assert_eq!(store.list(), vec![book(1, "A", "B")]);
}

#[test]
fn replace_absent_id_signals_not_found_and_changes_nothing() {
    let mut store = Store::new();
    store.insert(book(1, "A", "B"));
    assert!(!store.replace(2, book(2, "X", "Y")));
    assert_eq!(store.list(), vec![book(1, "A", "B")]);
}

#[test]
fn delete_absent_id_signals_not_found_and_changes_nothing() {
    let mut store = Store::new();
    store.insert(book(1, "A", "B"));
    assert!(!store.delete(2));
    assert_eq!(store.list(), vec![book(1, "A", "B")]);
}

#[test]
fn second_delete_signals_not_found() {
    let mut store = Store::new();
    store.insert(book(1, "A", "B"));
    assert!(store.delete(1));
    assert!(!store.delete(1));
    assert_eq!(store.list(), vec![]);
}

#[test]
fn list_after_creates_returns_each_payload() {
    let mut store = Store::new();
    let books = vec![book(1, "A", "a"), book(2, "B", "b"), book(3, "C", "c")];
    for b in &books {
        store.insert(b.clone());
    }
    assert_eq!(store.list(), books);
    for b in &books {
        assert_eq!(store.get(b.id), Some(b.clone()));
    }
}

#[test]
fn replace_fully_overwrites() {
    let mut store = Store::new();
    store.insert(book(5, "T1", "A1"));
    assert!(store.replace(5, book(5, "T2", "A2")));
    assert_eq!(store.get(5), Some(book(5, "T2", "A2")));
    assert_eq!(store.list(), vec![book(5, "T2", "A2")]);
}

#[test]
fn replace_may_change_the_stored_id() {
    let mut store = Store::new();
    store.insert(book(1, "T", "A"));
    assert!(store.replace(1, book(2, "T", "A")));
    assert_eq!(store.get(1), None);
    assert_eq!(store.get(2), Some(book(2, "T", "A")));
}

#[test]
fn duplicate_ids_coexist_and_get_answers_the_first() {
    let mut store = Store::new();
    store.insert(book(1, "First", "F"));
    store.insert(book(1, "Second", "S"));
    assert_eq!(store.list().len(), 2);
    assert_eq!(store.get(1), Some(book(1, "First", "F")));
    assert!(store.delete(1));
    assert_eq!(store.list(), vec![]);
}

#[test]
fn delete_keeps_the_other_records_in_order() {
    let mut store = Store::new();
    store.insert(book(1, "A", "a"));
    store.insert(book(2, "B", "b"));
    store.insert(book(3, "C", "c"));
    assert!(store.delete(2));
    assert_eq!(store.list(), vec![book(1, "A", "a"), book(3, "C", "c")]);
}
