use url_shortener::{RedirectTable, StorageError};

#[test]
fn new_table_knows_no_identifier() {
    let table = RedirectTable::new();
    assert!(matches!(table.lookup("abc"), Err(StorageError::NotFound)));
    assert!(matches!(table.lookup(""), Err(StorageError::NotFound)));
}

#[test]
fn store_then_lookup_returns_the_url() {
    let mut table = RedirectTable::new();
    assert!(matches!(table.store("abc", "https://example.com", "alice"), Ok(())));
    assert_eq!(table.lookup("abc").unwrap(), "https://example.com");
}

#[test]
fn second_store_is_rejected_and_changes_nothing() {
    let mut table = RedirectTable::new();
    table.store("abc", "https://example.com", "alice").unwrap();
    let second = table.store("abc", "https://other.example", "bob");
    assert!(matches!(second, Err(StorageError::AlreadyExists)));
    assert_eq!(table.lookup("abc").unwrap(), "https://example.com");
}

#[test]
fn second_store_with_the_same_values_is_rejected_too() {
    let mut table = RedirectTable::new();
    table.store("abc", "https://example.com", "alice").unwrap();
    let second = table.store("abc", "https://example.com", "alice");
    assert!(matches!(second, Err(StorageError::AlreadyExists)));
}

#[test]
fn lookup_of_an_identifier_never_stored_is_not_found() {
    let mut table = RedirectTable::new();
    table.store("abc", "https://example.com", "alice").unwrap();
    table.store("abd", "https://example.org", "bob").unwrap();
    assert!(matches!(table.lookup("ab"), Err(StorageError::NotFound)));
    assert!(matches!(table.lookup("abcd"), Err(StorageError::NotFound)));
    assert!(matches!(table.lookup("ABC"), Err(StorageError::NotFound)));
    assert!(matches!(table.lookup("doesnotexist"), Err(StorageError::NotFound)));
}

#[test]
fn lookup_matches_the_whole_identifier_only() {
    let mut table = RedirectTable::new();
    table.store("docs", "https://docs.example", "alice").unwrap();
    table.store("doc", "https://doc.example", "alice").unwrap();
    assert_eq!(table.lookup("doc").unwrap(), "https://doc.example");
    assert_eq!(table.lookup("docs").unwrap(), "https://docs.example");
    assert!(matches!(table.lookup("do"), Err(StorageError::NotFound)));
}

#[test]
fn repeated_lookups_return_the_same_url() {
    let mut table = RedirectTable::new();
    table.store("abc", "https://example.com", "alice").unwrap();
    for _ in 0..5 {
        assert_eq!(table.lookup("abc").unwrap(), "https://example.com");
    }
    assert!(matches!(
        table.store("abc", "https://late.example", "carol"),
        Err(StorageError::AlreadyExists)
    ));
    assert_eq!(table.lookup("abc").unwrap(), "https://example.com");
}

#[test]
fn of_many_stores_under_one_identifier_the_first_wins() {
    let mut table = RedirectTable::new();
    let urls = vec!["https://a.example", "https://b.example", "https://c.example", "https://d.example"];
    let mut successes = 0;
    let mut conflicts = 0;
    for url in &urls {
        match table.store("same", url, "someone") {
            Ok(()) => successes += 1,
            Err(StorageError::AlreadyExists) => conflicts += 1,
            Err(other) => panic!("unexpected error: {:?}", other),
        }
    }
    assert_eq!(successes, 1);
    assert_eq!(conflicts, 3);
    assert_eq!(table.lookup("same").unwrap(), "https://a.example");
}

#[test]
fn values_are_stored_verbatim() {
    let mut table = RedirectTable::new();
    table.store("", "", "").unwrap();
    assert_eq!(table.lookup("").unwrap(), "");
    table.store("weird", "not a url at all", "").unwrap();
    assert_eq!(table.lookup("weird").unwrap(), "not a url at all");
    table.store("ünï", "https://example.com/päth?q=1", "ö").unwrap();
    assert_eq!(table.lookup("ünï").unwrap(), "https://example.com/päth?q=1");
}

#[test]
fn owner_plays_no_part_in_uniqueness() {
    let mut table = RedirectTable::new();
    table.store("one", "https://example.com", "alice").unwrap();
    table.store("two", "https://example.com", "alice").unwrap();
    assert!(matches!(
        table.store("one", "https://example.com", "bob"),
        Err(StorageError::AlreadyExists)
    ));
    assert_eq!(table.lookup("two").unwrap(), "https://example.com");
}
