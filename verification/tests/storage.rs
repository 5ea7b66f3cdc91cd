use std::sync::Arc;
use url_shortener::{InMemoryStorage, Storage, StorageError};

#[test]
fn new_storage_is_empty() {
    let storage = InMemoryStorage::new();
    assert!(matches!(storage.lookup("abc"), Err(StorageError::NotFound)));
}

#[test]
fn storage_store_then_lookup() {
    let storage = InMemoryStorage::new();
    assert!(matches!(storage.store("abc", "https://example.com", "alice"), Ok(())));
    assert_eq!(storage.lookup("abc").unwrap(), "https://example.com");
}

#[test]
fn storage_rejects_a_second_store() {
    let storage = InMemoryStorage::new();
    storage.store("abc", "https://example.com", "alice").unwrap();
    assert!(matches!(
        storage.store("abc", "https://other.example", "bob"),
        Err(StorageError::AlreadyExists)
    ));
    assert_eq!(storage.lookup("abc").unwrap(), "https://example.com");
}

#[test]
fn storage_lookup_of_unknown_identifier() {
    let storage = InMemoryStorage::new();
    storage.store("abc", "https://example.com", "alice").unwrap();
    assert!(matches!(storage.lookup("doesnotexist"), Err(StorageError::NotFound)));
}

#[test]
fn storage_lookups_do_not_change_it() {
    let storage = InMemoryStorage::new();
    storage.store("abc", "https://example.com", "alice").unwrap();
    let first = storage.lookup("abc").unwrap();
    let second = storage.lookup("abc").unwrap();
    let third = storage.lookup("abc").unwrap();
    assert_eq!(first, "https://example.com");
    assert_eq!(second, first);
    assert_eq!(third, first);
}

#[test]
fn storage_is_shared_through_its_handles() {
    let storage = Arc::new(InMemoryStorage::new());
    let writer = Arc::clone(&storage);
    let reader = Arc::clone(&storage);
    writer.store("abc", "https://example.com", "alice").unwrap();
    assert_eq!(reader.lookup("abc").unwrap(), "https://example.com");
    assert!(matches!(
        reader.store("abc", "https://other.example", "bob"),
        Err(StorageError::AlreadyExists)
    ));
}

#[test]
fn many_stores_under_one_identifier_give_one_success() {
    let storage = InMemoryStorage::new();
    let mut winners: Vec<String> = Vec::new();
    let mut conflicts = 0;
    for n in 0..8 {
        let url = format!("https://example.com/{}", n);
        match storage.store("same", &url, "someone") {
            Ok(()) => winners.push(url),
            Err(StorageError::AlreadyExists) => conflicts += 1,
            Err(other) => panic!("unexpected error: {:?}", other),
        }
    }
    assert_eq!(winners.len(), 1);
    assert_eq!(conflicts, 7);
    assert_eq!(storage.lookup("same").unwrap(), winners[0]);
}

#[test]
fn storage_works_as_a_trait_object() {
    let storage: Box<dyn Storage> = Box::new(InMemoryStorage::new());
    storage.store("abc", "https://example.com", "alice").unwrap();
    assert_eq!(storage.lookup("abc").unwrap(), "https://example.com");
}
