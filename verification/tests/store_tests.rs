//! Key-value store behavior: capacity accounting, idempotent delete, and
//! key listing.

use tcp_server::storage::{KeyValueStore, StoreError};

#[test]
fn capacity_scenario() {
    let mut store = KeyValueStore::new(10);

    assert_eq!(store.set("a", vec![0u8; 5]), Ok(()));
    assert_eq!(store.current_size(), 5);

    // 5 + 6 = 11 > 10: rejected, store untouched.
    assert_eq!(store.set("b", vec![0u8; 6]), Err(StoreError::CapacityExceeded));
    assert_eq!(store.current_size(), 5);
    assert_eq!(store.get("b"), None);

    // Shrinking "a" frees room.
    assert_eq!(store.set("a", vec![0u8; 3]), Ok(()));
    assert_eq!(store.current_size(), 3);

    // 3 + 6 = 9 <= 10: accepted now.
    assert_eq!(store.set("b", vec![0u8; 6]), Ok(()));
    assert_eq!(store.current_size(), 9);
    assert_eq!(store.entry_count(), 2);
}

#[test]
fn update_accounting_is_exact() {
    let mut store = KeyValueStore::new(100);
    store.set("k", vec![1u8; 8]).unwrap();
    assert_eq!(store.current_size(), 8);
    store.set("k", vec![2u8; 3]).unwrap();
    assert_eq!(store.current_size(), 3);
    assert_eq!(store.entry_count(), 1);
    assert_eq!(store.get("k"), Some(vec![2u8; 3]));
}

#[test]
fn shrinking_update_always_fits() {
    // A full store still accepts a smaller replacement value.
    let mut store = KeyValueStore::new(4);
    store.set("k", vec![9u8; 4]).unwrap();
    assert_eq!(store.set("k", vec![9u8; 4]), Ok(()));
    assert_eq!(store.set("k", vec![9u8; 2]), Ok(()));
    assert_eq!(store.current_size(), 2);
}

#[test]
fn delete_absent_key_is_a_noop() {
    let mut store = KeyValueStore::new(10);
    store.set("present", vec![7u8; 2]).unwrap();

    store.delete("absent");

    assert_eq!(store.current_size(), 2);
    assert_eq!(store.entry_count(), 1);
    assert_eq!(store.get("present"), Some(vec![7u8; 2]));
}

#[test]
fn delete_returns_bytes_to_the_budget() {
    let mut store = KeyValueStore::new(6);
    store.set("a", vec![0u8; 4]).unwrap();
    assert_eq!(store.set("b", vec![0u8; 4]), Err(StoreError::CapacityExceeded));
    store.delete("a");
    assert_eq!(store.current_size(), 0);
    assert_eq!(store.set("b", vec![0u8; 4]), Ok(()));
}

#[test]
fn get_copies_and_never_mutates() {
    let mut store = KeyValueStore::new(10);
    store.set("k", vec![1, 2, 3]).unwrap();
    let first = store.get("k");
    let second = store.get("k");
    assert_eq!(first, Some(vec![1, 2, 3]));
    assert_eq!(first, second);
    assert_eq!(store.current_size(), 3);
}

#[test]
fn list_keys_matches_preceding_mutations() {
    let mut store = KeyValueStore::new(100);
    store.set("one", vec![1]).unwrap();
    store.set("two", vec![2]).unwrap();
    store.set("three", vec![3]).unwrap();
    store.delete("two");
    store.set("four", vec![4]).unwrap();

    let mut keys = store.list_keys();
    keys.sort();
    assert_eq!(keys, vec!["four".to_string(), "one".to_string(), "three".to_string()]);
}

#[test]
fn list_keys_of_empty_store_is_empty() {
    let store = KeyValueStore::new(5);
    assert!(store.list_keys().is_empty());
    assert_eq!(store.entry_count(), 0);
    assert_eq!(store.current_size(), 0);
}

#[test]
fn zero_capacity_store_accepts_only_empty_values() {
    let mut store = KeyValueStore::new(0);
    assert_eq!(store.set("k", vec![1]), Err(StoreError::CapacityExceeded));
    assert_eq!(store.set("k", Vec::new()), Ok(()));
    assert_eq!(store.entry_count(), 1);
    assert_eq!(store.current_size(), 0);
}

#[test]
fn exact_fit_is_accepted() {
    let mut store = KeyValueStore::new(3);
    assert_eq!(store.set("k", vec![0u8; 3]), Ok(()));
    assert_eq!(store.current_size(), 3);
}
