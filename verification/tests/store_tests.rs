use block_submitter::store::{StatusStore, StoreRow};
use block_submitter::types::BlockStatus;

fn seeded(block_id: u64, status: BlockStatus, hash: &[u8]) -> StatusStore {
    let mut store = StatusStore::new();
    store.insert_row(StoreRow { block_id, status, l1_tx_hash: hash.to_vec() });
    store
}

#[test]
fn insert_then_get_returns_the_row() {
    let store = seeded(5, BlockStatus::Committed, b"");
    let row = store.get_row(5).expect("row 5 must exist");
    assert_eq!(row.block_id, 5);
    assert_eq!(row.status, BlockStatus::Committed);
    assert_eq!(row.l1_tx_hash, b"".to_vec());
}

#[test]
fn get_missing_row_is_none() {
    let store = seeded(5, BlockStatus::Committed, b"");
    assert!(store.get_row(6).is_none());
}

#[test]
fn update_row_sets_both_columns() {
    let mut store = seeded(5, BlockStatus::Committed, b"");
    let updated = store.update_row(5, BlockStatus::Verified, b"0xff".to_vec());
    assert!(updated);
    let row = store.get_row(5).unwrap();
    assert_eq!(row.status, BlockStatus::Verified);
    assert_eq!(row.l1_tx_hash, b"0xff".to_vec());
}

#[test]
fn update_of_missing_key_matches_no_row_and_never_inserts() {
    let mut store = seeded(5, BlockStatus::Committed, b"");
    let updated = store.update_row(9, BlockStatus::Verified, b"0xff".to_vec());
    assert!(!updated);
    assert!(store.get_row(9).is_none());
    let row = store.get_row(5).unwrap();
    assert_eq!(row.status, BlockStatus::Committed);
    assert_eq!(row.l1_tx_hash, b"".to_vec());
}

#[test]
fn update_status_keeps_the_hash_column() {
    let mut store = seeded(7, BlockStatus::Committed, b"0xaa");
    let updated = store.update_status(7, BlockStatus::Verified);
    assert!(updated);
    let row = store.get_row(7).unwrap();
    assert_eq!(row.status, BlockStatus::Verified);
    assert_eq!(row.l1_tx_hash, b"0xaa".to_vec());
}

#[test]
fn replaying_the_same_update_gives_the_same_row() {
    let mut store = seeded(42, BlockStatus::Committed, b"");
    store.update_row(42, BlockStatus::Verified, b"0xabcd".to_vec());
    let first_status = store.get_row(42).unwrap().status;
    let first_hash = store.get_row(42).unwrap().l1_tx_hash.clone();
    store.update_row(42, BlockStatus::Verified, b"0xabcd".to_vec());
    let row = store.get_row(42).unwrap();
    assert_eq!(row.status, first_status);
    assert_eq!(row.l1_tx_hash, first_hash);
}

#[test]
fn replaying_the_same_status_update_gives_the_same_row() {
    let mut store = seeded(42, BlockStatus::Committed, b"0xaa");
    store.update_status(42, BlockStatus::Verified);
    store.update_status(42, BlockStatus::Verified);
    let row = store.get_row(42).unwrap();
    assert_eq!(row.status, BlockStatus::Verified);
    assert_eq!(row.l1_tx_hash, b"0xaa".to_vec());
}

#[test]
fn rows_are_kept_apart_by_key() {
    let mut store = StatusStore::new();
    store.insert_row(StoreRow { block_id: 1, status: BlockStatus::Uncommitted, l1_tx_hash: vec![] });
    store.insert_row(StoreRow { block_id: 2, status: BlockStatus::Committed, l1_tx_hash: vec![] });
    store.update_row(2, BlockStatus::Verified, b"0x01".to_vec());
    assert_eq!(store.get_row(1).unwrap().status, BlockStatus::Uncommitted);
    assert_eq!(store.get_row(2).unwrap().status, BlockStatus::Verified);
}
