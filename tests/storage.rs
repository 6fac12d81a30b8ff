use era_test_node::primitives::{words_to_bytes, Address, StorageKey, H256};
use era_test_node::storage::{ForkStorage, StorageView};

fn key(slot: u64) -> StorageKey {
    StorageKey { account: Address { hi: 1, mid: 2, lo: 3 }, key: H256::from_u64(slot) }
}

#[test]
fn view_reads_writes_then_committed_then_fetched() {
    let mut committed = ForkStorage::new();
    committed.set_value(key(1), H256::from_u64(10));
    let mut view = StorageView::new();

    assert_eq!(view.read_value(&committed, &key(1)), Some(H256::from_u64(10)));
    assert_eq!(view.read_value(&committed, &key(2)), None);

    view.record_fetched(key(2), H256::from_u64(20));
    view.record_fetched(key(1), H256::from_u64(99));
    assert_eq!(view.read_value(&committed, &key(2)), Some(H256::from_u64(20)));
    assert_eq!(view.read_value(&committed, &key(1)), Some(H256::from_u64(10)));

    view.set_value(key(1), H256::from_u64(11));
    assert_eq!(view.read_value(&committed, &key(1)), Some(H256::from_u64(11)));
    assert_eq!(committed.read_value(&key(1)), Some(H256::from_u64(10)));
    assert_eq!(view.modified_value(&key(2)), None);
}

#[test]
fn applying_writes_keeps_the_last_one() {
    let mut committed = ForkStorage::new();
    committed.set_value(key(3), H256::from_u64(1));
    let mut view = StorageView::new();
    view.set_value(key(1), H256::from_u64(5));
    view.set_value(key(1), H256::from_u64(7));
    view.record_fetched(key(4), H256::from_u64(8));
    committed.apply_writes(&view);
    assert_eq!(committed.read_value(&key(1)), Some(H256::from_u64(7)));
    assert_eq!(committed.read_value(&key(3)), Some(H256::from_u64(1)));
    assert_eq!(committed.read_value(&key(4)), None);
}

#[test]
fn words_serialize_big_endian() {
    let words = vec![H256::from_u64(0x0102), H256::repeat_byte(0xee)];
    let bytes = words_to_bytes(&words);
    assert_eq!(bytes.len(), 64);
    assert_eq!(bytes[30], 0x01);
    assert_eq!(bytes[31], 0x02);
    assert!(bytes[..30].iter().all(|b| *b == 0));
    assert!(bytes[32..].iter().all(|b| *b == 0xee));
    assert!(words_to_bytes(&Vec::new()).is_empty());
}

#[test]
fn repeat_byte_fills_every_byte() {
    let w = H256::repeat_byte(0x01);
    assert_eq!(w.c0, 0x0101010101010101);
    assert_eq!(w.c3, 0x0101010101010101);
}

#[test]
fn code_objects_are_stored_by_hash() {
    let mut committed = ForkStorage::new();
    let hash = H256::from_u64(42);
    assert_eq!(committed.load_factory_dep(&hash), None);
    committed.store_code_objects(&vec![(hash, vec![H256::from_u64(1)]), (hash, vec![H256::from_u64(1)])]);
    let mut expected = vec![0u8; 31];
    expected.push(1);
    assert_eq!(committed.load_factory_dep(&hash), Some(expected));
}
