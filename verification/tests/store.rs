use slaughterhouse::ids::IdAllocator;
use slaughterhouse::records::animal::Animal;
use slaughterhouse::store::{RecordTooLarge, Store};

fn tagged(id: u64, tag: &str) -> Animal {
    Animal {
        id,
        slaughterhouse_id: 0,
        tag_number: tag.to_string(),
        species: "goat".to_string(),
        weight: 40_000,
        arrival_time: 1,
        status: "received".to_string(),
    }
}

#[test]
fn new_store_is_empty() {
    let store = Store::<Animal>::open(1).unwrap();
    assert_eq!(store.len(), 0);
    assert!(store.is_empty());
    assert!(!store.contains(0));
    assert_eq!(store.get(0), None);
    assert!(store.scan().is_empty());
    assert!(store.records().is_empty());
}

#[test]
fn there_is_no_partition_255() {
    assert!(Store::<Animal>::open(255).is_none());
    assert!(IdAllocator::open(255).is_none());
    assert!(Store::<Animal>::open(254).is_some());
}

#[test]
fn insert_then_get() {
    let mut store = Store::<Animal>::open(1).unwrap();
    assert_eq!(store.insert(5, &tagged(5, "a")), Ok(None));
    assert_eq!(store.len(), 1);
    assert!(!store.is_empty());
    assert!(store.contains(5));
    assert!(!store.contains(4));
    assert_eq!(store.get(5), Some(tagged(5, "a")));
    assert_eq!(store.get(6), None);
}

#[test]
fn insert_replaces_and_returns_the_previous_record() {
    let mut store = Store::<Animal>::open(1).unwrap();
    assert_eq!(store.insert(5, &tagged(5, "a")), Ok(None));
    assert_eq!(store.insert(6, &tagged(6, "b")), Ok(None));
    assert_eq!(store.insert(5, &tagged(5, "c")), Ok(Some(tagged(5, "a"))));
    assert_eq!(store.len(), 2);
    assert_eq!(store.get(5), Some(tagged(5, "c")));
    assert_eq!(store.get(6), Some(tagged(6, "b")));
}

#[test]
fn scan_is_by_ascending_identifier_whatever_the_order_of_insertion() {
    let mut store = Store::<Animal>::open(1).unwrap();
    for id in [30u64, 10, 20, 0, u64::MAX, 15] {
        assert_eq!(store.insert(id, &tagged(id, "t")), Ok(None));
    }
    let rows = store.scan();
    let ids: Vec<u64> = rows.iter().map(|row| row.0).collect();
    assert_eq!(ids, vec![0, 10, 15, 20, 30, u64::MAX]);
    for (id, rec) in &rows {
        assert_eq!(rec.id, *id);
    }
    let records = store.records();
    let ids: Vec<u64> = records.iter().map(|rec| rec.id).collect();
    assert_eq!(ids, vec![0, 10, 15, 20, 30, u64::MAX]);
    assert_eq!(store.len(), 6);
}

#[test]
fn many_rows_are_kept_and_found_again() {
    let mut store = Store::<Animal>::open(1).unwrap();
    for id in 0..300u64 {
        assert_eq!(store.insert(id * 7 % 300, &tagged(id * 7 % 300, "t")), Ok(None));
    }
    assert_eq!(store.len(), 300);
    let ids: Vec<u64> = store.scan().iter().map(|row| row.0).collect();
    assert_eq!(ids, (0..300u64).collect::<Vec<u64>>());
    assert_eq!(store.get(299), Some(tagged(299, "t")));
}

#[test]
fn record_over_the_bound_is_not_kept() {
    let mut store = Store::<Animal>::open(1).unwrap();
    assert_eq!(store.insert(1, &tagged(1, "a")), Ok(None));
    let big = tagged(1, &"x".repeat(600));
    assert_eq!(store.insert(1, &big), Err(RecordTooLarge));
    assert_eq!(store.insert(2, &big), Err(RecordTooLarge));
    assert_eq!(store.len(), 1);
    assert_eq!(store.get(1), Some(tagged(1, "a")));
}

#[test]
fn stores_are_independent() {
    let mut a = Store::<Animal>::open(1).unwrap();
    let b = Store::<Animal>::open(1).unwrap();
    assert_eq!(a.insert(1, &tagged(1, "a")), Ok(None));
    assert_eq!(a.len(), 1);
    assert_eq!(b.len(), 0);
}

#[test]
fn allocator_issues_0_then_1_then_2() {
    let mut ids = IdAllocator::open(0).unwrap();
    assert_eq!(ids.peek(), 0);
    assert_eq!(ids.next(), Some(0));
    assert_eq!(ids.peek(), 1);
    assert_eq!(ids.next(), Some(1));
    assert_eq!(ids.next(), Some(2));
    assert_eq!(ids.peek(), 3);
}

#[test]
fn identifier_is_issued_only_where_the_counter_was_written() {
    assert_eq!(IdAllocator::issued(0, true), Some(0));
    assert_eq!(IdAllocator::issued(41, true), Some(41));
    assert_eq!(IdAllocator::issued(u64::MAX - 1, true), Some(u64::MAX - 1));
    assert_eq!(IdAllocator::issued(0, false), None);
    assert_eq!(IdAllocator::issued(41, false), None);
}

#[test]
fn allocators_are_independent() {
    let mut one = IdAllocator::open(3).unwrap();
    let two = IdAllocator::open(3).unwrap();
    assert_eq!(one.next(), Some(0));
    assert_eq!(one.peek(), 1);
    assert_eq!(two.peek(), 0);
}
