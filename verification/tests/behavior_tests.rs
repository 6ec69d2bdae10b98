use cosmwasm_std::Storage;
use u64key_migrate::contract::{instantiate, migrate, query_count, try_increment};
use u64key_migrate::error::ContractError;
use u64key_migrate::msg::{InstantiateMsg, MessageInfo, MigrateMsg};
use u64key_migrate::state::new_storage;

fn info(sender: &str) -> MessageInfo {
    MessageInfo { sender: sender.to_string() }
}

#[test]
fn round_trip_small_and_zero() {
    for v in [0u128, 1, 42, 1000] {
        let mut store = new_storage();
        instantiate(&mut store, &info("creator"), InstantiateMsg { count: v }).unwrap();
        assert_eq!(v, query_count(&store, 0).unwrap().count);
    }
}

#[test]
fn round_trip_largest_count() {
    let mut store = new_storage();
    let res = instantiate(&mut store, &info("creator"), InstantiateMsg { count: u128::MAX })
        .unwrap();
    // the count attribute carries the full decimal rendering
    assert_eq!("count", res.attributes[2].key);
    assert_eq!("340282366920938463463374607431768211455", res.attributes[2].value);
    assert_eq!(u128::MAX, query_count(&store, 0).unwrap().count);
}

#[test]
fn repeated_increments_add_up() {
    let mut store = new_storage();
    instantiate(&mut store, &info("creator"), InstantiateMsg { count: 5 }).unwrap();
    for _ in 0..3 {
        try_increment(&mut store, 0).unwrap();
    }
    assert_eq!(8, query_count(&store, 0).unwrap().count);
}

#[test]
fn missing_slot_fails_get() {
    let mut store = new_storage();
    instantiate(&mut store, &info("creator"), InstantiateMsg { count: 1 }).unwrap();
    assert_eq!(Err(ContractError::SlotNotFound), query_count(&store, 7).map(|c| c.count));
}

#[test]
fn missing_slot_fails_increment() {
    let mut store = new_storage();
    instantiate(&mut store, &info("creator"), InstantiateMsg { count: 1 }).unwrap();
    let err = try_increment(&mut store, 7).unwrap_err();
    assert_eq!(ContractError::SlotNotFound, err);
    // and nothing changed at slot 0
    assert_eq!(1, query_count(&store, 0).unwrap().count);
}

#[test]
fn increment_at_top_of_range_overflows() {
    let mut store = new_storage();
    instantiate(&mut store, &info("creator"), InstantiateMsg { count: u128::MAX }).unwrap();
    let err = try_increment(&mut store, 0).unwrap_err();
    assert_eq!(ContractError::Overflow, err);
    // the stored value is untouched
    assert_eq!(u128::MAX, query_count(&store, 0).unwrap().count);
}

#[test]
fn second_initialization_refused() {
    let mut store = new_storage();
    instantiate(&mut store, &info("creator"), InstantiateMsg { count: 3 }).unwrap();
    let err = instantiate(&mut store, &info("creator"), InstantiateMsg { count: 9 }).unwrap_err();
    assert_eq!(ContractError::AlreadyInitialized, err);
    // the first value is untouched
    assert_eq!(3, query_count(&store, 0).unwrap().count);
}

#[test]
fn migrate_without_marker_refused() {
    let mut store = new_storage();
    let err = migrate(&mut store, MigrateMsg {}).unwrap_err();
    assert_eq!(ContractError::NoVersionRecorded, err);
}

#[test]
fn migrate_preserves_every_written_slot() {
    let mut store = new_storage();
    instantiate(&mut store, &info("creator"), InstantiateMsg { count: 10 }).unwrap();
    migrate(&mut store, MigrateMsg {}).unwrap();
    assert_eq!(10, query_count(&store, 0).unwrap().count);
    // a second migration is fine too: the marker is simply rewritten
    migrate(&mut store, MigrateMsg {}).unwrap();
    assert_eq!(10, query_count(&store, 0).unwrap().count);
}

#[test]
fn undecodable_entry_reports_storage_failure() {
    let mut store = new_storage();
    instantiate(&mut store, &info("creator"), InstantiateMsg { count: 1 }).unwrap();
    // plant bytes that are no Uint128 encoding under the counter key of slot 5:
    // two length bytes, the namespace, then the big-endian slot
    let mut key: Vec<u8> = vec![0u8, 12u8];
    key.extend_from_slice(b"test_storage");
    key.extend_from_slice(&5u64.to_be_bytes());
    store.set(&key, b"not a number");
    assert_eq!(Err(ContractError::StorageFailure), query_count(&store, 5).map(|c| c.count));
    // a well-formed slot is still served
    assert_eq!(1, query_count(&store, 0).unwrap().count);
}
