use u64key_migrate::contract::{execute, instantiate, migrate, query};
use u64key_migrate::msg::{ExecuteMsg, InstantiateMsg, MessageInfo, MigrateMsg, QueryMsg, QueryResponse};
use u64key_migrate::state::new_storage;

fn info(sender: &str) -> MessageInfo {
    MessageInfo { sender: sender.to_string() }
}

fn get_count(store: &cosmwasm_std::MemoryStorage, slot: u64) -> u128 {
    match query(store, QueryMsg::GetCount { slot }).unwrap() {
        QueryResponse::Count(c) => c.count,
        other => panic!("unexpected query response: {:?}", other),
    }
}

#[test]
fn proper_initialization() {
    let mut store = new_storage();

    let msg = InstantiateMsg { count: 17 };
    let res = instantiate(&mut store, &info("creator"), msg).unwrap();
    assert_eq!(3, res.attributes.len());
    assert_eq!("method", res.attributes[0].key);
    assert_eq!("instantiate", res.attributes[0].value);
    assert_eq!("owner", res.attributes[1].key);
    assert_eq!("creator", res.attributes[1].value);
    assert_eq!("count", res.attributes[2].key);
    assert_eq!("17", res.attributes[2].value);

    // it worked, let's query the state
    assert_eq!(17, get_count(&store, 0));
}

#[test]
fn increment() {
    let mut store = new_storage();

    let msg = InstantiateMsg { count: 17 };
    let _res = instantiate(&mut store, &info("creator"), msg).unwrap();

    // anyone can increment the counter
    let msg = ExecuteMsg::Increment { slot: 0 };
    let res = execute(&mut store, &info("anyone"), msg).unwrap();
    assert_eq!(1, res.attributes.len());
    assert_eq!("method", res.attributes[0].key);
    assert_eq!("try_increment", res.attributes[0].value);

    // should increase counter by 1
    assert_eq!(18, get_count(&store, 0));
}

#[test]
fn migrate_test() {
    let mut store = new_storage();

    // Init the contract
    instantiate(&mut store, &info("contract"), InstantiateMsg { count: 10 }).unwrap();

    // Query before migration
    let pre_res = get_count(&store, 0);
    assert_eq!(10, pre_res);

    // Migrate
    let res = migrate(&mut store, MigrateMsg {}).unwrap();
    assert_eq!(4, res.attributes.len());
    assert_eq!("previous_contract_name", res.attributes[0].key);
    assert_eq!("u64key-migrate", res.attributes[0].value);
    assert_eq!("previous_contract_version", res.attributes[1].key);
    assert_eq!("0.1.0", res.attributes[1].value);
    assert_eq!("new_contract_name", res.attributes[2].key);
    assert_eq!("u64key-migrate", res.attributes[2].value);
    assert_eq!("new_contract_version", res.attributes[3].key);
    assert_eq!("0.1.0", res.attributes[3].value);

    // Hello after migration
    let hello = match query(&store, QueryMsg::Hello {}).unwrap() {
        QueryResponse::Hello(h) => h.prompt,
        other => panic!("unexpected query response: {:?}", other),
    };
    assert_eq!(hello, "hello world");

    // Query after migration: the data survived
    let after_res = get_count(&store, 0);
    assert_eq!(pre_res, after_res);

    // Increment still works on the migrated data
    execute(&mut store, &info("contract"), ExecuteMsg::Increment { slot: 0 }).unwrap();
    assert_eq!(pre_res + 1, get_count(&store, 0));
}
