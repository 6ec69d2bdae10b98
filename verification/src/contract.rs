//! The contract's entry points: instantiate, execute, query and migrate.
//!
//! Every entry point is a read-modify-write over the persisted state of
//! [`crate::state`]: it either fully succeeds, or returns a
//! [`ContractError`] and leaves the storage exactly as it was.

use vstd::prelude::*;
use vstd::string::StringExecFns;

use crate::decimal::{spec_decimal, u128_to_decimal};
use crate::error::ContractError;
use crate::msg::{
    CountResponse, ExecuteMsg, HelloResponse, InstantiateMsg, MessageInfo, MigrateMsg, QueryMsg,
    QueryResponse,
};
use crate::response::Response;
use crate::state::{
    counter_load, counter_save, store_counts, store_version, store_wf, version_load, version_save,
};

verus! {

/// The identity recorded in the version marker.
pub open spec fn spec_contract_name() -> Seq<char> {
    "u64key-migrate"@
}

/// The version recorded in the version marker.
pub open spec fn spec_contract_version() -> Seq<char> {
    "0.1.0"@
}

/// The contract name as it is written to storage.
pub fn contract_name() -> (s: &'static str)
    ensures
        s@ == spec_contract_name(),
{
    "u64key-migrate"
}

/// The contract version as it is written to storage.
pub fn contract_version() -> (s: &'static str)
    ensures
        s@ == spec_contract_version(),
{
    "0.1.0"
}

/// The attributes a successful instantiate reports.
pub open spec fn instantiate_attrs(sender: Seq<char>, count: u128) -> Seq<(Seq<char>, Seq<char>)> {
    seq![
        ("method"@, "instantiate"@),
        ("owner"@, sender),
        ("count"@, spec_decimal(count as int)),
    ]
}

/// The attributes a successful increment reports.
pub open spec fn increment_attrs() -> Seq<(Seq<char>, Seq<char>)> {
    seq![("method"@, "try_increment"@)]
}

/// The attributes a successful migration reports: the marker read before
/// the call, then the identity written by it.
pub open spec fn migrate_attrs(previous: (Seq<char>, Seq<char>)) -> Seq<(Seq<char>, Seq<char>)> {
    seq![
        ("previous_contract_name"@, previous.0),
        ("previous_contract_version"@, previous.1),
        ("new_contract_name"@, spec_contract_name()),
        ("new_contract_version"@, spec_contract_version()),
    ]
}

/// What instantiate does. A second instantiate is refused and changes
/// nothing; the first one records the version marker, writes `count` to
/// slot 0 and reports the method, the caller and the count.
pub open spec fn instantiate_outcome(
    pre: cosmwasm_std::MemoryStorage,
    post: cosmwasm_std::MemoryStorage,
    sender: Seq<char>,
    count: u128,
    r: Result<Response, ContractError>,
) -> bool {
    &&& store_version(pre) is Some ==> {
        &&& r == Err::<Response, ContractError>(ContractError::AlreadyInitialized)
        &&& post == pre
    }
    &&& store_version(pre) is None ==> {
        &&& (r matches Ok(resp) && resp@ == instantiate_attrs(sender, count))
        &&& store_counts(post) == store_counts(pre).insert(0u64, count)
        &&& store_version(post) == Some((spec_contract_name(), spec_contract_version()))
    }
}

/// Record the version marker and write the initial count to slot 0.
pub fn instantiate(
    store: &mut cosmwasm_std::MemoryStorage,
    info: &MessageInfo,
    msg: InstantiateMsg,
) -> (r: Result<Response, ContractError>)
    requires
        store_wf(*old(store)),
    ensures
        store_wf(*final(store)),
        instantiate_outcome(*old(store), *final(store), info.sender@, msg.count, r),
{
    match version_load(store) {
        Ok(Some(_)) => Err(ContractError::AlreadyInitialized),
        Ok(None) => {
            version_save(store, contract_name(), contract_version());
            counter_save(store, 0, msg.count);
            let count_str = u128_to_decimal(msg.count);
            let resp = Response::new()
                .add_attribute("method", "instantiate")
                .add_attribute("owner", info.sender.as_str())
                .add_attribute("count", count_str.as_str());
            proof {
                assert(resp@ =~= instantiate_attrs(info.sender@, msg.count));
            }
            Ok(resp)
        },
        Err(e) => Err(e),
    }
}

/// What an increment at `slot` does. A missing slot and a counter at the
/// top of the 128-bit range are refused and change nothing; otherwise the
/// counter grows by exactly one and everything else is kept.
pub open spec fn increment_outcome(
    pre: cosmwasm_std::MemoryStorage,
    post: cosmwasm_std::MemoryStorage,
    slot: u64,
    r: Result<Response, ContractError>,
) -> bool {
    &&& !store_counts(pre).contains_key(slot) ==> {
        &&& r == Err::<Response, ContractError>(ContractError::SlotNotFound)
        &&& post == pre
    }
    &&& store_counts(pre).contains_key(slot) && store_counts(pre)[slot] == u128::MAX ==> {
        &&& r == Err::<Response, ContractError>(ContractError::Overflow)
        &&& post == pre
    }
    &&& store_counts(pre).contains_key(slot) && store_counts(pre)[slot] < u128::MAX ==> {
        &&& (r matches Ok(resp) && resp@ == increment_attrs())
        &&& store_counts(post) == store_counts(pre).insert(
            slot,
            (store_counts(pre)[slot] + 1) as u128,
        )
        &&& store_version(post) == store_version(pre)
    }
}

/// Add one to the counter at `slot` with checked addition.
pub fn try_increment(store: &mut cosmwasm_std::MemoryStorage, slot: u64) -> (r: Result<
    Response,
    ContractError,
>)
    requires
        store_wf(*old(store)),
    ensures
        store_wf(*final(store)),
        increment_outcome(*old(store), *final(store), slot, r),
{
    let current: u128 = match counter_load(store, slot) {
        Ok(Some(v)) => v,
        Ok(None) => {
            return Err(ContractError::SlotNotFound);
        },
        Err(e) => {
            return Err(e);
        },
    };
    if current == u128::MAX {
        return Err(ContractError::Overflow);
    }
    counter_save(store, slot, current + 1);
    let resp = Response::new().add_attribute("method", "try_increment");
    proof {
        assert(resp@ =~= increment_attrs());
    }
    Ok(resp)
}

/// Dispatch one execute message.
pub fn execute(
    store: &mut cosmwasm_std::MemoryStorage,
    _info: &MessageInfo,
    msg: ExecuteMsg,
) -> (r: Result<Response, ContractError>)
    requires
        store_wf(*old(store)),
    ensures
        store_wf(*final(store)),
        (msg matches ExecuteMsg::Increment { slot } ==> increment_outcome(
            *old(store),
            *final(store),
            slot,
            r,
        )),
{
    match msg {
        ExecuteMsg::Increment { slot } => try_increment(store, slot),
    }
}

/// What a count query returns: the stored value, or `SlotNotFound` for a
/// slot never written.
pub open spec fn count_query_outcome(
    s: cosmwasm_std::MemoryStorage,
    slot: u64,
    r: Result<CountResponse, ContractError>,
) -> bool {
    &&& store_counts(s).contains_key(slot) ==> (r matches Ok(c) && c.count == store_counts(
        s,
    )[slot])
    &&& !store_counts(s).contains_key(slot) ==> r == Err::<CountResponse, ContractError>(
        ContractError::SlotNotFound,
    )
}

/// Read the counter at `slot`.
pub fn query_count(store: &cosmwasm_std::MemoryStorage, slot: u64) -> (r: Result<
    CountResponse,
    ContractError,
>)
    requires
        store_wf(*store),
    ensures
        count_query_outcome(*store, slot, r),
{
    match counter_load(store, slot) {
        Ok(Some(v)) => Ok(CountResponse { count: v }),
        Ok(None) => Err(ContractError::SlotNotFound),
        Err(e) => Err(e),
    }
}

/// The fixed greeting; a query available only since the current version.
pub fn hello() -> (r: Result<HelloResponse, ContractError>)
    ensures
        (r matches Ok(h) && h.prompt@ == "hello world"@),
{
    Ok(HelloResponse { prompt: String::from_str("hello world") })
}

/// What a query returns, per message.
pub open spec fn query_outcome(
    s: cosmwasm_std::MemoryStorage,
    msg: QueryMsg,
    r: Result<QueryResponse, ContractError>,
) -> bool {
    match msg {
        QueryMsg::GetCount { slot } => {
            &&& store_counts(s).contains_key(slot) ==> (r matches Ok(q) && q matches
                QueryResponse::Count(c) && c.count == store_counts(s)[slot])
            &&& !store_counts(s).contains_key(slot) ==> r == Err::<QueryResponse, ContractError>(
                ContractError::SlotNotFound,
            )
        },
        QueryMsg::Hello {  } => (r matches Ok(q) && q matches QueryResponse::Hello(h)
            && h.prompt@ == "hello world"@),
    }
}

/// Dispatch one query message.
pub fn query(store: &cosmwasm_std::MemoryStorage, msg: QueryMsg) -> (r: Result<
    QueryResponse,
    ContractError,
>)
    requires
        store_wf(*store),
    ensures
        query_outcome(*store, msg, r),
{
    match msg {
        QueryMsg::GetCount { slot } => match query_count(store, slot) {
            Ok(c) => Ok(QueryResponse::Count(c)),
            Err(e) => Err(e),
        },
        QueryMsg::Hello {  } => match hello() {
            Ok(h) => Ok(QueryResponse::Hello(h)),
            Err(e) => Err(e),
        },
    }
}

/// What a migration does. Without a recorded marker it is refused and
/// changes nothing; otherwise it rewrites the marker to the current
/// identity, reports the old and the new one, and leaves every counter
/// untouched.
pub open spec fn migrate_outcome(
    pre: cosmwasm_std::MemoryStorage,
    post: cosmwasm_std::MemoryStorage,
    r: Result<Response, ContractError>,
) -> bool {
    &&& store_version(pre) is None ==> {
        &&& r == Err::<Response, ContractError>(ContractError::NoVersionRecorded)
        &&& post == pre
    }
    &&& store_version(pre) matches Some(previous) ==> {
        &&& (r matches Ok(resp) && resp@ == migrate_attrs(previous))
        &&& store_counts(post) == store_counts(pre)
        &&& store_version(post) == Some((spec_contract_name(), spec_contract_version()))
    }
}

/// Rewrite the version marker to the current identity, preserving all data.
pub fn migrate(store: &mut cosmwasm_std::MemoryStorage, _msg: MigrateMsg) -> (r: Result<
    Response,
    ContractError,
>)
    requires
        store_wf(*old(store)),
    ensures
        store_wf(*final(store)),
        migrate_outcome(*old(store), *final(store), r),
{
    let previous: (String, String) = match version_load(store) {
        Ok(Some(p)) => p,
        Ok(None) => {
            return Err(ContractError::NoVersionRecorded);
        },
        Err(e) => {
            return Err(e);
        },
    };
    version_save(store, contract_name(), contract_version());
    let resp = Response::new()
        .add_attribute("previous_contract_name", previous.0.as_str())
        .add_attribute("previous_contract_version", previous.1.as_str())
        .add_attribute("new_contract_name", contract_name())
        .add_attribute("new_contract_version", contract_version());
    proof {
        assert(resp@ =~= migrate_attrs((previous.0@, previous.1@)));
    }
    Ok(resp)
}

} // verus!
