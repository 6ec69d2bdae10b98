//! The persisted state: host key-value storage holding the counters and
//! the version marker.
//!
//! This module is the crate's trusted boundary. The storage itself is
//! `cosmwasm_std::MemoryStorage`; counters are written through
//! `cw_storage_plus::Map::<u64, Uint128>` under the `"test_storage"`
//! namespace, and the version marker through `cw2`, which keeps one record
//! under its own `"contract_info"` key. The two key spaces are disjoint
//! (every counter key begins with the namespace's two length bytes, the
//! first of which is zero), so each writer leaves the other's entries
//! untouched.
//!
//! What the storage holds is named by three uninterpreted spec functions:
//! [`store_counts`], the map of slots to values whose entries decode as
//! `Uint128`; [`store_version`], the recorded (name, version) pair, `None`
//! exactly when no marker bytes exist; and [`store_wf`], which says every
//! raw entry of the two key spaces decodes as the type this crate writes
//! there. A fresh storage is well formed, every wrapper below preserves
//! well-formedness, and reads of a well-formed storage never fail.

use vstd::prelude::*;

use crate::error::ContractError;

verus! {

#[verifier::external_type_specification]
#[verifier::external_body]
pub struct ExMemoryStorage(cosmwasm_std::MemoryStorage);

/// The counters the storage holds: each slot whose entry under the counter
/// namespace decodes as a `Uint128`, mapped to the decoded value.
pub uninterp spec fn store_counts(s: cosmwasm_std::MemoryStorage) -> Map<u64, u128>;

/// The version marker the storage holds: `None` exactly when no bytes sit
/// under cw2's key; otherwise the decoded (contract name, version) pair,
/// or an unspecified pair where the bytes do not decode.
pub uninterp spec fn store_version(s: cosmwasm_std::MemoryStorage) -> Option<
    (Seq<char>, Seq<char>),
>;

/// Well-formedness of the two key spaces this crate uses: every entry under
/// the counter namespace decodes as a `Uint128`, and the bytes under cw2's
/// key, if any, decode as a version record. Holds of a fresh storage and is
/// preserved by every write this crate makes; reads of a well-formed storage
/// never fail.
pub uninterp spec fn store_wf(s: cosmwasm_std::MemoryStorage) -> bool;

/// A storage that holds no counters and no version marker.
pub open spec fn store_empty(s: cosmwasm_std::MemoryStorage) -> bool {
    store_counts(s) == Map::<u64, u128>::empty() && store_version(s) is None
}

/// Relies on `cosmwasm_std::MemoryStorage::new`: a fresh storage holds no
/// entries at all, so both named key spaces are empty and trivially well
/// formed.
#[verifier::external_body]
fn storage_new() -> (s: cosmwasm_std::MemoryStorage)
    ensures
        store_empty(s),
        store_wf(s),
{
    cosmwasm_std::MemoryStorage::new()
}

/// An empty, well-formed storage for a fresh contract instance.
pub fn new_storage() -> (s: cosmwasm_std::MemoryStorage)
    ensures
        store_empty(s),
        store_wf(s),
{
    storage_new()
}

/// Relies on `cw_storage_plus::Map::save`: it stores the JSON encoding of
/// `Uint128::new(value)` under the namespaced 8-byte big-endian slot key.
/// Encoding a `Uint128` is a plain digit string and cannot fail, the value
/// written is never empty, and no other key is touched.
#[verifier::external_body]
pub(crate) fn counter_save(store: &mut cosmwasm_std::MemoryStorage, slot: u64, value: u128)
    ensures
        store_counts(*final(store)) == store_counts(*old(store)).insert(slot, value),
        store_version(*final(store)) == store_version(*old(store)),
        store_wf(*old(store)) ==> store_wf(*final(store)),
{
    let counters: cw_storage_plus::Map<u64, cosmwasm_std::Uint128> = cw_storage_plus::Map::new(
        "test_storage",
    );
    counters.save(store, slot, &cosmwasm_std::Uint128::new(value)).unwrap();
}

/// What a read of the counter at `slot` returns: the stored value where
/// the slot is present, `Ok(None)` where it is absent from a well-formed
/// storage, never a value for an absent slot, and a storage failure only
/// where a present entry does not decode.
pub open spec fn counter_read(
    s: cosmwasm_std::MemoryStorage,
    slot: u64,
    r: Result<Option<u128>, ContractError>,
) -> bool {
    &&& store_counts(s).contains_key(slot) ==> r == Ok::<Option<u128>, ContractError>(
        Some(store_counts(s)[slot]),
    )
    &&& !store_counts(s).contains_key(slot) && store_wf(s) ==> r == Ok::<
        Option<u128>,
        ContractError,
    >(None)
    &&& (r matches Ok(v) && v is Some ==> store_counts(s).contains_key(slot))
    &&& r is Err ==> r == Err::<Option<u128>, ContractError>(ContractError::StorageFailure)
}

/// Relies on `cw_storage_plus::Map::may_load`: an absent key yields
/// `Ok(None)`, an entry that decodes as `Uint128` yields its value, and
/// only an entry that does not decode is an error.
#[verifier::external_body]
pub(crate) fn counter_load(store: &cosmwasm_std::MemoryStorage, slot: u64) -> (r: Result<
    Option<u128>,
    ContractError,
>)
    ensures
        counter_read(*store, slot, r),
{
    let counters: cw_storage_plus::Map<u64, cosmwasm_std::Uint128> = cw_storage_plus::Map::new(
        "test_storage",
    );
    match counters.may_load(store, slot) {
        Ok(Some(v)) => Ok(Some(v.u128())),
        Ok(None) => Ok(None),
        Err(_) => Err(ContractError::StorageFailure),
    }
}

/// Relies on `cw2::set_contract_version`: it stores the JSON encoding of a
/// record of the two strings under its own key. Encoding two strings cannot
/// fail, the value written is never empty, and no counter key is touched.
#[verifier::external_body]
pub(crate) fn version_save(store: &mut cosmwasm_std::MemoryStorage, name: &str, version: &str)
    ensures
        store_version(*final(store)) == Some((name@, version@)),
        store_counts(*final(store)) == store_counts(*old(store)),
        store_wf(*old(store)) ==> store_wf(*final(store)),
{
    cw2::set_contract_version(store, name, version).unwrap();
}

/// What a read of the version marker returns: `Ok(None)` exactly when no
/// marker is recorded, the recorded pair whenever the storage is well
/// formed, never a pair other than the recorded one, and a storage failure
/// only where a present record does not decode.
pub open spec fn version_read(s: cosmwasm_std::MemoryStorage, r: Result<
    Option<(String, String)>,
    ContractError,
>) -> bool {
    &&& r == Ok::<Option<(String, String)>, ContractError>(None) <==> store_version(s) is None
    &&& store_version(s) is Some && store_wf(s) ==> (r matches Ok(v) && v is Some)
    &&& (r matches Ok(v) && v matches Some(p) ==> store_version(s) == Some((p.0@, p.1@)))
    &&& r is Err ==> r == Err::<Option<(String, String)>, ContractError>(
        ContractError::StorageFailure,
    )
}

/// Relies on `cw2::get_contract_version`: it reports "not found" exactly
/// when no marker bytes exist, returns the decoded record otherwise, and
/// only a record that does not decode is any other error.
#[verifier::external_body]
pub(crate) fn version_load(store: &cosmwasm_std::MemoryStorage) -> (r: Result<
    Option<(String, String)>,
    ContractError,
>)
    ensures
        version_read(*store, r),
{
    match cw2::get_contract_version(store) {
        Ok(cv) => Ok(Some((cv.contract, cv.version))),
        Err(cosmwasm_std::StdError::NotFound { .. }) => Ok(None),
        Err(_) => Err(ContractError::StorageFailure),
    }
}

} // verus!
