//! A versioned keyed counter store in the style of a CosmWasm contract.
//!
//! Counters live in host-backed key-value storage under 64-bit slot keys;
//! a version marker records the contract identity and is rewritten on
//! migration. All entry-point logic is verified; the storage calls into
//! `cw_storage_plus` and `cw2` stand behind trusted wrappers in [`state`].

pub mod contract;
pub mod decimal;
pub mod error;
pub mod laws;
pub mod msg;
pub mod response;
pub mod state;
