//! The entry-point messages and query responses.
//!
//! Slots are plain `u64` keys and counts plain `u128` values; the host's
//! fixed-width integer wrappers carry no further information, so the
//! verified layer works on the integers themselves.

use vstd::prelude::*;

verus! {

/// The caller identity the host hands to a mutating entry point.
#[derive(Clone, Debug, PartialEq, Eq)]
pub struct MessageInfo {
    /// Bech32 address of the account that sent the message.
    pub sender: String,
}

/// Payload of the single instantiate call: the value written to slot 0.
#[derive(Clone, Copy, Debug, PartialEq, Eq, Structural)]
pub struct InstantiateMsg {
    pub count: u128,
}

/// The execute entry point's message variants.
#[derive(Clone, Copy, Debug, PartialEq, Eq, Structural)]
pub enum ExecuteMsg {
    /// Add one to the counter stored at `slot`.
    Increment { slot: u64 },
}

/// The query entry point's message variants.
#[derive(Clone, Copy, Debug, PartialEq, Eq, Structural)]
pub enum QueryMsg {
    /// Return the counter stored at `slot`.
    GetCount { slot: u64 },
    /// Return a fixed greeting; present only since the current version.
    Hello {},
}

/// Payload of the migrate call. Carries nothing: the migration only
/// rewrites the version marker.
#[derive(Clone, Copy, Debug, PartialEq, Eq, Structural)]
pub struct MigrateMsg {}

/// Answer to [`QueryMsg::GetCount`].
#[derive(Clone, Copy, Debug, PartialEq, Eq, Structural)]
pub struct CountResponse {
    pub count: u128,
}

/// Answer to [`QueryMsg::Hello`].
#[derive(Clone, Debug, PartialEq, Eq)]
pub struct HelloResponse {
    pub prompt: String,
}

/// The answer a query returns, one variant per query message.
#[derive(Clone, Debug, PartialEq, Eq)]
pub enum QueryResponse {
    Count(CountResponse),
    Hello(HelloResponse),
}

} // verus!
