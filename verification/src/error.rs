//! The typed failures of the contract's entry points.

use vstd::prelude::*;

verus! {

/// Every failure an entry point can report. Each call either fully succeeds
/// or returns one of these and leaves the persisted state unchanged.
#[derive(Clone, Copy, Debug, PartialEq, Eq, Structural)]
pub enum ContractError {
    /// The contract instance was already initialized (a version marker exists).
    AlreadyInitialized,
    /// No counter has ever been written at the requested slot.
    SlotNotFound,
    /// Incrementing the counter would exceed the unsigned 128-bit range.
    Overflow,
    /// Migration was requested but no version marker was ever recorded.
    NoVersionRecorded,
    /// The underlying persistence layer rejected a read or write.
    StorageFailure,
}

impl ContractError {
    /// A short stable description of the error, for callers that log it.
    pub fn describe(&self) -> (s: &'static str)
        ensures
            (*self == ContractError::AlreadyInitialized ==> s@ == "already initialized"@),
            (*self == ContractError::SlotNotFound ==> s@ == "slot not found"@),
            (*self == ContractError::Overflow ==> s@ == "counter overflow"@),
            (*self == ContractError::NoVersionRecorded ==> s@ == "no version recorded"@),
            (*self == ContractError::StorageFailure ==> s@ == "storage failure"@),
    {
        match self {
            ContractError::AlreadyInitialized => "already initialized",
            ContractError::SlotNotFound => "slot not found",
            ContractError::Overflow => "counter overflow",
            ContractError::NoVersionRecorded => "no version recorded",
            ContractError::StorageFailure => "storage failure",
        }
    }
}

} // verus!
