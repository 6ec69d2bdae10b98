//! The laws that relate the entry points across calls, stated over the
//! storage model that their contracts use.

use vstd::prelude::*;

use crate::state::store_counts;

verus! {

/// The counter map after `n` increments at `slot`, each one step of
/// [`crate::contract::increment_outcome`]'s success case.
pub open spec fn counts_after_increments(m: Map<u64, u128>, slot: u64, n: nat) -> Map<u64, u128>
    decreases n,
{
    if n == 0 {
        m
    } else {
        let prev = counts_after_increments(m, slot, (n - 1) as nat);
        prev.insert(slot, (prev[slot] + 1) as u128)
    }
}

/// Law: a value written to slot 0 by a successful initialization is read
/// back unchanged. `pre` and `post` are the storages around the call: the
/// premise is instantiate's success effect on the counters, the conclusion
/// what forces a count query at slot 0 to answer `v`.
pub proof fn lemma_initialize_then_get(
    pre: cosmwasm_std::MemoryStorage,
    post: cosmwasm_std::MemoryStorage,
    v: u128,
)
    requires
        store_counts(post) == store_counts(pre).insert(0u64, v),
    ensures
        store_counts(post).contains_key(0u64),
        store_counts(post)[0u64] == v,
{
}

/// Law: one successful increment is exactly one step of
/// [`counts_after_increments`].
pub proof fn lemma_increment_is_one_step(m: Map<u64, u128>, slot: u64)
    ensures
        counts_after_increments(m, slot, 1) == m.insert(slot, (m[slot] + 1) as u128),
{
    assert(counts_after_increments(m, slot, 0) == m);
}

/// Law: increments add up. `n` successful increments at an initialized
/// `slot` that stay below the 128-bit bound raise its counter by exactly
/// `n`, and each intermediate step stays below the bound, so none of the
/// calls reports an overflow.
pub proof fn lemma_repeated_increments_add_n(m: Map<u64, u128>, slot: u64, n: nat)
    requires
        m.contains_key(slot),
        m[slot] + n <= u128::MAX,
    ensures
        counts_after_increments(m, slot, n).contains_key(slot),
        counts_after_increments(m, slot, n)[slot] == m[slot] + n,
    decreases n,
{
    if n > 0 {
        lemma_repeated_increments_add_n(m, slot, (n - 1) as nat);
    }
}

/// Law: a migration neither loses nor changes counters. Its contract keeps
/// the counter map identical, so every slot is readable after exactly as
/// before, with the same value, and the marker alone moves.
pub proof fn lemma_migrate_preserves_data(
    pre: cosmwasm_std::MemoryStorage,
    post: cosmwasm_std::MemoryStorage,
    slot: u64,
)
    requires
        store_counts(post) == store_counts(pre),
    ensures
        store_counts(post).contains_key(slot) == store_counts(pre).contains_key(slot),
        store_counts(pre).contains_key(slot) ==> store_counts(post)[slot] == store_counts(
            pre,
        )[slot],
{
}

} // verus!
