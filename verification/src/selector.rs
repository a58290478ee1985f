//! Validator selection.
//!
//! Whenever the hub creates new delegations it picks one validator per
//! unit of work from a candidate pool.  The choice is derived from the
//! block height alone, so it is reproducible under re-execution and
//! therefore safe for a deterministic host, while being unpredictable
//! enough to spread stake across the pool.  Within one selection round the
//! effective pool shrinks by one after each pick (never below one), but
//! the picked candidate itself is not removed, so a later pick may land on
//! the same validator if the modulus realigns.

use vstd::prelude::*;

verus! {

/// The index that a single pick yields from a pool of `pool_size`
/// candidates at block height `block_height`.
pub open spec fn pick_index(block_height: int, pool_size: int) -> int {
    (block_height % (pool_size + 1)) % pool_size
}

/// The effective pool size used for the `k`-th pick (counting from zero)
/// of a selection round that started with `len` candidates: it shrinks by
/// one per pick already made, but never below one.
pub open spec fn pool_at(len: int, k: int) -> int {
    if len - k > 1 {
        len - k
    } else {
        1
    }
}

/// Derives a pseudo-random index in `[0, max)` from the block height.
///
/// Deliberately low-entropy and reproducible: callers rely on the chain
/// replaying the same choice, not on randomness quality.
pub fn get_pseudorandom(block_height: u64, max: u64) -> (index: u64)
    requires
        0 < max < u64::MAX,
    ensures
        index == pick_index(block_height as int, max as int),
        index < max,
{
    let seed: u64 = block_height % (max + 1);
    seed % max
}

} // verus!
