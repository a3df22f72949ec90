//! An offchain-worker fetch-and-commit pipeline for a block-based runtime.
//!
//! The crate models a pallet that, once per block, runs a background worker:
//! it checks a cooldown against the block of the last successful save, issues
//! an HTTP GET, waits for the response under a deadline, reads the body in
//! bounded chunks, and submits each chunk back on chain through a signed
//! transaction. The on-chain side stores chunks in a map keyed by block
//! number and a per-block index, enforces a global chunk ceiling, and
//! validates unsigned submissions of the same call shape.
//!
//! All decisions are verified here; the host performs the actual network and
//! signing work and feeds the outcomes back as events ([`worker`]).

pub mod crypto;
pub mod hooks;
pub mod subslice;
pub mod template;
pub mod transaction;
pub mod worker;

use vstd::prelude::*;

verus! {

/// `a + b`, stopping at the largest 64-bit value.
pub open spec fn sat_add(a: u64, b: u64) -> u64 {
    if a + b > u64::MAX {
        u64::MAX
    } else {
        (a + b) as u64
    }
}

/// `a - b`, stopping at zero.
pub open spec fn sat_sub(a: u64, b: u64) -> u64 {
    if a >= b {
        (a - b) as u64
    } else {
        0u64
    }
}

} // verus!
