//! Transaction-level types: call origins, the runtime call, and the validity
//! decisions a transaction-pool validator hands back for unsigned submissions.

use vstd::prelude::*;

verus! {

/// The provenance of a dispatched call.
#[derive(Clone, Copy, Debug, PartialEq, Eq, Structural)]
pub enum Origin {
    /// A transaction signed by the given account.
    Signed(u64),
    /// The privileged root origin.
    Root,
    /// An unsigned transaction, admitted only by a validator.
    Unsigned,
}

/// Where a candidate transaction was first seen by the pool.
#[derive(Clone, Copy, Debug, PartialEq, Eq, Structural)]
pub enum TransactionSource {
    /// Part of an already-built block being re-checked.
    InBlock,
    /// Submitted by this node itself.
    Local,
    /// Received from a peer.
    External,
}

/// A runtime-level call: one variant per dispatchable of the two pallets.
#[derive(Debug, Clone, PartialEq, Eq)]
pub enum RuntimeCall {
    /// Persist one fetched chunk under the given block number.
    SaveDataChunk { data_chunk: Vec<u8>, block_number: u64 },
    /// Grant `amount` tokens from the faucet to `dest`.
    TokenFaucet { dest: u64, amount: u64 },
    /// Move `amount` tokens from the signer into the faucet account.
    RefillPallet { amount: u64 },
    /// Deposit `amount` tokens into an existing account.
    SetBalance { who: u64, amount: u64 },
}

/// The deduplication tag a validator attaches to a valid unsigned
/// transaction: two submissions with the same tag are one logical
/// transaction for the pool.
#[derive(Debug, Clone, PartialEq, Eq)]
pub enum ProvidesTag {
    /// Tag of a chunk submission: the payload together with its block.
    DataChunk { data_chunk: Vec<u8>, block_number: u64 },
    /// Tag of a faucet operation: the account together with the amount.
    Faucet { account: u64, amount: u64 },
}

/// A positive decision: the transaction may enter the pool.
#[derive(Debug, Clone, PartialEq, Eq)]
pub struct ValidTransaction {
    /// The deduplication tag built over the call's payload.
    pub provides: ProvidesTag,
    /// Whether the transaction should be gossiped to peers.
    pub propagate: bool,
}

/// Why an unsigned transaction is refused.
#[derive(Clone, Copy, Debug, PartialEq, Eq, Structural)]
pub enum InvalidTransaction {
    /// The call must not be submitted unsigned.
    Call,
}

/// The validator's decision on one candidate transaction.
#[derive(Debug, Clone, PartialEq, Eq)]
pub enum TransactionValidity {
    /// Admitted, with its pool metadata.
    Valid(ValidTransaction),
    /// Refused.
    Invalid(InvalidTransaction),
}

} // verus!
