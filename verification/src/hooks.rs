//! The chunk-saving pallet: persistent state, the `save_data_chunk`
//! dispatchable, and the unsigned-transaction validator.
//!
//! Chunks live in a map keyed by `(block number, index)`. Indices are
//! assigned per block, starting at 1, each new chunk taking the current
//! maximum index of its block plus one, so the indices stored under one
//! block are always a gapless `1..=n`. A single counter tracks the total
//! number of chunks and is never allowed past the configured ceiling;
//! the block of the last successful save feeds the worker's cooldown.

use vstd::prelude::*;

use crate::transaction::{
    InvalidTransaction, Origin, ProvidesTag, RuntimeCall, TransactionSource, TransactionValidity,
    ValidTransaction,
};

verus! {

/// Per-deployment constants of the pallet and its offchain worker.
#[derive(Debug, Clone, PartialEq, Eq)]
pub struct Config {
    /// Maximum byte length of one stored chunk.
    pub max_data_len: u32,
    /// Ceiling on the total number of stored chunks.
    pub max_chunks: u64,
    /// Blocks that must pass after a save before the next fetch.
    pub cooldown_period: u64,
    /// Target of the worker's HTTP GET.
    pub url: String,
    /// Millisecond budget for waiting on the response.
    pub response_time_limit: u64,
    /// Millisecond budget for reading the response body.
    pub reading_time_limit: u64,
    /// Byte sequence that must occur in a chunk for it to be committed.
    pub target: Vec<u8>,
}

/// One stored chunk with its key.
#[derive(Debug, Clone, PartialEq, Eq)]
pub struct ChunkEntry {
    /// First key: the block number the chunk was saved under.
    pub block_number: u64,
    /// Second key: the chunk's index within its block, starting at 1.
    pub index: u64,
    /// The chunk itself.
    pub data: Vec<u8>,
}

/// Errors of the `save_data_chunk` dispatchable.
#[derive(Clone, Copy, Debug, PartialEq, Eq, Structural)]
pub enum Error {
    /// The submitted chunk is longer than the configured maximum.
    VecToBoundedVecConvertationError,
    /// The chunk ceiling has been reached; nothing was stored.
    ChunksLimitExceeded,
}

/// What a dispatch can fail with: an origin the call refuses, or one of
/// the pallet's own errors.
#[derive(Clone, Copy, Debug, PartialEq, Eq, Structural)]
pub enum DispatchError {
    /// The call requires a signed origin.
    BadOrigin,
    /// A pallet error.
    Module(Error),
}

/// Some stored entry carries the key `(b, i)`.
pub open spec fn has_chunk(s: Seq<ChunkEntry>, b: u64, i: u64) -> bool
    decreases s.len(),
{
    if s.len() == 0 {
        false
    } else {
        (s.last().block_number == b && s.last().index == i) || has_chunk(s.drop_last(), b, i)
    }
}

/// The data stored under the key `(b, i)`; the empty sequence when the key
/// is absent.
pub open spec fn chunk_data(s: Seq<ChunkEntry>, b: u64, i: u64) -> Seq<u8>
    decreases s.len(),
{
    if s.len() == 0 {
        Seq::empty()
    } else if s.last().block_number == b && s.last().index == i {
        s.last().data@
    } else {
        chunk_data(s.drop_last(), b, i)
    }
}

/// The greatest index stored under block `b`; 0 when the block has no
/// chunks yet.
pub open spec fn max_index(s: Seq<ChunkEntry>, b: u64) -> u64
    decreases s.len(),
{
    if s.len() == 0 {
        0u64
    } else {
        let m = max_index(s.drop_last(), b);
        if s.last().block_number == b && s.last().index > m {
            s.last().index
        } else {
            m
        }
    }
}

/// No two entries share a key.
pub open spec fn unique_keys(s: Seq<ChunkEntry>) -> bool {
    forall|j: int, k: int|
        0 <= j < k < s.len() ==> !((#[trigger] s[j]).block_number == (#[trigger] s[k]).block_number
            && s[j].index == s[k].index)
}

/// Every index is at least 1 and no larger than the number of entries.
pub open spec fn indices_in_range(s: Seq<ChunkEntry>) -> bool {
    forall|j: int| 0 <= j < s.len() ==> 1 <= (#[trigger] s[j]).index <= s.len()
}

/// Below every stored index of a block, the previous index of the same
/// block is stored too.
pub open spec fn indices_gapless(s: Seq<ChunkEntry>) -> bool {
    forall|j: int|
        0 <= j < s.len() && (#[trigger] s[j]).index > 1 ==> has_chunk(
            s,
            s[j].block_number,
            (s[j].index - 1) as u64,
        )
}

/// The pallet's state: its configuration and its three storage items.
#[derive(Debug, Clone, PartialEq, Eq)]
pub struct Pallet {
    /// The deployment's constants.
    pub config: Config,
    /// The chunk map, one entry per stored `(block, index)` key.
    pub data_chunks: Vec<ChunkEntry>,
    /// Total number of chunks ever stored.
    pub amount_of_chunks: u64,
    /// Block number of the most recent successful save.
    pub last_save_block: u64,
}

impl Pallet {
    /// Well-formedness: the counter matches the map, stays under the
    /// ceiling, every chunk is within the length bound, and the keys are
    /// unique and gapless per block.
    pub open spec fn wf(&self) -> bool {
        &&& self.amount_of_chunks == self.data_chunks@.len()
        &&& self.amount_of_chunks <= self.config.max_chunks
        &&& forall|j: int|
            0 <= j < self.data_chunks@.len() ==> (#[trigger] self.data_chunks@[j]).data@.len()
                <= self.config.max_data_len
        &&& unique_keys(self.data_chunks@)
        &&& indices_in_range(self.data_chunks@)
        &&& indices_gapless(self.data_chunks@)
    }

    /// Genesis state: empty storage under the given configuration.
    pub fn new(config: Config) -> (p: Pallet)
        ensures
            p.wf(),
            p.config == config,
            p.data_chunks@ == Seq::<ChunkEntry>::empty(),
            p.amount_of_chunks == 0,
            p.last_save_block == 0,
    {
        Pallet { config, data_chunks: Vec::new(), amount_of_chunks: 0, last_save_block: 0 }
    }

    /// Current value of the chunk counter.
    pub fn current_amount_of_chunks(&self) -> (r: u64)
        ensures
            r == self.amount_of_chunks,
    {
        self.amount_of_chunks
    }

    /// Block number of the most recent successful save.
    pub fn last_save(&self) -> (r: u64)
        ensures
            r == self.last_save_block,
    {
        self.last_save_block
    }

    /// The current maximal second key stored under `k1`, or 0 when `k1`
    /// has no chunks.
    pub fn get_max_k2_or_0(&self, k1: u64) -> (r: u64)
        ensures
            r == max_index(self.data_chunks@, k1),
    {
        let n = self.data_chunks.len();
        let mut r: u64 = 0;
        let mut j: usize = 0;
        proof {
            assert(self.data_chunks@.take(0) =~= Seq::<ChunkEntry>::empty());
        }
        while j < n
            invariant
                n == self.data_chunks@.len(),
                0 <= j <= n,
                r == max_index(self.data_chunks@.take(j as int), k1),
            decreases n - j,
        {
            proof {
                assert(self.data_chunks@.take(j + 1).drop_last() =~= self.data_chunks@.take(
                    j as int,
                ));
                assert(self.data_chunks@.take(j + 1).last() == self.data_chunks@[j as int]);
            }
            let e = &self.data_chunks[j];
            if e.block_number == k1 && e.index > r {
                r = e.index;
            }
            j += 1;
        }
        proof {
            assert(self.data_chunks@.take(n as int) =~= self.data_chunks@);
        }
        r
    }

    /// The chunk stored under `(k1, k2)`, if any.
    pub fn data_chunk(&self, k1: u64, k2: u64) -> (r: Option<&Vec<u8>>)
        requires
            self.wf(),
        ensures
            match r {
                Some(d) => has_chunk(self.data_chunks@, k1, k2) && d@ == chunk_data(
                    self.data_chunks@,
                    k1,
                    k2,
                ),
                None => !has_chunk(self.data_chunks@, k1, k2),
            },
    {
        let n = self.data_chunks.len();
        let mut j: usize = 0;
        while j < n
            invariant
                self.wf(),
                n == self.data_chunks@.len(),
                0 <= j <= n,
                forall|t: int|
                    0 <= t < j ==> !((#[trigger] self.data_chunks@[t]).block_number == k1
                        && self.data_chunks@[t].index == k2),
            decreases n - j,
        {
            let e = &self.data_chunks[j];
            if e.block_number == k1 && e.index == k2 {
                proof {
                    lemma_has_chunk_exists(self.data_chunks@, k1, k2);
                    lemma_chunk_data_agrees(self.data_chunks@, k1, k2, j as int);
                }
                return Some(&e.data);
            }
            j += 1;
        }
        proof {
            lemma_has_chunk_exists(self.data_chunks@, k1, k2);
        }
        None
    }

    /// The dispatchable: persist one chunk under `block_number`.
    ///
    /// Requires a signed origin. Rejects a chunk longer than the bound
    /// before anything else, then rejects when the counter has reached the
    /// ceiling; in both cases, and on a bad origin, the state is left
    /// exactly as it was. On success the chunk is appended under the next
    /// free index of its block, the counter grows by one, and the block is
    /// recorded as the last save.
    pub fn save_data_chunk(
        &mut self,
        origin: Origin,
        data_chunk: Vec<u8>,
        block_number: u64,
    ) -> (r: Result<(), DispatchError>)
        requires
            old(self).wf(),
        ensures
            final(self).wf(),
            final(self).config == old(self).config,
            !(origin matches Origin::Signed(_)) ==> r == Err::<(), DispatchError>(
                DispatchError::BadOrigin,
            ) && *final(self) == *old(self),
            origin matches Origin::Signed(_) && data_chunk@.len() > old(self).config.max_data_len
                ==> r == Err::<(), DispatchError>(
                DispatchError::Module(Error::VecToBoundedVecConvertationError),
            ) && *final(self) == *old(self),
            origin matches Origin::Signed(_) && data_chunk@.len() <= old(self).config.max_data_len
                && old(self).amount_of_chunks >= old(self).config.max_chunks ==> r == Err::<
                (),
                DispatchError,
            >(DispatchError::Module(Error::ChunksLimitExceeded)) && *final(self) == *old(self),
            origin matches Origin::Signed(_) && data_chunk@.len() <= old(self).config.max_data_len
                && old(self).amount_of_chunks < old(self).config.max_chunks ==> {
                &&& r == Ok::<(), DispatchError>(())
                &&& final(self).data_chunks@ == old(self).data_chunks@.push(
                    ChunkEntry {
                        block_number,
                        index: (max_index(old(self).data_chunks@, block_number) + 1) as u64,
                        data: data_chunk,
                    },
                )
                &&& final(self).amount_of_chunks == old(self).amount_of_chunks + 1
                &&& final(self).last_save_block == block_number
            },
    {
        match origin {
            Origin::Signed(_) => {},
            _ => {
                return Err(DispatchError::BadOrigin);
            },
        }
        if data_chunk.len() > self.config.max_data_len as usize {
            return Err(DispatchError::Module(Error::VecToBoundedVecConvertationError));
        }
        if self.amount_of_chunks >= self.config.max_chunks {
            return Err(DispatchError::Module(Error::ChunksLimitExceeded));
        }
        let k2 = self.get_max_k2_or_0(block_number);
        proof {
            lemma_max_index_le_len(self.data_chunks@, block_number);
        }
        let new_k2 = k2 + 1;
        let ghost s = self.data_chunks@;
        let entry = ChunkEntry { block_number, index: new_k2, data: data_chunk };
        let ghost ge = entry;
        self.data_chunks.push(entry);
        self.amount_of_chunks = self.amount_of_chunks + 1;
        self.last_save_block = block_number;
        proof {
            lemma_push_preserves_wf(s, ge);
        }
        Ok(())
    }

    /// The pool-side gate for unsigned submissions: a `save_data_chunk`
    /// call is always admitted, tagged with its payload and block so the
    /// pool deduplicates identical submissions, and marked for
    /// propagation; every other call shape is refused.
    ///
    /// Deliberately, none of the execution-time bounds (cooldown, chunk
    /// ceiling, length) is re-checked here: a pool-admitted call may still
    /// be rejected when it executes.
    pub fn validate_unsigned(_source: TransactionSource, call: RuntimeCall) -> (r:
        TransactionValidity)
        ensures
            call matches RuntimeCall::SaveDataChunk { data_chunk, block_number } ==> r
                == TransactionValidity::Valid(
                ValidTransaction {
                    provides: ProvidesTag::DataChunk { data_chunk, block_number },
                    propagate: true,
                },
            ),
            !(call matches RuntimeCall::SaveDataChunk { .. }) ==> r
                == TransactionValidity::Invalid(InvalidTransaction::Call),
    {
        match call {
            RuntimeCall::SaveDataChunk { data_chunk, block_number } => TransactionValidity::Valid(
                ValidTransaction {
                    provides: ProvidesTag::DataChunk { data_chunk, block_number },
                    propagate: true,
                },
            ),
            _ => TransactionValidity::Invalid(InvalidTransaction::Call),
        }
    }
}

/// Chunk-index monotonicity: in a well-formed pallet, the set of chunk
/// indices stored under any block `b` is exactly `{1, ..., max_index(b)}`
/// — no gaps, nothing at 0, nothing above the maximum.
pub proof fn lemma_chunk_indices_contiguous(p: &Pallet, b: u64, i: u64)
    requires
        p.wf(),
    ensures
        has_chunk(p.data_chunks@, b, i) <==> 1 <= i <= max_index(p.data_chunks@, b),
{
    let s = p.data_chunks@;
    lemma_max_index_bounds(s, b);
    if has_chunk(s, b, i) {
        lemma_has_chunk_exists(s, b, i);
        let j = choose|j: int|
            0 <= j < s.len() && (#[trigger] s[j]).block_number == b && s[j].index == i;
        assert(1 <= i);
    }
    if 1 <= i <= max_index(s, b) {
        lemma_gapless_downward(s, b, max_index(s, b), i);
    }
}

/// What one save makes readable: the appended entry's key exists
/// afterwards and holds exactly the entry's bytes.
pub proof fn lemma_pushed_chunk_is_stored(s: Seq<ChunkEntry>, e: ChunkEntry)
    ensures
        has_chunk(s.push(e), e.block_number, e.index),
        chunk_data(s.push(e), e.block_number, e.index) == e.data@,
{
    assert(s.push(e).last() == e);
}

/// The chunk-counter ceiling: a well-formed pallet never holds more chunks
/// than its configured maximum. That an insert past the ceiling is refused
/// with the state unchanged is part of `save_data_chunk`'s contract.
pub proof fn lemma_chunk_counter_ceiling(p: &Pallet)
    requires
        p.wf(),
    ensures
        p.amount_of_chunks <= p.config.max_chunks,
{
}

/// From any stored index of a block, every smaller positive index of the
/// same block is stored too.
proof fn lemma_gapless_downward(s: Seq<ChunkEntry>, b: u64, hi: u64, i: u64)
    requires
        indices_gapless(s),
        has_chunk(s, b, hi),
        1 <= i <= hi,
    ensures
        has_chunk(s, b, i),
    decreases hi - i,
{
    if i < hi {
        lemma_has_chunk_exists(s, b, hi);
        let j = choose|j: int|
            0 <= j < s.len() && (#[trigger] s[j]).block_number == b && s[j].index == hi;
        assert(has_chunk(s, b, (hi - 1) as u64));
        lemma_gapless_downward(s, b, (hi - 1) as u64, i);
    }
}

/// `has_chunk` holds exactly when some position holds the key.
pub proof fn lemma_has_chunk_exists(s: Seq<ChunkEntry>, b: u64, i: u64)
    ensures
        has_chunk(s, b, i) <==> exists|j: int|
            0 <= j < s.len() && (#[trigger] s[j]).block_number == b && s[j].index == i,
    decreases s.len(),
{
    if s.len() == 0 {
    } else {
        let t = s.drop_last();
        lemma_has_chunk_exists(t, b, i);
        if has_chunk(s, b, i) {
            if s.last().block_number == b && s.last().index == i {
                assert(s[s.len() - 1].block_number == b && s[s.len() - 1].index == i);
            } else {
                let j = choose|j: int|
                    0 <= j < t.len() && (#[trigger] t[j]).block_number == b && t[j].index == i;
                assert(s[j] == t[j]);
            }
        }
        if exists|j: int| 0 <= j < s.len() && (#[trigger] s[j]).block_number == b && s[j].index
            == i {
            let j = choose|j: int|
                0 <= j < s.len() && (#[trigger] s[j]).block_number == b && s[j].index == i;
            if j == s.len() - 1 {
            } else {
                assert(t[j] == s[j]);
                assert(has_chunk(t, b, i));
            }
        }
    }
}

/// The maximal index is attained (unless 0) and bounds every stored index
/// of its block.
pub proof fn lemma_max_index_bounds(s: Seq<ChunkEntry>, b: u64)
    ensures
        max_index(s, b) == 0 || has_chunk(s, b, max_index(s, b)),
        forall|i: u64| has_chunk(s, b, i) ==> i <= max_index(s, b),
    decreases s.len(),
{
    if s.len() == 0 {
    } else {
        let t = s.drop_last();
        lemma_max_index_bounds(t, b);
        assert forall|i: u64| has_chunk(s, b, i) implies i <= max_index(s, b) by {
            if s.last().block_number == b && s.last().index == i {
            } else {
                assert(has_chunk(t, b, i));
            }
        }
    }
}

/// With indices in range, the maximal index cannot exceed the number of
/// entries.
pub proof fn lemma_max_index_le_len(s: Seq<ChunkEntry>, b: u64)
    requires
        indices_in_range(s),
    ensures
        max_index(s, b) <= s.len(),
{
    lemma_max_index_bounds(s, b);
    if max_index(s, b) != 0 {
        lemma_has_chunk_exists(s, b, max_index(s, b));
        let j = choose|j: int|
            0 <= j < s.len() && (#[trigger] s[j]).block_number == b && s[j].index == max_index(
                s,
                b,
            );
        assert(s[j].index <= s.len());
    }
}

/// With unique keys, `chunk_data` agrees with any entry that holds the key.
proof fn lemma_chunk_data_agrees(s: Seq<ChunkEntry>, b: u64, i: u64, j: int)
    requires
        unique_keys(s),
        0 <= j < s.len(),
        s[j].block_number == b,
        s[j].index == i,
    ensures
        chunk_data(s, b, i) == s[j].data@,
    decreases s.len(),
{
    let t = s.drop_last();
    if j == s.len() - 1 {
        assert(s.last() == s[j]);
    } else {
        assert(!(s[s.len() - 1].block_number == b && s[s.len() - 1].index == i));
        assert(t[j] == s[j]);
        lemma_chunk_data_agrees(t, b, i, j);
    }
}

/// Appending under a fresh maximal index keeps every storage invariant.
proof fn lemma_push_preserves_wf(s: Seq<ChunkEntry>, e: ChunkEntry)
    requires
        unique_keys(s),
        indices_in_range(s),
        indices_gapless(s),
        max_index(s, e.block_number) < u64::MAX,
        e.index == max_index(s, e.block_number) + 1,
    ensures
        unique_keys(s.push(e)),
        indices_in_range(s.push(e)),
        indices_gapless(s.push(e)),
{
    let t = s.push(e);
    let b = e.block_number;
    let m = max_index(s, b);
    lemma_max_index_bounds(s, b);
    lemma_max_index_le_len(s, b);
    assert(t.drop_last() =~= s);
    assert forall|j: int, k: int| 0 <= j < k < t.len() implies !((#[trigger] t[j]).block_number
        == (#[trigger] t[k]).block_number && t[j].index == t[k].index) by {
        if k == s.len() {
            if s[j].block_number == b {
                lemma_has_chunk_exists(s, b, s[j].index);
                assert(has_chunk(s, b, s[j].index));
                assert(s[j].index <= m);
            }
        }
    }
    assert forall|j: int| 0 <= j < t.len() implies 1 <= (#[trigger] t[j]).index <= t.len() by {
        if j < s.len() {
            assert(t[j] == s[j]);
        }
    }
    assert forall|j: int| 0 <= j < t.len() && (#[trigger] t[j]).index > 1 implies has_chunk(
        t,
        t[j].block_number,
        (t[j].index - 1) as u64,
    ) by {
        if j < s.len() {
            assert(t[j] == s[j]);
            assert(has_chunk(s, s[j].block_number, (s[j].index - 1) as u64));
        } else {
            assert(t[j] == e);
            assert(m >= 1);
            assert(has_chunk(s, b, m));
        }
    }
}

} // verus!
