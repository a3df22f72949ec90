//! The offchain worker's fetch-and-commit cycle as a verified state machine.
//!
//! Once per block the host triggers one cycle: check the cooldown, start an
//! HTTP GET, wait for the response under a deadline, then read the body in
//! bounded chunks and submit each chunk as a signed `save_data_chunk` call,
//! until the stream ends or a stage fails. The worker itself never mutates
//! storage — it only observes it and submits transactions.
//!
//! Every decision of the cycle lives in [`next`] (the specification) and
//! [`step`] (the executable transition, proved equal to it). The host owns
//! the I/O: it performs the [`WorkerAction`] the machine hands out and
//! reports the outcome back as the next [`WorkerEvent`]. Both waits are
//! deadline-bounded; the reading deadline is computed once per cycle and
//! never extended mid-flight.

use vstd::prelude::*;

use crate::hooks::Pallet;
use crate::subslice::{contains_seq, contains_subslice};
use crate::transaction::RuntimeCall;
use crate::{sat_add, sat_sub};

verus! {

/// Errors of the HTTP fetch stage.
#[derive(Clone, Copy, Debug, PartialEq, Eq, Structural)]
pub enum HttpRequestError {
    /// The transport could not open the request.
    RequestSendingError,
    /// The request ended in a non-finished terminal status (timed out,
    /// deadline expired, or I/O-errored).
    RequestBadStatus,
    /// The request finished, but with a status code other than 200.
    ResponseBadCode,
}

/// Errors of the submission stage.
#[derive(Clone, Copy, Debug, PartialEq, Eq, Structural)]
pub enum TransactionSendingError {
    /// No local account is configured for offchain signing.
    NoLocalAccountAvailable,
    /// The pool rejected the signed submission.
    SendFailed,
}

/// Errors of the read-and-save stage.
#[derive(Clone, Copy, Debug, PartialEq, Eq, Structural)]
pub enum DataProcessingError {
    /// Reading the response body failed.
    RequestReadingError,
    /// Submitting the chunk failed.
    TransactionError(TransactionSendingError),
    /// The configured target bytes do not occur in the chunk.
    TargetNotFound,
}

/// Why one worker cycle ended without completing.
#[derive(Clone, Copy, Debug, PartialEq, Eq, Structural)]
pub enum CycleError {
    /// The fetch stage failed.
    Http(HttpRequestError),
    /// The read-and-save stage failed.
    Data(DataProcessingError),
}

/// The terminal status of an HTTP request as the host reports it.
#[derive(Clone, Copy, Debug, PartialEq, Eq, Structural)]
pub enum HttpRequestStatus {
    /// The request handle was not recognised.
    Invalid,
    /// The deadline passed before the request completed.
    DeadlineReached,
    /// The transport failed.
    IoError,
    /// The request completed with this status code.
    Finished(u16),
}

/// The worker's position within one cycle.
#[derive(Clone, Copy, Debug, PartialEq, Eq, Structural)]
pub enum WorkerState {
    /// No cycle is running.
    Idle,
    /// The cooldown has passed; the host was asked to open the request.
    StartingRequest { block_number: u64 },
    /// The request is open; the host is waiting on it under a deadline.
    AwaitingResponse { block_number: u64, request_id: u64 },
    /// The response arrived with code 200; the body is being read in
    /// chunks, all under the one reading deadline fixed for this cycle.
    ReadingBody { block_number: u64, request_id: u64, read_deadline: u64 },
    /// A chunk passed the target gate and was handed to the host to
    /// sign and submit.
    SubmittingChunk { block_number: u64, request_id: u64, read_deadline: u64 },
    /// The body was read to its end; the cycle is over.
    Finished,
    /// A stage failed; the cycle is over until the next block.
    Aborted { error: CycleError },
}

/// What came of handing the signed call to the pool.
#[derive(Clone, Copy, Debug, PartialEq, Eq, Structural)]
pub enum SubmitOutcome {
    /// The transaction was signed by `account` and accepted by the pool.
    Sent { account: u64 },
    /// No local account could sign.
    NoLocalAccountAvailable,
    /// The pool rejected the submission.
    SendFailed,
}

/// What the host reports into the machine.
#[derive(Debug, Clone, PartialEq, Eq)]
pub enum WorkerEvent {
    /// A new block triggered the worker.
    BlockArrived { block_number: u64 },
    /// The HTTP request was opened under this handle.
    RequestStarted { request_id: u64, now_ms: u64 },
    /// The transport could not open the request.
    RequestStartFailed,
    /// Waiting on the request ended with this terminal status.
    ResponseReady { status: HttpRequestStatus, now_ms: u64 },
    /// One bounded read of the body returned these bytes; empty means the
    /// stream is exhausted.
    ChunkRead { data: Vec<u8> },
    /// Reading the body failed.
    ChunkReadFailed,
    /// The signed submission ended with this outcome.
    SubmissionResult { outcome: SubmitOutcome },
}

/// What the host must do next.
#[derive(Debug, Clone, PartialEq, Eq)]
pub enum WorkerAction {
    /// Nothing: the cycle is over or was skipped.
    Nothing,
    /// Open an HTTP GET against the configured URL.
    StartRequest,
    /// Wait on the request until it terminates or the deadline passes.
    WaitResponse { request_id: u64, deadline: u64 },
    /// Read at most `max_len` body bytes under the deadline.
    ReadChunk { request_id: u64, deadline: u64, max_len: u32 },
    /// Sign this call with a local account and submit it to the pool.
    SubmitSigned { call: RuntimeCall },
}

/// The transition relation of one worker cycle: from the pallet state it
/// observes (read-only), the machine's state and the host's event, to the
/// next state and the action the host must perform. Any event that does
/// not belong to the current state leaves the machine unchanged and asks
/// for nothing.
pub open spec fn next(p: Pallet, state: WorkerState, event: WorkerEvent) -> (WorkerState,
    WorkerAction) {
    match (state, event) {
        (WorkerState::Idle, WorkerEvent::BlockArrived { block_number }) => {
            if sat_sub(block_number, p.last_save_block) < p.config.cooldown_period {
                (WorkerState::Idle, WorkerAction::Nothing)
            } else {
                (WorkerState::StartingRequest { block_number }, WorkerAction::StartRequest)
            }
        },
        (
            WorkerState::StartingRequest { block_number },
            WorkerEvent::RequestStarted { request_id, now_ms },
        ) => (
            WorkerState::AwaitingResponse { block_number, request_id },
            WorkerAction::WaitResponse {
                request_id,
                deadline: sat_add(now_ms, p.config.response_time_limit),
            },
        ),
        (WorkerState::StartingRequest { .. }, WorkerEvent::RequestStartFailed) => (
            WorkerState::Aborted { error: CycleError::Http(HttpRequestError::RequestSendingError) },
            WorkerAction::Nothing,
        ),
        (
            WorkerState::AwaitingResponse { block_number, request_id },
            WorkerEvent::ResponseReady { status, now_ms },
        ) => {
            match status {
                HttpRequestStatus::Finished(code) => {
                    if code == 200 {
                        let read_deadline = sat_add(now_ms, p.config.reading_time_limit);
                        (
                            WorkerState::ReadingBody { block_number, request_id, read_deadline },
                            WorkerAction::ReadChunk {
                                request_id,
                                deadline: read_deadline,
                                max_len: p.config.max_data_len,
                            },
                        )
                    } else {
                        (
                            WorkerState::Aborted {
                                error: CycleError::Http(HttpRequestError::ResponseBadCode),
                            },
                            WorkerAction::Nothing,
                        )
                    }
                },
                _ => (
                    WorkerState::Aborted {
                        error: CycleError::Http(HttpRequestError::RequestBadStatus),
                    },
                    WorkerAction::Nothing,
                ),
            }
        },
        (
            WorkerState::ReadingBody { block_number, request_id, read_deadline },
            WorkerEvent::ChunkRead { data },
        ) => {
            if data@.len() == 0 {
                (WorkerState::Finished, WorkerAction::Nothing)
            } else if !contains_seq(data@, p.config.target@) {
                (
                    WorkerState::Aborted {
                        error: CycleError::Data(DataProcessingError::TargetNotFound),
                    },
                    WorkerAction::Nothing,
                )
            } else {
                (
                    WorkerState::SubmittingChunk { block_number, request_id, read_deadline },
                    WorkerAction::SubmitSigned {
                        call: RuntimeCall::SaveDataChunk { data_chunk: data, block_number },
                    },
                )
            }
        },
        (WorkerState::ReadingBody { .. }, WorkerEvent::ChunkReadFailed) => (
            WorkerState::Aborted {
                error: CycleError::Data(DataProcessingError::RequestReadingError),
            },
            WorkerAction::Nothing,
        ),
        (
            WorkerState::SubmittingChunk { block_number, request_id, read_deadline },
            WorkerEvent::SubmissionResult { outcome },
        ) => {
            match outcome {
                SubmitOutcome::Sent { .. } => (
                    WorkerState::ReadingBody { block_number, request_id, read_deadline },
                    WorkerAction::ReadChunk {
                        request_id,
                        deadline: read_deadline,
                        max_len: p.config.max_data_len,
                    },
                ),
                SubmitOutcome::NoLocalAccountAvailable => (
                    WorkerState::Aborted {
                        error: CycleError::Data(
                            DataProcessingError::TransactionError(
                                TransactionSendingError::NoLocalAccountAvailable,
                            ),
                        ),
                    },
                    WorkerAction::Nothing,
                ),
                SubmitOutcome::SendFailed => (
                    WorkerState::Aborted {
                        error: CycleError::Data(
                            DataProcessingError::TransactionError(
                                TransactionSendingError::SendFailed,
                            ),
                        ),
                    },
                    WorkerAction::Nothing,
                ),
            }
        },
        (s, _) => (s, WorkerAction::Nothing),
    }
}

/// The absolute deadline `dur` milliseconds after `now_ms`.
pub fn get_deadline_for(now_ms: u64, dur: u64) -> (r: u64)
    ensures
        r == sat_add(now_ms, dur),
{
    if now_ms > u64::MAX - dur {
        u64::MAX
    } else {
        now_ms + dur
    }
}

/// One executable transition of the worker cycle; behaves exactly as
/// [`next`] specifies. `p` is the pallet state the worker observes
/// read-only.
pub fn step(p: &Pallet, state: WorkerState, event: WorkerEvent) -> (r: (
    WorkerState,
    WorkerAction,
))
    ensures
        r == next(*p, state, event),
{
    match (state, event) {
        (WorkerState::Idle, WorkerEvent::BlockArrived { block_number }) => {
            let elapsed = if block_number >= p.last_save_block {
                block_number - p.last_save_block
            } else {
                0
            };
            if elapsed < p.config.cooldown_period {
                (WorkerState::Idle, WorkerAction::Nothing)
            } else {
                (WorkerState::StartingRequest { block_number }, WorkerAction::StartRequest)
            }
        },
        (
            WorkerState::StartingRequest { block_number },
            WorkerEvent::RequestStarted { request_id, now_ms },
        ) => {
            let deadline = get_deadline_for(now_ms, p.config.response_time_limit);
            (
                WorkerState::AwaitingResponse { block_number, request_id },
                WorkerAction::WaitResponse { request_id, deadline },
            )
        },
        (WorkerState::StartingRequest { .. }, WorkerEvent::RequestStartFailed) => (
            WorkerState::Aborted { error: CycleError::Http(HttpRequestError::RequestSendingError) },
            WorkerAction::Nothing,
        ),
        (
            WorkerState::AwaitingResponse { block_number, request_id },
            WorkerEvent::ResponseReady { status, now_ms },
        ) => {
            match status {
                HttpRequestStatus::Finished(code) => {
                    if code == 200 {
                        let read_deadline = get_deadline_for(now_ms, p.config.reading_time_limit);
                        (
                            WorkerState::ReadingBody { block_number, request_id, read_deadline },
                            WorkerAction::ReadChunk {
                                request_id,
                                deadline: read_deadline,
                                max_len: p.config.max_data_len,
                            },
                        )
                    } else {
                        (
                            WorkerState::Aborted {
                                error: CycleError::Http(HttpRequestError::ResponseBadCode),
                            },
                            WorkerAction::Nothing,
                        )
                    }
                },
                _ => (
                    WorkerState::Aborted {
                        error: CycleError::Http(HttpRequestError::RequestBadStatus),
                    },
                    WorkerAction::Nothing,
                ),
            }
        },
        (
            WorkerState::ReadingBody { block_number, request_id, read_deadline },
            WorkerEvent::ChunkRead { data },
        ) => {
            if data.len() == 0 {
                (WorkerState::Finished, WorkerAction::Nothing)
            } else if !contains_subslice(&data, &p.config.target) {
                (
                    WorkerState::Aborted {
                        error: CycleError::Data(DataProcessingError::TargetNotFound),
                    },
                    WorkerAction::Nothing,
                )
            } else {
                (
                    WorkerState::SubmittingChunk { block_number, request_id, read_deadline },
                    WorkerAction::SubmitSigned {
                        call: RuntimeCall::SaveDataChunk { data_chunk: data, block_number },
                    },
                )
            }
        },
        (WorkerState::ReadingBody { .. }, WorkerEvent::ChunkReadFailed) => (
            WorkerState::Aborted {
                error: CycleError::Data(DataProcessingError::RequestReadingError),
            },
            WorkerAction::Nothing,
        ),
        (
            WorkerState::SubmittingChunk { block_number, request_id, read_deadline },
            WorkerEvent::SubmissionResult { outcome },
        ) => {
            match outcome {
                SubmitOutcome::Sent { .. } => (
                    WorkerState::ReadingBody { block_number, request_id, read_deadline },
                    WorkerAction::ReadChunk {
                        request_id,
                        deadline: read_deadline,
                        max_len: p.config.max_data_len,
                    },
                ),
                SubmitOutcome::NoLocalAccountAvailable => (
                    WorkerState::Aborted {
                        error: CycleError::Data(
                            DataProcessingError::TransactionError(
                                TransactionSendingError::NoLocalAccountAvailable,
                            ),
                        ),
                    },
                    WorkerAction::Nothing,
                ),
                SubmitOutcome::SendFailed => (
                    WorkerState::Aborted {
                        error: CycleError::Data(
                            DataProcessingError::TransactionError(
                                TransactionSendingError::SendFailed,
                            ),
                        ),
                    },
                    WorkerAction::Nothing,
                ),
            }
        },
        (s, _) => (s, WorkerAction::Nothing),
    }
}

/// Cooldown gating: while fewer blocks than the cooldown period have
/// passed since the last save, a new block leaves the worker idle and no
/// transport action is requested — the cycle is a pure no-op.
pub proof fn lemma_cooldown_gating(p: &Pallet, block_number: u64)
    requires
        sat_sub(block_number, p.last_save_block) < p.config.cooldown_period,
    ensures
        next(*p, WorkerState::Idle, WorkerEvent::BlockArrived { block_number }) == (
            WorkerState::Idle,
            WorkerAction::Nothing,
        ),
{
}

/// Abort on bad status: a response whose terminal status is anything but
/// `Finished(200)` aborts the cycle at once, and nothing is submitted.
pub proof fn lemma_bad_status_aborts(
    p: &Pallet,
    block_number: u64,
    request_id: u64,
    status: HttpRequestStatus,
    now_ms: u64,
)
    requires
        !(status matches HttpRequestStatus::Finished(code) && code == 200),
    ensures
        next(
            *p,
            WorkerState::AwaitingResponse { block_number, request_id },
            WorkerEvent::ResponseReady { status, now_ms },
        ) == (
            WorkerState::Aborted {
                error: CycleError::Http(
                    if status matches HttpRequestStatus::Finished(_) {
                        HttpRequestError::ResponseBadCode
                    } else {
                        HttpRequestError::RequestBadStatus
                    },
                ),
            },
            WorkerAction::Nothing,
        ),
{
}

/// A submission arises only while the body is being read, from a
/// successfully read, non-empty chunk in which the target occurs, and it
/// carries exactly those bytes under the cycle's block number.
pub proof fn lemma_submission_only_from_gated_chunk(
    p: Pallet,
    state: WorkerState,
    event: WorkerEvent,
)
    ensures
        next(p, state, event).1 matches WorkerAction::SubmitSigned { call } ==> {
            &&& state matches WorkerState::ReadingBody { block_number, .. }
            &&& event matches WorkerEvent::ChunkRead { data }
            &&& data@.len() > 0
            &&& contains_seq(data@, p.config.target@)
            &&& call == RuntimeCall::SaveDataChunk { data_chunk: data, block_number }
        },
{
}

/// A cycle that ended — normally or by abort — stays ended: no later event
/// changes the state or requests an action before the next block's fresh
/// cycle.
pub proof fn lemma_ended_cycle_is_inert(p: &Pallet, state: WorkerState, event: WorkerEvent)
    requires
        state matches WorkerState::Aborted { .. } || state matches WorkerState::Finished,
    ensures
        next(*p, state, event) == (state, WorkerAction::Nothing),
{
}

} // verus!
