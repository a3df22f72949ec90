use hooks_pallet::hooks::{Config, Pallet};
use hooks_pallet::subslice::contains_subslice;
use hooks_pallet::transaction::{Origin, RuntimeCall};
use hooks_pallet::worker::{
    get_deadline_for, step, CycleError, DataProcessingError, HttpRequestError, HttpRequestStatus,
    SubmitOutcome, TransactionSendingError, WorkerAction, WorkerEvent, WorkerState,
};

fn config(cooldown_period: u64) -> Config {
    Config {
        max_data_len: 4096,
        max_chunks: 10,
        cooldown_period,
        url: String::from("https://polkadot.js.org/"),
        response_time_limit: 500,
        reading_time_limit: 200,
        target: vec![b'/'],
    }
}

/// Drive a fresh cycle up to the point where the body may be read.
fn start_reading(pallet: &Pallet, block_number: u64) -> WorkerState {
    let (state, action) = step(
        pallet,
        WorkerState::Idle,
        WorkerEvent::BlockArrived { block_number },
    );
    assert_eq!(action, WorkerAction::StartRequest);
    let (state, action) = step(
        pallet,
        state,
        WorkerEvent::RequestStarted { request_id: 7, now_ms: 1_000 },
    );
    assert_eq!(action, WorkerAction::WaitResponse { request_id: 7, deadline: 1_500 });
    let (state, action) = step(
        pallet,
        state,
        WorkerEvent::ResponseReady { status: HttpRequestStatus::Finished(200), now_ms: 1_100 },
    );
    assert_eq!(
        action,
        WorkerAction::ReadChunk { request_id: 7, deadline: 1_300, max_len: 4096 }
    );
    state
}

#[test]
fn cooldown_makes_the_cycle_a_pure_no_op() {
    // CooldownPeriod = 5, LastSaveBlock = 10, current block = 12:
    // no transport action at all.
    let mut pallet = Pallet::new(config(5));
    assert_eq!(pallet.save_data_chunk(Origin::Signed(1), vec![b'/'], 10), Ok(()));
    assert_eq!(pallet.last_save(), 10);
    let (state, action) = step(
        &pallet,
        WorkerState::Idle,
        WorkerEvent::BlockArrived { block_number: 12 },
    );
    assert_eq!(state, WorkerState::Idle);
    assert_eq!(action, WorkerAction::Nothing);
}

#[test]
fn cooldown_elapsed_starts_a_request() {
    let mut pallet = Pallet::new(config(5));
    assert_eq!(pallet.save_data_chunk(Origin::Signed(1), vec![b'/'], 10), Ok(()));
    let (state, action) = step(
        &pallet,
        WorkerState::Idle,
        WorkerEvent::BlockArrived { block_number: 15 },
    );
    assert_eq!(state, WorkerState::StartingRequest { block_number: 15 });
    assert_eq!(action, WorkerAction::StartRequest);
}

#[test]
fn end_to_end_one_chunk_cycle() {
    // MaxDataLen = 4096, MaxChunks = 10, CooldownPeriod = 0; the mock
    // transport returns 200, one 10-byte body, then end-of-stream.
    let mut pallet = Pallet::new(config(0));
    let current_block = 3u64;
    let body: Vec<u8> = b"0123/56789".to_vec();
    assert_eq!(body.len(), 10);

    let state = start_reading(&pallet, current_block);
    let (state, action) = step(&pallet, state, WorkerEvent::ChunkRead { data: body.clone() });
    let call = match action {
        WorkerAction::SubmitSigned { call } => call,
        other => panic!("expected a submission, got {:?}", other),
    };
    match call {
        RuntimeCall::SaveDataChunk { data_chunk, block_number } => {
            assert_eq!(data_chunk, body);
            assert_eq!(block_number, current_block);
            // the signed transaction lands in a block and is executed
            assert_eq!(
                pallet.save_data_chunk(Origin::Signed(1), data_chunk, block_number),
                Ok(())
            );
        },
        other => panic!("expected a save call, got {:?}", other),
    }
    let (state, action) = step(
        &pallet,
        state,
        WorkerEvent::SubmissionResult { outcome: SubmitOutcome::Sent { account: 1 } },
    );
    // the next read reuses the cycle's one reading deadline
    assert_eq!(
        action,
        WorkerAction::ReadChunk { request_id: 7, deadline: 1_300, max_len: 4096 }
    );
    let (state, action) = step(&pallet, state, WorkerEvent::ChunkRead { data: vec![] });
    assert_eq!(state, WorkerState::Finished);
    assert_eq!(action, WorkerAction::Nothing);

    assert_eq!(pallet.current_amount_of_chunks(), 1);
    assert_eq!(pallet.data_chunk(current_block, 1), Some(&body));
    assert_eq!(pallet.last_save(), current_block);
}

#[test]
fn bad_status_aborts_without_submission() {
    // The mock transport answers 404: the cycle aborts, the counter is
    // untouched, and no submission is ever requested.
    let pallet = Pallet::new(config(0));
    let (state, action) = step(
        &pallet,
        WorkerState::Idle,
        WorkerEvent::BlockArrived { block_number: 1 },
    );
    assert_eq!(action, WorkerAction::StartRequest);
    let (state, action) = step(
        &pallet,
        state,
        WorkerEvent::RequestStarted { request_id: 2, now_ms: 50 },
    );
    assert_eq!(action, WorkerAction::WaitResponse { request_id: 2, deadline: 550 });
    let (state, action) = step(
        &pallet,
        state,
        WorkerEvent::ResponseReady { status: HttpRequestStatus::Finished(404), now_ms: 60 },
    );
    assert_eq!(
        state,
        WorkerState::Aborted { error: CycleError::Http(HttpRequestError::ResponseBadCode) }
    );
    assert_eq!(action, WorkerAction::Nothing);
    // the ended cycle ignores any further event
    let (state, action) = step(&pallet, state, WorkerEvent::ChunkRead { data: vec![b'/'] });
    assert_eq!(
        state,
        WorkerState::Aborted { error: CycleError::Http(HttpRequestError::ResponseBadCode) }
    );
    assert_eq!(action, WorkerAction::Nothing);
    assert_eq!(pallet.current_amount_of_chunks(), 0);
}

#[test]
fn non_finished_status_aborts_as_bad_status() {
    let pallet = Pallet::new(config(0));
    for status in [
        HttpRequestStatus::Invalid,
        HttpRequestStatus::DeadlineReached,
        HttpRequestStatus::IoError,
    ] {
        let (_, action) = step(
            &pallet,
            WorkerState::Idle,
            WorkerEvent::BlockArrived { block_number: 1 },
        );
        assert_eq!(action, WorkerAction::StartRequest);
        let state = WorkerState::AwaitingResponse { block_number: 1, request_id: 3 };
        let (state, action) =
            step(&pallet, state, WorkerEvent::ResponseReady { status, now_ms: 10 });
        assert_eq!(
            state,
            WorkerState::Aborted { error: CycleError::Http(HttpRequestError::RequestBadStatus) }
        );
        assert_eq!(action, WorkerAction::Nothing);
    }
}

#[test]
fn request_start_failure_aborts() {
    let pallet = Pallet::new(config(0));
    let state = WorkerState::StartingRequest { block_number: 4 };
    let (state, action) = step(&pallet, state, WorkerEvent::RequestStartFailed);
    assert_eq!(
        state,
        WorkerState::Aborted { error: CycleError::Http(HttpRequestError::RequestSendingError) }
    );
    assert_eq!(action, WorkerAction::Nothing);
}

#[test]
fn chunk_without_target_aborts() {
    let pallet = Pallet::new(config(0));
    let state = start_reading(&pallet, 2);
    let (state, action) =
        step(&pallet, state, WorkerEvent::ChunkRead { data: b"no slash here".to_vec() });
    assert_eq!(
        state,
        WorkerState::Aborted { error: CycleError::Data(DataProcessingError::TargetNotFound) }
    );
    assert_eq!(action, WorkerAction::Nothing);
}

#[test]
fn read_failure_aborts() {
    let pallet = Pallet::new(config(0));
    let state = start_reading(&pallet, 2);
    let (state, action) = step(&pallet, state, WorkerEvent::ChunkReadFailed);
    assert_eq!(
        state,
        WorkerState::Aborted { error: CycleError::Data(DataProcessingError::RequestReadingError) }
    );
    assert_eq!(action, WorkerAction::Nothing);
}

#[test]
fn submission_failures_abort_with_their_reason() {
    let pallet = Pallet::new(config(0));
    let submitting = WorkerState::SubmittingChunk { block_number: 2, request_id: 7, read_deadline: 900 };
    let (state, action) = step(
        &pallet,
        submitting,
        WorkerEvent::SubmissionResult { outcome: SubmitOutcome::NoLocalAccountAvailable },
    );
    assert_eq!(
        state,
        WorkerState::Aborted {
            error: CycleError::Data(DataProcessingError::TransactionError(
                TransactionSendingError::NoLocalAccountAvailable,
            )),
        }
    );
    assert_eq!(action, WorkerAction::Nothing);
    let (state, action) = step(
        &pallet,
        submitting,
        WorkerEvent::SubmissionResult { outcome: SubmitOutcome::SendFailed },
    );
    assert_eq!(
        state,
        WorkerState::Aborted {
            error: CycleError::Data(DataProcessingError::TransactionError(
                TransactionSendingError::SendFailed,
            )),
        }
    );
    assert_eq!(action, WorkerAction::Nothing);
}

#[test]
fn mismatched_event_is_ignored() {
    let pallet = Pallet::new(config(0));
    let state = WorkerState::StartingRequest { block_number: 9 };
    let (after, action) = step(&pallet, state, WorkerEvent::ChunkRead { data: vec![1] });
    assert_eq!(after, state);
    assert_eq!(action, WorkerAction::Nothing);
}

#[test]
fn deadlines_add_and_saturate() {
    assert_eq!(get_deadline_for(1_000, 500), 1_500);
    assert_eq!(get_deadline_for(0, 0), 0);
    assert_eq!(get_deadline_for(u64::MAX - 10, 200), u64::MAX);
}

#[test]
fn subslice_containment() {
    assert!(contains_subslice(&b"0123/56789".to_vec(), &vec![b'/']));
    assert!(!contains_subslice(&b"0123456789".to_vec(), &vec![b'/']));
    assert!(contains_subslice(&b"abcdef".to_vec(), &b"cde".to_vec()));
    assert!(!contains_subslice(&b"abcdef".to_vec(), &b"cdf".to_vec()));
    // the empty needle occurs in every haystack
    assert!(contains_subslice(&b"abc".to_vec(), &Vec::new()));
    assert!(contains_subslice(&Vec::new(), &Vec::new()));
    // a needle longer than the haystack never occurs
    assert!(!contains_subslice(&b"ab".to_vec(), &b"abc".to_vec()));
    // occurrence at the very start and the very end
    assert!(contains_subslice(&b"abcd".to_vec(), &b"ab".to_vec()));
    assert!(contains_subslice(&b"abcd".to_vec(), &b"cd".to_vec()));
}
