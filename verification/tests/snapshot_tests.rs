use storage_synchronizer::data::{
    CommitNotification, ContractEvent, ExternalError, LedgerInfoWithSignatures,
    StateValueChunkWithProof, Transaction, TransactionInfo, TransactionListProof,
    TransactionOutput, TransactionOutputListWithProof,
};
use storage_synchronizer::error::Error;
use storage_synchronizer::snapshot::{
    FinalizeOutcome, StateChunkOutcome, create_commit_notification,
};
use storage_synchronizer::synchronizer::StorageSynchronizer;

fn ledger_info(version: u64) -> LedgerInfoWithSignatures {
    LedgerInfoWithSignatures { version }
}

fn target_outputs(checkpoint_hash: u64) -> TransactionOutputListWithProof {
    TransactionOutputListWithProof {
        transactions_and_outputs: vec![
            (
                Transaction { payload: 1 },
                TransactionOutput {
                    events: vec![ContractEvent { data: 10 }, ContractEvent { data: 11 }],
                },
            ),
            (
                Transaction { payload: 2 },
                TransactionOutput { events: vec![ContractEvent { data: 12 }] },
            ),
        ],
        proof: TransactionListProof {
            transaction_infos: vec![TransactionInfo {
                state_checkpoint_hash: Some(checkpoint_hash),
            }],
        },
    }
}

fn state_chunk(last_index: u64, is_last_chunk: bool) -> StateValueChunkWithProof {
    StateValueChunkWithProof {
        first_index: last_index.saturating_sub(9),
        last_index,
        raw_values: vec![(last_index, last_index + 1)],
        proof: 123,
        root_hash: 77,
        is_last_chunk,
    }
}

fn initialized_synchronizer(capacity: u64) -> StorageSynchronizer {
    let mut synchronizer = StorageSynchronizer::new(capacity);
    let result = synchronizer.initialize_state_synchronizer(
        vec![ledger_info(50)],
        ledger_info(100),
        target_outputs(77),
    );
    assert!(result.is_ok());
    synchronizer
}

fn metadata_ok() -> StateChunkOutcome {
    StateChunkOutcome::AppendedNotLast { metadata_result: Ok(()) }
}

#[test]
fn snapshot_happy_path_finalizes_at_target_version() {
    let mut synchronizer = initialized_synchronizer(10);
    for (id, last_index, is_last) in [(1u64, 10u64, false), (2, 20, false), (3, 30, true)] {
        let result = synchronizer.save_state_values(id, state_chunk(last_index, is_last));
        assert!(result.is_ok());
    }
    assert_eq!(synchronizer.pending_data_chunks, 3);

    synchronizer.step_state_snapshot_receiver(metadata_ok());
    synchronizer.step_state_snapshot_receiver(metadata_ok());
    synchronizer.step_state_snapshot_receiver(StateChunkOutcome::AppendedLast {
        finalize: FinalizeOutcome::Complete,
    });

    let receiver = synchronizer.state_snapshot_receiver.as_ref().unwrap();
    assert!(receiver.done);
    assert_eq!(receiver.version, 100);
    assert_eq!(receiver.expected_root_hash, 77);
    let log = &receiver.metadata_update_log;
    assert_eq!(log.len(), 3);
    let expectations = [(10u64, false), (20, false), (30, true)];
    for (entry, (last_index, all_synced)) in log.iter().zip(expectations.iter()) {
        assert_eq!(entry.target_version, 100);
        assert_eq!(entry.last_persisted_index, *last_index);
        assert_eq!(entry.all_states_synced, *all_synced);
    }

    assert_eq!(synchronizer.commit_notifications.len(), 1);
    assert_eq!(
        synchronizer.commit_notifications[0],
        CommitNotification::CommittedStateSnapshot {
            events: vec![
                ContractEvent { data: 10 },
                ContractEvent { data: 11 },
                ContractEvent { data: 12 },
            ],
            transactions: vec![Transaction { payload: 1 }, Transaction { payload: 2 }],
            last_committed_state_index: 30,
            version: 100,
        }
    );
    assert!(synchronizer.error_notifications.is_empty());
    assert!(!synchronizer.pending_storage_data());
}

#[test]
fn snapshot_append_failure_surfaces_and_receiver_continues() {
    let mut synchronizer = initialized_synchronizer(10);
    for (id, last_index, is_last) in [(1u64, 10u64, false), (2, 20, false), (3, 30, true)] {
        synchronizer.save_state_values(id, state_chunk(last_index, is_last)).unwrap();
    }

    synchronizer.step_state_snapshot_receiver(metadata_ok());
    synchronizer.step_state_snapshot_receiver(StateChunkOutcome::AppendFailed);

    assert_eq!(synchronizer.error_notifications.len(), 1);
    assert_eq!(synchronizer.error_notifications[0].notification_id, 2);
    assert_eq!(synchronizer.error_notifications[0].error, Error::FailedToCommitStateChunk);
    let receiver = synchronizer.state_snapshot_receiver.as_ref().unwrap();
    assert!(!receiver.done);
    assert_eq!(receiver.metadata_update_log.len(), 1);

    // The third chunk is still processed.
    synchronizer.step_state_snapshot_receiver(StateChunkOutcome::AppendedLast {
        finalize: FinalizeOutcome::Complete,
    });
    let receiver = synchronizer.state_snapshot_receiver.as_ref().unwrap();
    assert!(receiver.done);
    assert_eq!(synchronizer.commit_notifications.len(), 1);
    assert!(!synchronizer.pending_storage_data());
}

#[test]
fn save_state_values_before_initialization_fails_without_counting() {
    let mut synchronizer = StorageSynchronizer::new(10);
    let result = synchronizer.save_state_values(5, state_chunk(10, false));
    assert_eq!(result, Err(Error::MissingStateSnapshotReceiver));
    assert_eq!(synchronizer.pending_data_chunks, 0);
    assert!(!synchronizer.pending_storage_data());
}

#[test]
fn second_initialization_is_rejected() {
    let mut synchronizer = initialized_synchronizer(10);
    let result = synchronizer.initialize_state_synchronizer(
        vec![ledger_info(60)],
        ledger_info(200),
        target_outputs(88),
    );
    assert_eq!(result, Err(Error::StateSynchronizerAlreadyInitialized));
    // The first receiver is untouched.
    let receiver = synchronizer.state_snapshot_receiver.as_ref().unwrap();
    assert_eq!(receiver.version, 100);
    assert_eq!(receiver.expected_root_hash, 77);
}

#[test]
fn full_snapshot_queue_refuses_with_backpressure_error() {
    let mut synchronizer = initialized_synchronizer(1);
    synchronizer.save_state_values(1, state_chunk(10, false)).unwrap();
    let refused = synchronizer.save_state_values(2, state_chunk(20, false));
    assert_eq!(refused, Err(Error::FullStateSnapshotQueue));
    assert_eq!(synchronizer.pending_data_chunks, 1);

    // Draining the queue makes room again.
    synchronizer.step_state_snapshot_receiver(metadata_ok());
    assert!(synchronizer.save_state_values(2, state_chunk(20, false)).is_ok());
}

#[test]
fn save_after_bootstrap_finished_reports_closed_receiver() {
    let mut synchronizer = initialized_synchronizer(4);
    synchronizer.save_state_values(1, state_chunk(30, true)).unwrap();
    synchronizer.step_state_snapshot_receiver(StateChunkOutcome::AppendedLast {
        finalize: FinalizeOutcome::Complete,
    });
    let result = synchronizer.save_state_values(2, state_chunk(40, false));
    assert_eq!(result, Err(Error::StateSnapshotReceiverClosed));
    assert_eq!(synchronizer.pending_data_chunks, 0);
}

#[test]
fn metadata_update_failure_on_intermediate_chunk_continues() {
    let mut synchronizer = initialized_synchronizer(4);
    synchronizer.save_state_values(1, state_chunk(10, false)).unwrap();
    synchronizer.save_state_values(2, state_chunk(20, true)).unwrap();
    synchronizer.step_state_snapshot_receiver(StateChunkOutcome::AppendedNotLast {
        metadata_result: Err(ExternalError),
    });
    assert_eq!(synchronizer.error_notifications.len(), 1);
    assert_eq!(synchronizer.error_notifications[0].notification_id, 1);
    assert_eq!(synchronizer.error_notifications[0].error, Error::FailedToUpdateMetadata);
    let receiver = synchronizer.state_snapshot_receiver.as_ref().unwrap();
    assert!(!receiver.done);
    // The index was still handed to the metadata storage.
    assert_eq!(receiver.metadata_update_log.len(), 1);
    assert_eq!(receiver.metadata_update_log[0].last_persisted_index, 10);

    synchronizer.step_state_snapshot_receiver(StateChunkOutcome::AppendedLast {
        finalize: FinalizeOutcome::Complete,
    });
    assert!(!synchronizer.pending_storage_data());
}

#[test]
fn finalize_failure_abandons_bootstrap_but_finishes_receiver() {
    for (finalize, expected_error, log_entries) in [
        (FinalizeOutcome::ReceiverFinishFailed, Error::FailedToFinishStateSnapshotReceiver, 0),
        (FinalizeOutcome::FinalizeSnapshotFailed, Error::FailedToFinalizeStateSnapshot, 0),
        (FinalizeOutcome::MetadataUpdateFailed, Error::FailedToUpdateMetadata, 1),
        (FinalizeOutcome::ExecutorResetFailed, Error::FailedToResetChunkExecutor, 1),
    ] {
        let mut synchronizer = initialized_synchronizer(4);
        synchronizer.save_state_values(8, state_chunk(30, true)).unwrap();
        synchronizer
            .step_state_snapshot_receiver(StateChunkOutcome::AppendedLast { finalize });
        assert_eq!(synchronizer.error_notifications.len(), 1);
        assert_eq!(synchronizer.error_notifications[0].notification_id, 8);
        assert_eq!(synchronizer.error_notifications[0].error, expected_error);
        assert!(synchronizer.commit_notifications.is_empty());
        let receiver = synchronizer.state_snapshot_receiver.as_ref().unwrap();
        assert!(receiver.done);
        assert_eq!(receiver.metadata_update_log.len(), log_entries);
        assert!(!synchronizer.pending_storage_data());
    }
}

#[test]
fn metadata_indices_are_monotone_and_flag_final_once() {
    let mut synchronizer = initialized_synchronizer(8);
    for (id, last_index, is_last) in
        [(1u64, 5u64, false), (2, 5, false), (3, 17, false), (4, 30, true)]
    {
        synchronizer.save_state_values(id, state_chunk(last_index, is_last)).unwrap();
    }
    synchronizer.step_state_snapshot_receiver(metadata_ok());
    synchronizer.step_state_snapshot_receiver(metadata_ok());
    synchronizer.step_state_snapshot_receiver(metadata_ok());
    synchronizer.step_state_snapshot_receiver(StateChunkOutcome::AppendedLast {
        finalize: FinalizeOutcome::Complete,
    });
    let log = &synchronizer.state_snapshot_receiver.as_ref().unwrap().metadata_update_log;
    assert_eq!(log.len(), 4);
    for window in log.windows(2) {
        assert!(window[0].last_persisted_index <= window[1].last_persisted_index);
    }
    let final_updates: Vec<_> = log.iter().filter(|u| u.all_states_synced).collect();
    assert_eq!(final_updates.len(), 1);
    assert_eq!(final_updates[0].last_persisted_index, 30);
}

#[test]
fn commit_notification_unzips_transactions_and_flattens_events() {
    let notification = create_commit_notification(&target_outputs(99), 42, 7);
    assert_eq!(
        notification,
        CommitNotification::CommittedStateSnapshot {
            events: vec![
                ContractEvent { data: 10 },
                ContractEvent { data: 11 },
                ContractEvent { data: 12 },
            ],
            transactions: vec![Transaction { payload: 1 }, Transaction { payload: 2 }],
            last_committed_state_index: 42,
            version: 7,
        }
    );
}
