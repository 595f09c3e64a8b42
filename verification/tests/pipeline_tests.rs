use storage_synchronizer::data::{
    ChunkCommitNotification, CommitNotification, ContractEvent, ExternalError,
    LedgerInfoWithSignatures, Transaction, TransactionListProof, TransactionListWithProof,
    TransactionOutput, TransactionOutputListWithProof,
};
use storage_synchronizer::error::Error;
use storage_synchronizer::synchronizer::StorageSynchronizer;

fn ledger_info(version: u64) -> LedgerInfoWithSignatures {
    LedgerInfoWithSignatures { version }
}

fn transaction_list(payloads: &[u64]) -> TransactionListWithProof {
    TransactionListWithProof {
        transactions: payloads.iter().map(|p| Transaction { payload: *p }).collect(),
    }
}

fn empty_output_list() -> TransactionOutputListWithProof {
    TransactionOutputListWithProof {
        transactions_and_outputs: Vec::new(),
        proof: TransactionListProof { transaction_infos: Vec::new() },
    }
}

fn commit_notification(payload: u64) -> ChunkCommitNotification {
    ChunkCommitNotification {
        committed_events: vec![ContractEvent { data: payload }],
        committed_transactions: vec![Transaction { payload }],
        reconfiguration_occurred: false,
    }
}

/// Drives the chunk at the head of the pipeline through every remaining
/// stage, with the executor succeeding and committing `payload`.
fn drive_head_to_commit(synchronizer: &mut StorageSynchronizer, payload: u64) {
    assert!(synchronizer.can_step_executor());
    synchronizer.step_executor(Ok(()));
    assert!(synchronizer.can_step_ledger_updater());
    synchronizer.step_ledger_updater(Ok(()));
    assert!(synchronizer.can_step_committer());
    synchronizer.step_committer(Ok(commit_notification(payload)));
    assert!(synchronizer.can_step_commit_post_processor());
    synchronizer.step_commit_post_processor();
}

#[test]
fn apply_three_output_chunks_commits_in_order() {
    let mut synchronizer = StorageSynchronizer::new(10);
    for id in 1..=3u64 {
        let result = synchronizer.apply_transaction_outputs(
            id,
            None,
            empty_output_list(),
            ledger_info(id),
            None,
        );
        assert!(result.is_ok());
    }
    assert_eq!(synchronizer.pending_data_chunks, 3);
    assert!(synchronizer.pending_storage_data());

    for payload in 1..=3u64 {
        drive_head_to_commit(&mut synchronizer, payload);
    }

    assert!(!synchronizer.pending_storage_data());
    assert_eq!(synchronizer.pending_data_chunks, 0);
    assert_eq!(synchronizer.commit_notifications.len(), 3);
    for (index, notification) in synchronizer.commit_notifications.iter().enumerate() {
        let payload = index as u64 + 1;
        assert_eq!(
            *notification,
            CommitNotification::CommittedTransactions {
                events: vec![ContractEvent { data: payload }],
                transactions: vec![Transaction { payload }],
            }
        );
    }
    assert!(synchronizer.error_notifications.is_empty());
}

#[test]
fn execution_failure_on_second_chunk_surfaces_its_id() {
    let mut synchronizer = StorageSynchronizer::new(10);
    for id in 1..=2u64 {
        let result = synchronizer.execute_transactions(
            id,
            Some(id * 100),
            transaction_list(&[id]),
            ledger_info(id),
            None,
        );
        assert!(result.is_ok());
    }

    // Chunk 1 executes; chunk 2 fails at the executor stage.
    synchronizer.step_executor(Ok(()));
    synchronizer.step_executor(Err(ExternalError));

    let errors = &synchronizer.error_notifications;
    assert_eq!(errors.len(), 1);
    assert_eq!(errors[0].notification_id, 2);
    assert_eq!(errors[0].error, Error::FailedToExecuteChunk);

    // Chunk 3, submitted after the failure, still completes.
    let result =
        synchronizer.execute_transactions(3, None, transaction_list(&[3]), ledger_info(3), None);
    assert!(result.is_ok());

    // Finish chunk 1, then drive chunk 3 to commit.
    synchronizer.step_ledger_updater(Ok(()));
    synchronizer.step_committer(Ok(commit_notification(1)));
    synchronizer.step_commit_post_processor();
    drive_head_to_commit(&mut synchronizer, 3);

    assert_eq!(synchronizer.commit_notifications.len(), 2);
    assert!(!synchronizer.pending_storage_data());
}

#[test]
fn full_executor_queue_refuses_until_pipeline_drains() {
    let mut synchronizer = StorageSynchronizer::new(2);
    for id in 1..=2u64 {
        let result = synchronizer.execute_transactions(
            id,
            None,
            transaction_list(&[id]),
            ledger_info(id),
            None,
        );
        assert!(result.is_ok());
    }

    // The admission limit is reached: the third chunk is refused until the
    // executor stage drains a chunk downstream.
    let refused =
        synchronizer.execute_transactions(3, None, transaction_list(&[3]), ledger_info(3), None);
    assert_eq!(refused, Err(Error::FullExecutorQueue));
    assert_eq!(synchronizer.pending_data_chunks, 2);

    synchronizer.step_executor(Ok(()));
    let admitted =
        synchronizer.execute_transactions(3, None, transaction_list(&[3]), ledger_info(3), None);
    assert!(admitted.is_ok());

    // Chunks 4 and 5 only fit as more of the pipeline drains.
    let refused =
        synchronizer.execute_transactions(4, None, transaction_list(&[4]), ledger_info(4), None);
    assert_eq!(refused, Err(Error::FullExecutorQueue));
    synchronizer.step_executor(Ok(()));
    assert!(synchronizer
        .execute_transactions(4, None, transaction_list(&[4]), ledger_info(4), None)
        .is_ok());
    let refused =
        synchronizer.execute_transactions(5, None, transaction_list(&[5]), ledger_info(5), None);
    assert_eq!(refused, Err(Error::FullExecutorQueue));

    // Drain chunks 1 and 2 fully, step chunk 3 into the pipeline, admit 5.
    synchronizer.step_ledger_updater(Ok(()));
    synchronizer.step_committer(Ok(commit_notification(1)));
    synchronizer.step_commit_post_processor();
    synchronizer.step_ledger_updater(Ok(()));
    synchronizer.step_committer(Ok(commit_notification(2)));
    synchronizer.step_commit_post_processor();
    synchronizer.step_executor(Ok(()));
    assert!(synchronizer
        .execute_transactions(5, None, transaction_list(&[5]), ledger_info(5), None)
        .is_ok());

    // Drive everything that is left to completion, in order.
    synchronizer.step_ledger_updater(Ok(()));
    synchronizer.step_committer(Ok(commit_notification(3)));
    synchronizer.step_commit_post_processor();
    drive_head_to_commit(&mut synchronizer, 4);
    drive_head_to_commit(&mut synchronizer, 5);

    assert_eq!(synchronizer.commit_notifications.len(), 5);
    for (index, notification) in synchronizer.commit_notifications.iter().enumerate() {
        let payload = index as u64 + 1;
        assert!(matches!(
            notification,
            CommitNotification::CommittedTransactions { transactions, .. }
                if transactions == &vec![Transaction { payload }]
        ));
    }
    assert!(!synchronizer.pending_storage_data());
}

#[test]
fn apply_failure_reports_apply_error_kind() {
    let mut synchronizer = StorageSynchronizer::new(4);
    let result = synchronizer.apply_transaction_outputs(
        9,
        None,
        empty_output_list(),
        ledger_info(1),
        Some(ledger_info(1)),
    );
    assert!(result.is_ok());
    synchronizer.step_executor(Err(ExternalError));
    assert_eq!(synchronizer.error_notifications.len(), 1);
    assert_eq!(synchronizer.error_notifications[0].error, Error::FailedToApplyChunk);
    assert_eq!(synchronizer.error_notifications[0].notification_id, 9);
    assert_eq!(synchronizer.pending_data_chunks, 0);
}

#[test]
fn ledger_update_failure_reports_its_error_kind() {
    let mut synchronizer = StorageSynchronizer::new(4);
    synchronizer
        .execute_transactions(11, None, transaction_list(&[1]), ledger_info(1), None)
        .unwrap();
    synchronizer.step_executor(Ok(()));
    synchronizer.step_ledger_updater(Err(ExternalError));
    assert_eq!(synchronizer.error_notifications.len(), 1);
    assert_eq!(synchronizer.error_notifications[0].error, Error::FailedToUpdateLedger);
    assert_eq!(synchronizer.error_notifications[0].notification_id, 11);
    assert!(!synchronizer.pending_storage_data());
}

#[test]
fn commit_failure_reports_its_error_kind() {
    let mut synchronizer = StorageSynchronizer::new(4);
    synchronizer
        .execute_transactions(12, None, transaction_list(&[1]), ledger_info(1), None)
        .unwrap();
    synchronizer.step_executor(Ok(()));
    synchronizer.step_ledger_updater(Ok(()));
    synchronizer.step_committer(Err(ExternalError));
    assert_eq!(synchronizer.error_notifications.len(), 1);
    assert_eq!(synchronizer.error_notifications[0].error, Error::FailedToCommitChunk);
    assert_eq!(synchronizer.error_notifications[0].notification_id, 12);
    assert!(!synchronizer.pending_storage_data());
}

#[test]
fn reset_chunk_executor_maps_the_outside_result() {
    let synchronizer = StorageSynchronizer::new(1);
    assert!(synchronizer.reset_chunk_executor(Ok(())).is_ok());
    assert_eq!(
        synchronizer.reset_chunk_executor(Err(ExternalError)),
        Err(Error::FailedToResetChunkExecutor)
    );
}

#[test]
fn pending_counter_matches_increments_and_decrements() {
    let mut synchronizer = StorageSynchronizer::new(8);
    assert!(!synchronizer.pending_storage_data());
    for id in 1..=4u64 {
        synchronizer
            .execute_transactions(id, None, transaction_list(&[id]), ledger_info(id), None)
            .unwrap();
        assert_eq!(synchronizer.pending_data_chunks, id);
    }
    // One failure and one full commit: two terminal chunks.
    synchronizer.step_executor(Err(ExternalError));
    assert_eq!(synchronizer.pending_data_chunks, 3);
    drive_head_to_commit(&mut synchronizer, 2);
    assert_eq!(synchronizer.pending_data_chunks, 2);
    assert!(synchronizer.pending_storage_data());
    drive_head_to_commit(&mut synchronizer, 3);
    drive_head_to_commit(&mut synchronizer, 4);
    assert_eq!(synchronizer.pending_data_chunks, 0);
    assert!(!synchronizer.pending_storage_data());
}

#[test]
fn transaction_output_output_events_survive_commit_fanout() {
    let mut synchronizer = StorageSynchronizer::new(2);
    synchronizer
        .apply_transaction_outputs(21, Some(7), empty_output_list(), ledger_info(4), None)
        .unwrap();
    synchronizer.step_executor(Ok(()));
    synchronizer.step_ledger_updater(Ok(()));
    let notification = ChunkCommitNotification {
        committed_events: vec![ContractEvent { data: 5 }, ContractEvent { data: 6 }],
        committed_transactions: vec![Transaction { payload: 40 }],
        reconfiguration_occurred: true,
    };
    synchronizer.step_committer(Ok(notification));
    synchronizer.step_commit_post_processor();
    assert_eq!(
        synchronizer.commit_notifications,
        vec![CommitNotification::CommittedTransactions {
            events: vec![ContractEvent { data: 5 }, ContractEvent { data: 6 }],
            transactions: vec![Transaction { payload: 40 }],
        }]
    );
    let output = TransactionOutput { events: vec![ContractEvent { data: 5 }] };
    assert_eq!(output.events.len(), 1);
}
