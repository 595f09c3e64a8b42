use vstd::assert_seqs_equal;
use vstd::prelude::*;

use crate::data::{
    ChunkCommitNotification, CommitNotification, ErrorNotification, ExternalError,
    LedgerInfoWithSignatures, MetadataUpdate, StateValueChunkWithProof,
    TransactionListWithProof, TransactionOutputListWithProof,
};
use crate::error::Error;
use crate::order::{
    lemma_bounded_remove, lemma_strictly_increasing_push, strictly_increasing,
};
use crate::snapshot::{
    StateChunkOutcome, StateSnapshotMessage, StateSnapshotReceiverState, queue_positions,
};

verus! {

/// A transaction or transaction-output chunk queued for the executor stage.
/// State-value chunks travel on the snapshot receiver's own queue, so a
/// misrouted chunk cannot exist.
#[derive(Clone)]
pub enum StorageDataChunk {
    Transactions {
        notification_id: u64,
        notification_creation_time: Option<u64>,
        transaction_list: TransactionListWithProof,
        target_ledger_info: LedgerInfoWithSignatures,
        end_of_epoch_ledger_info: Option<LedgerInfoWithSignatures>,
    },
    TransactionOutputs {
        notification_id: u64,
        notification_creation_time: Option<u64>,
        output_list: TransactionOutputListWithProof,
        target_ledger_info: LedgerInfoWithSignatures,
        end_of_epoch_ledger_info: Option<LedgerInfoWithSignatures>,
    },
}

impl StorageDataChunk {
    pub open spec fn spec_notification_id(self) -> u64 {
        match self {
            StorageDataChunk::Transactions { notification_id, .. } => notification_id,
            StorageDataChunk::TransactionOutputs { notification_id, .. } => notification_id,
        }
    }

    pub open spec fn spec_creation_time(self) -> Option<u64> {
        match self {
            StorageDataChunk::Transactions { notification_creation_time, .. } => {
                notification_creation_time
            },
            StorageDataChunk::TransactionOutputs { notification_creation_time, .. } => {
                notification_creation_time
            },
        }
    }

    pub open spec fn is_transactions(self) -> bool {
        self matches StorageDataChunk::Transactions { .. }
    }

    /// The notification id the driver attached to this chunk.
    pub fn notification_id(&self) -> (r: u64)
        ensures
            r == self.spec_notification_id(),
    {
        match self {
            StorageDataChunk::Transactions { notification_id, .. } => *notification_id,
            StorageDataChunk::TransactionOutputs { notification_id, .. } => *notification_id,
        }
    }

    /// The submission timestamp the driver attached to this chunk, if any.
    pub fn notification_creation_time(&self) -> (r: Option<u64>)
        ensures
            r == self.spec_creation_time(),
    {
        match self {
            StorageDataChunk::Transactions { notification_creation_time, .. } => {
                *notification_creation_time
            },
            StorageDataChunk::TransactionOutputs { notification_creation_time, .. } => {
                *notification_creation_time
            },
        }
    }
}

/// A chunk queued for the executor stage. The ghost `admission` records the
/// chunk's position in the stream of admitted pipeline chunks.
pub struct ExecutorMessage {
    pub chunk: StorageDataChunk,
    pub admission: Ghost<int>,
}

/// The message between the executor, ledger-updater and committer stages.
pub struct PipelineMessage {
    pub notification_id: u64,
    pub notification_creation_time: Option<u64>,
    pub admission: Ghost<int>,
}

/// The message from the committer to the commit post-processor.
pub struct CommitMessage {
    pub notification: ChunkCommitNotification,
    pub notification_creation_time: Option<u64>,
    pub admission: Ghost<int>,
}

/// The admission positions of an executor queue, front first.
pub open spec fn executor_positions(q: Seq<ExecutorMessage>) -> Seq<int> {
    q.map_values(|m: ExecutorMessage| m.admission@)
}

/// The admission positions of a ledger-updater or committer queue, front
/// first.
pub open spec fn pipeline_positions(q: Seq<PipelineMessage>) -> Seq<int> {
    q.map_values(|m: PipelineMessage| m.admission@)
}

/// The admission positions of a commit post-processor queue, front first.
pub open spec fn commit_positions(q: Seq<CommitMessage>) -> Seq<int> {
    q.map_values(|m: CommitMessage| m.admission@)
}

/// The storage synchronizer: a four-stage pipeline that drives transaction
/// and transaction-output chunks through execute-or-apply, ledger update,
/// commit and post-commit fan-out, plus a one-shot state-snapshot bootstrap
/// flow. Calls into the outside collaborators (the chunk executor, the
/// ledger store, the metadata storage) happen between steps; each step takes
/// the observed result of the call it decides on, so the pipeline's behavior
/// is verified for every possible outcome.
pub struct StorageSynchronizer {
    /// The capacity of every bounded stage queue: both the pipeline depth
    /// and the admission limit.
    pub max_pending_data_chunks: u64,
    /// Chunks waiting for the executor stage.
    pub executor_queue: Vec<ExecutorMessage>,
    /// Executed chunks waiting for the ledger-updater stage.
    pub ledger_updater_queue: Vec<PipelineMessage>,
    /// Updated chunks waiting for the committer stage.
    pub committer_queue: Vec<PipelineMessage>,
    /// Committed chunks waiting for the post-commit fan-out.
    pub commit_post_processor_queue: Vec<CommitMessage>,
    /// The state-snapshot bootstrap, once initialized.
    pub state_snapshot_receiver: Option<StateSnapshotReceiverState>,
    /// The pending-work counter: chunks admitted anywhere and not yet
    /// terminal.
    pub pending_data_chunks: u64,
    /// The driver-facing commit notification channel, oldest first.
    pub commit_notifications: Vec<CommitNotification>,
    /// The driver-facing error notification channel, oldest first.
    pub error_notifications: Vec<ErrorNotification>,
    /// How many chunks the transaction pipeline has admitted.
    pub num_admitted: Ghost<int>,
    /// How many pipeline chunks died at some stage.
    pub num_failed: Ghost<int>,
    /// The admission positions of the chunks whose post-commit fan-out
    /// completed, in completion order.
    pub committed: Ghost<Seq<int>>,
}

impl StorageSynchronizer {
    /// The admission positions of every pipeline chunk that is still
    /// accounted for, most advanced first: fanned-out chunks, then the four
    /// stage queues from most to least advanced. Failed chunks are absent.
    pub open spec fn pipeline_order(self) -> Seq<int> {
        self.committed@ + commit_positions(self.commit_post_processor_queue@)
            + pipeline_positions(self.committer_queue@) + pipeline_positions(
            self.ledger_updater_queue@,
        ) + executor_positions(self.executor_queue@)
    }

    /// How many pipeline chunks sit in some stage queue.
    pub open spec fn pipeline_in_flight(self) -> int {
        self.executor_queue@.len() + self.ledger_updater_queue@.len()
            + self.committer_queue@.len() + self.commit_post_processor_queue@.len() as int
    }

    /// How many snapshot chunks were ever admitted.
    pub open spec fn snapshot_admitted(self) -> int {
        match self.state_snapshot_receiver {
            Some(receiver) => receiver.submitted_indices@.len() as int,
            None => 0,
        }
    }

    /// How many snapshot chunks sit in the snapshot queue.
    pub open spec fn snapshot_in_flight(self) -> int {
        match self.state_snapshot_receiver {
            Some(receiver) => receiver.queue@.len() as int,
            None => 0,
        }
    }

    /// How many snapshot chunks reached a terminal stage.
    pub open spec fn snapshot_terminal(self) -> int {
        self.snapshot_admitted() - self.snapshot_in_flight()
    }

    pub open spec fn well_formed(self) -> bool {
        &&& self.max_pending_data_chunks <= u64::MAX / 8
        &&& self.executor_queue@.len() <= self.max_pending_data_chunks
        &&& self.ledger_updater_queue@.len() <= self.max_pending_data_chunks
        &&& self.committer_queue@.len() <= self.max_pending_data_chunks
        &&& self.commit_post_processor_queue@.len() <= self.max_pending_data_chunks
        &&& self.pending_data_chunks as int == self.pipeline_in_flight()
            + self.snapshot_in_flight()
        &&& self.num_admitted@ >= 0
        &&& self.num_failed@ >= 0
        &&& self.num_admitted@ == self.committed@.len() + self.num_failed@
            + self.pipeline_in_flight()
        &&& strictly_increasing(self.pipeline_order())
        &&& forall|i: int|
            0 <= i < self.pipeline_order().len() ==> 0 <= #[trigger] self.pipeline_order()[i]
                < self.num_admitted@
        &&& match self.state_snapshot_receiver {
            Some(receiver) => {
                &&& receiver.well_formed()
                &&& receiver.queue@.len() <= self.max_pending_data_chunks
            },
            None => true,
        }
    }

    /// Creates an idle synchronizer with the given stage-queue capacity.
    /// The bound on the capacity is a machine limit: it keeps the pending
    /// counter within `u64` with every queue full.
    pub fn new(max_pending_data_chunks: u64) -> (s: Self)
        requires
            max_pending_data_chunks <= u64::MAX / 8,
        ensures
            s.well_formed(),
            s.max_pending_data_chunks == max_pending_data_chunks,
            s.pending_data_chunks == 0,
            s.executor_queue@.len() == 0,
            s.ledger_updater_queue@.len() == 0,
            s.committer_queue@.len() == 0,
            s.commit_post_processor_queue@.len() == 0,
            s.state_snapshot_receiver is None,
            s.commit_notifications@.len() == 0,
            s.error_notifications@.len() == 0,
            s.num_admitted@ == 0,
            s.num_failed@ == 0,
            s.committed@.len() == 0,
    {
        Self {
            max_pending_data_chunks,
            executor_queue: Vec::new(),
            ledger_updater_queue: Vec::new(),
            committer_queue: Vec::new(),
            commit_post_processor_queue: Vec::new(),
            state_snapshot_receiver: None,
            pending_data_chunks: 0,
            commit_notifications: Vec::new(),
            error_notifications: Vec::new(),
            num_admitted: Ghost(0),
            num_failed: Ghost(0),
            committed: Ghost(Seq::empty()),
        }
    }

    /// Returns true iff there is storage data still waiting to be executed,
    /// applied or committed anywhere in the pipeline.
    pub fn pending_storage_data(&self) -> (b: bool)
        ensures
            b == (self.pending_data_chunks > 0),
    {
        self.pending_data_chunks > 0
    }

    /// Maps the result of the outside `reset` call on the chunk executor to
    /// the synchronizer's own error.
    pub fn reset_chunk_executor(&self, reset_result: Result<(), ExternalError>) -> (r: Result<
        (),
        Error,
    >)
        ensures
            r is Ok <==> reset_result is Ok,
            r is Err ==> r == Err::<(), Error>(Error::FailedToResetChunkExecutor),
    {
        match reset_result {
            Ok(()) => Ok(()),
            Err(_) => Err(Error::FailedToResetChunkExecutor),
        }
    }

    /// Admits a chunk into the executor queue and counts it as pending.
    /// Refuses the chunk when the queue is full: the caller suspends and
    /// retries once the pipeline has drained (backpressure).
    fn notify_executor(&mut self, storage_data_chunk: StorageDataChunk) -> (r: Result<(), Error>)
        requires
            old(self).well_formed(),
        ensures
            final(self).well_formed(),
            old(self).executor_queue@.len() >= old(self).max_pending_data_chunks ==> r == Err::<
                (),
                Error,
            >(Error::FullExecutorQueue) && *final(self) == *old(self),
            old(self).executor_queue@.len() < old(self).max_pending_data_chunks ==> {
                &&& r == Ok::<(), Error>(())
                &&& final(self).executor_queue@ == old(self).executor_queue@.push(
                    (ExecutorMessage {
                        chunk: storage_data_chunk,
                        admission: Ghost(old(self).num_admitted@),
                    }),
                )
                &&& final(self).pending_data_chunks == old(self).pending_data_chunks + 1
                &&& final(self).num_admitted@ == old(self).num_admitted@ + 1
                &&& final(self).ledger_updater_queue == old(self).ledger_updater_queue
                &&& final(self).committer_queue == old(self).committer_queue
                &&& final(self).commit_post_processor_queue == old(
                    self,
                ).commit_post_processor_queue
                &&& final(self).state_snapshot_receiver == old(self).state_snapshot_receiver
                &&& final(self).commit_notifications == old(self).commit_notifications
                &&& final(self).error_notifications == old(self).error_notifications
                &&& final(self).max_pending_data_chunks == old(self).max_pending_data_chunks
                &&& final(self).num_failed == old(self).num_failed
                &&& final(self).committed == old(self).committed
            },
    {
        if (self.executor_queue.len() as u64) < self.max_pending_data_chunks {
            let ghost s0 = *self;
            let ghost admission = self.num_admitted@;
            let message = ExecutorMessage {
                chunk: storage_data_chunk,
                admission: Ghost(admission),
            };
            let ghost gmessage = message;
            self.executor_queue.push(message);
            self.pending_data_chunks = self.pending_data_chunks + 1;
            self.num_admitted = Ghost(admission + 1);
            proof {
                assert(executor_positions(self.executor_queue@) == executor_positions(
                    s0.executor_queue@,
                ).push(admission)) by {
                    s0.executor_queue@.lemma_push_map_commute(
                        |m: ExecutorMessage| m.admission@,
                        gmessage,
                    );
                }
                assert_seqs_equal!(self.pipeline_order() == s0.pipeline_order().push(admission));
                lemma_strictly_increasing_push(s0.pipeline_order(), admission);
            }
            Ok(())
        } else {
            Err(Error::FullExecutorQueue)
        }
    }

    /// Enqueues a transaction-output chunk for the pipeline to apply.
    /// Succeeds exactly when the executor queue has room; on success the
    /// chunk is pending until it reaches a terminal stage.
    pub fn apply_transaction_outputs(
        &mut self,
        notification_id: u64,
        notification_creation_time: Option<u64>,
        output_list_with_proof: TransactionOutputListWithProof,
        target_ledger_info: LedgerInfoWithSignatures,
        end_of_epoch_ledger_info: Option<LedgerInfoWithSignatures>,
    ) -> (r: Result<(), Error>)
        requires
            old(self).well_formed(),
        ensures
            final(self).well_formed(),
            old(self).executor_queue@.len() >= old(self).max_pending_data_chunks ==> r == Err::<
                (),
                Error,
            >(Error::FullExecutorQueue) && *final(self) == *old(self),
            old(self).executor_queue@.len() < old(self).max_pending_data_chunks ==> {
                &&& r == Ok::<(), Error>(())
                &&& final(self).executor_queue@ == old(self).executor_queue@.push(
                    (ExecutorMessage {
                        chunk: StorageDataChunk::TransactionOutputs {
                            notification_id,
                            notification_creation_time,
                            output_list: output_list_with_proof,
                            target_ledger_info,
                            end_of_epoch_ledger_info,
                        },
                        admission: Ghost(old(self).num_admitted@),
                    }),
                )
                &&& final(self).pending_data_chunks == old(self).pending_data_chunks + 1
                &&& final(self).num_admitted@ == old(self).num_admitted@ + 1
                &&& final(self).ledger_updater_queue == old(self).ledger_updater_queue
                &&& final(self).committer_queue == old(self).committer_queue
                &&& final(self).commit_post_processor_queue == old(
                    self,
                ).commit_post_processor_queue
                &&& final(self).state_snapshot_receiver == old(self).state_snapshot_receiver
                &&& final(self).commit_notifications == old(self).commit_notifications
                &&& final(self).error_notifications == old(self).error_notifications
                &&& final(self).max_pending_data_chunks == old(self).max_pending_data_chunks
                &&& final(self).num_failed == old(self).num_failed
                &&& final(self).committed == old(self).committed
            },
    {
        let storage_data_chunk = StorageDataChunk::TransactionOutputs {
            notification_id,
            notification_creation_time,
            output_list: output_list_with_proof,
            target_ledger_info,
            end_of_epoch_ledger_info,
        };
        self.notify_executor(storage_data_chunk)
    }

    /// Enqueues a transaction chunk for the pipeline to execute. Succeeds
    /// exactly when the executor queue has room; on success the chunk is
    /// pending until it reaches a terminal stage.
    pub fn execute_transactions(
        &mut self,
        notification_id: u64,
        notification_creation_time: Option<u64>,
        transaction_list_with_proof: TransactionListWithProof,
        target_ledger_info: LedgerInfoWithSignatures,
        end_of_epoch_ledger_info: Option<LedgerInfoWithSignatures>,
    ) -> (r: Result<(), Error>)
        requires
            old(self).well_formed(),
        ensures
            final(self).well_formed(),
            old(self).executor_queue@.len() >= old(self).max_pending_data_chunks ==> r == Err::<
                (),
                Error,
            >(Error::FullExecutorQueue) && *final(self) == *old(self),
            old(self).executor_queue@.len() < old(self).max_pending_data_chunks ==> {
                &&& r == Ok::<(), Error>(())
                &&& final(self).executor_queue@ == old(self).executor_queue@.push(
                    (ExecutorMessage {
                        chunk: StorageDataChunk::Transactions {
                            notification_id,
                            notification_creation_time,
                            transaction_list: transaction_list_with_proof,
                            target_ledger_info,
                            end_of_epoch_ledger_info,
                        },
                        admission: Ghost(old(self).num_admitted@),
                    }),
                )
                &&& final(self).pending_data_chunks == old(self).pending_data_chunks + 1
                &&& final(self).num_admitted@ == old(self).num_admitted@ + 1
                &&& final(self).ledger_updater_queue == old(self).ledger_updater_queue
                &&& final(self).committer_queue == old(self).committer_queue
                &&& final(self).commit_post_processor_queue == old(
                    self,
                ).commit_post_processor_queue
                &&& final(self).state_snapshot_receiver == old(self).state_snapshot_receiver
                &&& final(self).commit_notifications == old(self).commit_notifications
                &&& final(self).error_notifications == old(self).error_notifications
                &&& final(self).max_pending_data_chunks == old(self).max_pending_data_chunks
                &&& final(self).num_failed == old(self).num_failed
                &&& final(self).committed == old(self).committed
            },
    {
        let storage_data_chunk = StorageDataChunk::Transactions {
            notification_id,
            notification_creation_time,
            transaction_list: transaction_list_with_proof,
            target_ledger_info,
            end_of_epoch_ledger_info,
        };
        self.notify_executor(storage_data_chunk)
    }

    /// Initializes the state-snapshot bootstrap at the target version. The
    /// first transaction info of the target output list must carry the
    /// state-checkpoint hash the snapshot is anchored to. A synchronizer
    /// supports at most one bootstrap per instance: a second call is
    /// rejected rather than silently replacing the receiver.
    pub fn initialize_state_synchronizer(
        &mut self,
        epoch_change_proofs: Vec<LedgerInfoWithSignatures>,
        target_ledger_info: LedgerInfoWithSignatures,
        target_output_with_proof: TransactionOutputListWithProof,
    ) -> (r: Result<(), Error>)
        requires
            old(self).well_formed(),
            target_output_with_proof.proof.transaction_infos@.len() > 0,
            target_output_with_proof.proof.transaction_infos@[0].state_checkpoint_hash is Some,
        ensures
            final(self).well_formed(),
            old(self).state_snapshot_receiver is Some ==> r == Err::<(), Error>(
                Error::StateSynchronizerAlreadyInitialized,
            ) && *final(self) == *old(self),
            old(self).state_snapshot_receiver is None ==> {
                &&& r == Ok::<(), Error>(())
                &&& final(self).state_snapshot_receiver matches Some(receiver)
                    && receiver.queue@.len() == 0 && receiver.version == target_ledger_info.version
                    && receiver.expected_root_hash
                    == target_output_with_proof.proof.transaction_infos@[0].state_checkpoint_hash.unwrap()
                    && receiver.epoch_change_proofs == epoch_change_proofs
                    && receiver.target_ledger_info == target_ledger_info
                    && receiver.target_output_with_proof == target_output_with_proof
                    && receiver.metadata_update_log@.len() == 0 && !receiver.done
                    && receiver.submitted_indices@.len() == 0
                &&& final(self).pending_data_chunks == old(self).pending_data_chunks
                &&& final(self).executor_queue == old(self).executor_queue
                &&& final(self).ledger_updater_queue == old(self).ledger_updater_queue
                &&& final(self).committer_queue == old(self).committer_queue
                &&& final(self).commit_post_processor_queue == old(
                    self,
                ).commit_post_processor_queue
                &&& final(self).commit_notifications == old(self).commit_notifications
                &&& final(self).error_notifications == old(self).error_notifications
                &&& final(self).max_pending_data_chunks == old(self).max_pending_data_chunks
                &&& final(self).num_admitted == old(self).num_admitted
                &&& final(self).num_failed == old(self).num_failed
                &&& final(self).committed == old(self).committed
            },
    {
        if self.state_snapshot_receiver.is_some() {
            Err(Error::StateSynchronizerAlreadyInitialized)
        } else {
            let version = target_ledger_info.version;
            let expected_root_hash =
                target_output_with_proof.proof.transaction_infos[0].state_checkpoint_hash.unwrap();
            self.state_snapshot_receiver = Some(
                StateSnapshotReceiverState {
                    queue: Vec::new(),
                    version,
                    expected_root_hash,
                    epoch_change_proofs,
                    target_ledger_info,
                    target_output_with_proof,
                    metadata_update_log: Vec::new(),
                    done: false,
                    submitted_indices: Ghost(Seq::empty()),
                },
            );
            Ok(())
        }
    }

    /// Submits a state-value chunk to the snapshot receiver with a
    /// non-blocking try-send. Fails with a distinct error when the receiver
    /// was never initialized, when it has already terminated, or when its
    /// queue is full; in every failure case the synchronizer, including the
    /// pending counter, is left untouched.
    pub fn save_state_values(
        &mut self,
        notification_id: u64,
        state_value_chunk_with_proof: StateValueChunkWithProof,
    ) -> (r: Result<(), Error>)
        requires
            old(self).well_formed(),
        ensures
            final(self).well_formed(),
            old(self).state_snapshot_receiver is None ==> r == Err::<(), Error>(
                Error::MissingStateSnapshotReceiver,
            ) && *final(self) == *old(self),
            old(self).state_snapshot_receiver matches Some(receiver) ==> {
                &&& receiver.done ==> r == Err::<(), Error>(Error::StateSnapshotReceiverClosed)
                    && *final(self) == *old(self)
                &&& !receiver.done && receiver.queue@.len() >= old(self).max_pending_data_chunks
                    ==> r == Err::<(), Error>(Error::FullStateSnapshotQueue) && *final(self)
                    == *old(self)
                &&& !receiver.done && receiver.queue@.len() < old(self).max_pending_data_chunks
                    ==> {
                    &&& r == Ok::<(), Error>(())
                    &&& final(self).state_snapshot_receiver matches Some(updated)
                        && updated.queue@ == receiver.queue@.push(
                        (StateSnapshotMessage {
                            notification_id,
                            chunk: state_value_chunk_with_proof,
                            submission: Ghost(receiver.submitted_indices@.len() as int),
                        }),
                    ) && updated.submitted_indices@ == receiver.submitted_indices@.push(
                        state_value_chunk_with_proof.last_index,
                    ) && updated.metadata_update_log == receiver.metadata_update_log
                        && updated.done == receiver.done && updated.version == receiver.version
                        && updated.expected_root_hash == receiver.expected_root_hash
                        && updated.epoch_change_proofs == receiver.epoch_change_proofs
                        && updated.target_ledger_info == receiver.target_ledger_info
                        && updated.target_output_with_proof == receiver.target_output_with_proof
                    &&& final(self).pending_data_chunks == old(self).pending_data_chunks + 1
                    &&& final(self).executor_queue == old(self).executor_queue
                    &&& final(self).ledger_updater_queue == old(self).ledger_updater_queue
                    &&& final(self).committer_queue == old(self).committer_queue
                    &&& final(self).commit_post_processor_queue == old(
                        self,
                    ).commit_post_processor_queue
                    &&& final(self).commit_notifications == old(self).commit_notifications
                    &&& final(self).error_notifications == old(self).error_notifications
                    &&& final(self).max_pending_data_chunks == old(self).max_pending_data_chunks
                    &&& final(self).num_admitted == old(self).num_admitted
                    &&& final(self).num_failed == old(self).num_failed
                    &&& final(self).committed == old(self).committed
                }
            },
    {
        let ghost s0 = *self;
        let max_pending_data_chunks = self.max_pending_data_chunks;
        let r: Result<(), Error> = match &mut self.state_snapshot_receiver {
            None => Err(Error::MissingStateSnapshotReceiver),
            Some(receiver) => {
                if receiver.done {
                    Err(Error::StateSnapshotReceiverClosed)
                } else if !((receiver.queue.len() as u64) < max_pending_data_chunks) {
                    Err(Error::FullStateSnapshotQueue)
                } else {
                    let ghost r0 = *receiver;
                    let ghost submission = receiver.submitted_indices@.len() as int;
                    let ghost gchunk = state_value_chunk_with_proof;
                    let message = StateSnapshotMessage {
                        notification_id,
                        chunk: state_value_chunk_with_proof,
                        submission: Ghost(submission),
                    };
                    let ghost gmessage = message;
                    receiver.queue.push(message);
                    receiver.submitted_indices = Ghost(
                        r0.submitted_indices@.push(gchunk.last_index),
                    );
                    proof {
                        assert(queue_positions(receiver.queue@) == queue_positions(
                            r0.queue@,
                        ).push(submission)) by {
                            r0.queue@.lemma_push_map_commute(
                                |m: StateSnapshotMessage| m.submission@,
                                gmessage,
                            );
                        }
                        assert_seqs_equal!(receiver.positions() == r0.positions().push(submission));
                        lemma_strictly_increasing_push(r0.positions(), submission);
                        assert forall|i: int| 0 <= i < receiver.queue@.len() implies {
                            let message = #[trigger] receiver.queue@[i];
                            &&& 0 <= message.submission@ < receiver.submitted_indices@.len()
                            &&& message.chunk.last_index
                                == receiver.submitted_indices@[message.submission@]
                        } by {
                            if i < r0.queue@.len() {
                                assert(receiver.queue@[i] == r0.queue@[i]);
                            } else {
                                assert(receiver.queue@[i] == gmessage);
                            }
                        }
                        assert(receiver.well_formed());
                    }
                    Ok(())
                }
            },
        };
        if r.is_ok() {
            self.pending_data_chunks = self.pending_data_chunks + 1;
        }
        r
    }

    /// Processes the chunk at the front of the executor queue, given the
    /// observed result of the executor's enqueue call for it. On success
    /// the chunk advances to the ledger-updater stage; on failure an error
    /// notification tagged with the chunk's id is emitted and the chunk
    /// leaves the pipeline. The forward send awaits room downstream, so the
    /// ledger-updater queue must have room.
    pub fn step_executor(&mut self, execution_result: Result<(), ExternalError>)
        requires
            old(self).well_formed(),
            old(self).executor_queue@.len() > 0,
            old(self).ledger_updater_queue@.len() < old(self).max_pending_data_chunks,
        ensures
            final(self).well_formed(),
            final(self).executor_queue@ == old(self).executor_queue@.drop_first(),
            final(self).committer_queue == old(self).committer_queue,
            final(self).commit_post_processor_queue == old(self).commit_post_processor_queue,
            final(self).state_snapshot_receiver == old(self).state_snapshot_receiver,
            final(self).commit_notifications == old(self).commit_notifications,
            final(self).max_pending_data_chunks == old(self).max_pending_data_chunks,
            final(self).num_admitted == old(self).num_admitted,
            final(self).committed == old(self).committed,
            execution_result is Ok ==> {
                &&& final(self).ledger_updater_queue@ == old(self).ledger_updater_queue@.push(
                    (PipelineMessage {
                        notification_id: old(
                            self,
                        ).executor_queue@[0].chunk.spec_notification_id(),
                        notification_creation_time: old(
                            self,
                        ).executor_queue@[0].chunk.spec_creation_time(),
                        admission: old(self).executor_queue@[0].admission,
                    }),
                )
                &&& final(self).pending_data_chunks == old(self).pending_data_chunks
                &&& final(self).error_notifications == old(self).error_notifications
                &&& final(self).num_failed == old(self).num_failed
            },
            execution_result is Err ==> {
                &&& final(self).ledger_updater_queue == old(self).ledger_updater_queue
                &&& final(self).pending_data_chunks == old(self).pending_data_chunks - 1
                &&& final(self).error_notifications@ == old(self).error_notifications@.push(
                    (ErrorNotification {
                        error: if old(self).executor_queue@[0].chunk.is_transactions() {
                            Error::FailedToExecuteChunk
                        } else {
                            Error::FailedToApplyChunk
                        },
                        notification_id: old(
                            self,
                        ).executor_queue@[0].chunk.spec_notification_id(),
                    }),
                )
                &&& final(self).num_failed@ == old(self).num_failed@ + 1
            },
    {
        let ghost s0 = *self;
        let message = self.executor_queue.remove(0);
        proof {
            assert_seqs_equal!(self.executor_queue@ == s0.executor_queue@.drop_first());
        }
        let notification_id = message.chunk.notification_id();
        let notification_creation_time = message.chunk.notification_creation_time();
        match execution_result {
            Ok(()) => {
                let forwarded = PipelineMessage {
                    notification_id,
                    notification_creation_time,
                    admission: message.admission,
                };
                let ghost gforwarded = forwarded;
                self.ledger_updater_queue.push(forwarded);
                proof {
                    s0.ledger_updater_queue@.lemma_push_map_commute(
                        |m: PipelineMessage| m.admission@,
                        gforwarded,
                    );
                    assert_seqs_equal!(self.pipeline_order() == s0.pipeline_order());
                }
            },
            Err(_) => {
                let error = match &message.chunk {
                    StorageDataChunk::Transactions { .. } => Error::FailedToExecuteChunk,
                    StorageDataChunk::TransactionOutputs { .. } => Error::FailedToApplyChunk,
                };
                self.error_notifications.push(ErrorNotification { error, notification_id });
                self.pending_data_chunks = self.pending_data_chunks - 1;
                self.num_failed = Ghost(self.num_failed@ + 1);
                proof {
                    let k = s0.committed@.len() + s0.commit_post_processor_queue@.len()
                        + s0.committer_queue@.len() + s0.ledger_updater_queue@.len() as int;
                    s0.pipeline_order().remove_ensures(k);
                    assert_seqs_equal!(self.pipeline_order() == s0.pipeline_order().remove(k));
                    lemma_bounded_remove(s0.pipeline_order(), k, s0.num_admitted@);
                }
            },
        }
    }

    /// Processes the chunk at the front of the ledger-updater queue, given
    /// the observed result of the executor's `update_ledger` call. On
    /// success the chunk advances to the committer stage; on failure an
    /// error notification is emitted and the chunk leaves the pipeline.
    pub fn step_ledger_updater(&mut self, update_result: Result<(), ExternalError>)
        requires
            old(self).well_formed(),
            old(self).ledger_updater_queue@.len() > 0,
            old(self).committer_queue@.len() < old(self).max_pending_data_chunks,
        ensures
            final(self).well_formed(),
            final(self).ledger_updater_queue@ == old(self).ledger_updater_queue@.drop_first(),
            final(self).executor_queue == old(self).executor_queue,
            final(self).commit_post_processor_queue == old(self).commit_post_processor_queue,
            final(self).state_snapshot_receiver == old(self).state_snapshot_receiver,
            final(self).commit_notifications == old(self).commit_notifications,
            final(self).max_pending_data_chunks == old(self).max_pending_data_chunks,
            final(self).num_admitted == old(self).num_admitted,
            final(self).committed == old(self).committed,
            update_result is Ok ==> {
                &&& final(self).committer_queue@ == old(self).committer_queue@.push(
                    old(self).ledger_updater_queue@[0],
                )
                &&& final(self).pending_data_chunks == old(self).pending_data_chunks
                &&& final(self).error_notifications == old(self).error_notifications
                &&& final(self).num_failed == old(self).num_failed
            },
            update_result is Err ==> {
                &&& final(self).committer_queue == old(self).committer_queue
                &&& final(self).pending_data_chunks == old(self).pending_data_chunks - 1
                &&& final(self).error_notifications@ == old(self).error_notifications@.push(
                    (ErrorNotification {
                        error: Error::FailedToUpdateLedger,
                        notification_id: old(self).ledger_updater_queue@[0].notification_id,
                    }),
                )
                &&& final(self).num_failed@ == old(self).num_failed@ + 1
            },
    {
        let ghost s0 = *self;
        let message = self.ledger_updater_queue.remove(0);
        proof {
            assert_seqs_equal!(self.ledger_updater_queue@ == s0.ledger_updater_queue@.drop_first());
        }
        match update_result {
            Ok(()) => {
                let ghost gmessage = message;
                self.committer_queue.push(message);
                proof {
                    s0.committer_queue@.lemma_push_map_commute(
                        |m: PipelineMessage| m.admission@,
                        gmessage,
                    );
                    assert_seqs_equal!(self.pipeline_order() == s0.pipeline_order());
                }
            },
            Err(_) => {
                self.error_notifications.push(
                    ErrorNotification {
                        error: Error::FailedToUpdateLedger,
                        notification_id: message.notification_id,
                    },
                );
                self.pending_data_chunks = self.pending_data_chunks - 1;
                self.num_failed = Ghost(self.num_failed@ + 1);
                proof {
                    let k = s0.committed@.len() + s0.commit_post_processor_queue@.len()
                        + s0.committer_queue@.len() as int;
                    s0.pipeline_order().remove_ensures(k);
                    assert_seqs_equal!(self.pipeline_order() == s0.pipeline_order().remove(k));
                    lemma_bounded_remove(s0.pipeline_order(), k, s0.num_admitted@);
                }
            },
        }
    }

    /// Processes the chunk at the front of the committer queue, given the
    /// observed result of the executor's `commit_chunk` call. On success
    /// the executor's commit notification advances to the post-commit
    /// stage; on failure an error notification is emitted and the chunk
    /// leaves the pipeline.
    pub fn step_committer(
        &mut self,
        commit_result: Result<ChunkCommitNotification, ExternalError>,
    )
        requires
            old(self).well_formed(),
            old(self).committer_queue@.len() > 0,
            old(self).commit_post_processor_queue@.len() < old(self).max_pending_data_chunks,
        ensures
            final(self).well_formed(),
            final(self).committer_queue@ == old(self).committer_queue@.drop_first(),
            final(self).executor_queue == old(self).executor_queue,
            final(self).ledger_updater_queue == old(self).ledger_updater_queue,
            final(self).state_snapshot_receiver == old(self).state_snapshot_receiver,
            final(self).commit_notifications == old(self).commit_notifications,
            final(self).max_pending_data_chunks == old(self).max_pending_data_chunks,
            final(self).num_admitted == old(self).num_admitted,
            final(self).committed == old(self).committed,
            commit_result matches Ok(notification) ==> {
                &&& final(self).commit_post_processor_queue@ == old(
                    self,
                ).commit_post_processor_queue@.push(
                    (CommitMessage {
                        notification,
                        notification_creation_time: old(
                            self,
                        ).committer_queue@[0].notification_creation_time,
                        admission: old(self).committer_queue@[0].admission,
                    }),
                )
                &&& final(self).pending_data_chunks == old(self).pending_data_chunks
                &&& final(self).error_notifications == old(self).error_notifications
                &&& final(self).num_failed == old(self).num_failed
            },
            commit_result is Err ==> {
                &&& final(self).commit_post_processor_queue == old(
                    self,
                ).commit_post_processor_queue
                &&& final(self).pending_data_chunks == old(self).pending_data_chunks - 1
                &&& final(self).error_notifications@ == old(self).error_notifications@.push(
                    (ErrorNotification {
                        error: Error::FailedToCommitChunk,
                        notification_id: old(self).committer_queue@[0].notification_id,
                    }),
                )
                &&& final(self).num_failed@ == old(self).num_failed@ + 1
            },
    {
        let ghost s0 = *self;
        let message = self.committer_queue.remove(0);
        proof {
            assert_seqs_equal!(self.committer_queue@ == s0.committer_queue@.drop_first());
        }
        match commit_result {
            Ok(notification) => {
                let forwarded = CommitMessage {
                    notification,
                    notification_creation_time: message.notification_creation_time,
                    admission: message.admission,
                };
                let ghost gforwarded = forwarded;
                self.commit_post_processor_queue.push(forwarded);
                proof {
                    s0.commit_post_processor_queue@.lemma_push_map_commute(
                        |m: CommitMessage| m.admission@,
                        gforwarded,
                    );
                    assert_seqs_equal!(self.pipeline_order() == s0.pipeline_order());
                }
            },
            Err(_) => {
                self.error_notifications.push(
                    ErrorNotification {
                        error: Error::FailedToCommitChunk,
                        notification_id: message.notification_id,
                    },
                );
                self.pending_data_chunks = self.pending_data_chunks - 1;
                self.num_failed = Ghost(self.num_failed@ + 1);
                proof {
                    let k = s0.committed@.len() + s0.commit_post_processor_queue@.len() as int;
                    s0.pipeline_order().remove_ensures(k);
                    assert_seqs_equal!(self.pipeline_order() == s0.pipeline_order().remove(k));
                    lemma_bounded_remove(s0.pipeline_order(), k, s0.num_admitted@);
                }
            },
        }
    }

    /// Completes the post-commit fan-out for the chunk at the front of the
    /// post-processor queue: the committed transactions and events become a
    /// commit notification for the driver (whose consumer also notifies
    /// mempool, the event subscription service and the storage service),
    /// and the chunk stops being pending. Downstream notification failures
    /// do not bubble back: the commit already happened.
    pub fn step_commit_post_processor(&mut self)
        requires
            old(self).well_formed(),
            old(self).commit_post_processor_queue@.len() > 0,
        ensures
            final(self).well_formed(),
            final(self).commit_post_processor_queue@ == old(
                self,
            ).commit_post_processor_queue@.drop_first(),
            final(self).executor_queue == old(self).executor_queue,
            final(self).ledger_updater_queue == old(self).ledger_updater_queue,
            final(self).committer_queue == old(self).committer_queue,
            final(self).state_snapshot_receiver == old(self).state_snapshot_receiver,
            final(self).error_notifications == old(self).error_notifications,
            final(self).max_pending_data_chunks == old(self).max_pending_data_chunks,
            final(self).num_admitted == old(self).num_admitted,
            final(self).num_failed == old(self).num_failed,
            final(self).pending_data_chunks == old(self).pending_data_chunks - 1,
            final(self).commit_notifications@ == old(self).commit_notifications@.push(
                (CommitNotification::CommittedTransactions {
                    events: old(
                        self,
                    ).commit_post_processor_queue@[0].notification.committed_events,
                    transactions: old(
                        self,
                    ).commit_post_processor_queue@[0].notification.committed_transactions,
                }),
            ),
            final(self).committed@ == old(self).committed@.push(
                old(self).commit_post_processor_queue@[0].admission@,
            ),
    {
        let ghost s0 = *self;
        let message = self.commit_post_processor_queue.remove(0);
        proof {
            assert_seqs_equal!(
                self.commit_post_processor_queue@ == s0.commit_post_processor_queue@.drop_first()
            );
        }
        self.commit_notifications.push(
            CommitNotification::CommittedTransactions {
                events: message.notification.committed_events,
                transactions: message.notification.committed_transactions,
            },
        );
        self.pending_data_chunks = self.pending_data_chunks - 1;
        self.committed = Ghost(self.committed@.push(message.admission@));
        proof {
            assert_seqs_equal!(self.pipeline_order() == s0.pipeline_order());
        }
    }

    /// Processes the chunk at the front of the snapshot receiver's queue,
    /// given the outcome observed for it. Whatever the outcome, the chunk
    /// stops being pending; a failure surfaces as an error notification
    /// tagged with the chunk's id, and the last chunk finishes the receiver
    /// whether or not finalization succeeded. A completed bootstrap emits
    /// exactly one state-snapshot commit notification.
    pub fn step_state_snapshot_receiver(&mut self, outcome: StateChunkOutcome)
        requires
            old(self).well_formed(),
            old(self).state_snapshot_receiver matches Some(receiver) && receiver.queue@.len() > 0
                && !receiver.done,
            old(self).state_snapshot_receiver.unwrap().queue@[0].chunk.is_last_chunk ==> !(outcome
                matches StateChunkOutcome::AppendedNotLast { .. }),
            !old(self).state_snapshot_receiver.unwrap().queue@[0].chunk.is_last_chunk ==> !(
            outcome matches StateChunkOutcome::AppendedLast { .. }),
        ensures
            final(self).well_formed(),
            final(self).executor_queue == old(self).executor_queue,
            final(self).ledger_updater_queue == old(self).ledger_updater_queue,
            final(self).committer_queue == old(self).committer_queue,
            final(self).commit_post_processor_queue == old(self).commit_post_processor_queue,
            final(self).max_pending_data_chunks == old(self).max_pending_data_chunks,
            final(self).num_admitted == old(self).num_admitted,
            final(self).num_failed == old(self).num_failed,
            final(self).committed == old(self).committed,
            final(self).pending_data_chunks == old(self).pending_data_chunks - 1,
            final(self).state_snapshot_receiver matches Some(updated) && {
                let receiver = old(self).state_snapshot_receiver.unwrap();
                let front = receiver.queue@[0];
                &&& updated.queue@ == receiver.queue@.drop_first()
                &&& updated.submitted_indices == receiver.submitted_indices
                &&& updated.version == receiver.version
                &&& updated.expected_root_hash == receiver.expected_root_hash
                &&& updated.epoch_change_proofs == receiver.epoch_change_proofs
                &&& updated.target_ledger_info == receiver.target_ledger_info
                &&& updated.target_output_with_proof == receiver.target_output_with_proof
                &&& match outcome {
                    StateChunkOutcome::AppendFailed => {
                        &&& updated.metadata_update_log == receiver.metadata_update_log
                        &&& updated.done == false
                        &&& final(self).commit_notifications == old(self).commit_notifications
                        &&& final(self).error_notifications@ == old(
                            self,
                        ).error_notifications@.push(
                            (ErrorNotification {
                                error: Error::FailedToCommitStateChunk,
                                notification_id: front.notification_id,
                            }),
                        )
                    },
                    StateChunkOutcome::AppendedNotLast { metadata_result } => {
                        &&& updated.metadata_update_log@ == receiver.metadata_update_log@.push(
                            (MetadataUpdate {
                                target_version: receiver.version,
                                last_persisted_index: front.chunk.last_index,
                                all_states_synced: false,
                                position: front.submission,
                            }),
                        )
                        &&& updated.done == false
                        &&& final(self).commit_notifications == old(self).commit_notifications
                        &&& metadata_result is Ok ==> final(self).error_notifications == old(
                            self,
                        ).error_notifications
                        &&& metadata_result is Err ==> final(self).error_notifications@ == old(
                            self,
                        ).error_notifications@.push(
                            (ErrorNotification {
                                error: Error::FailedToUpdateMetadata,
                                notification_id: front.notification_id,
                            }),
                        )
                    },
                    StateChunkOutcome::AppendedLast { finalize } => {
                        &&& updated.done == true
                        &&& finalize is Complete ==> {
                            &&& updated.metadata_update_log@
                                == receiver.metadata_update_log@.push(
                                (MetadataUpdate {
                                    target_version: receiver.version,
                                    last_persisted_index: front.chunk.last_index,
                                    all_states_synced: true,
                                    position: front.submission,
                                }),
                            )
                            &&& final(self).error_notifications == old(self).error_notifications
                            &&& final(self).commit_notifications@.len() == old(
                                self,
                            ).commit_notifications@.len() + 1
                            &&& final(self).commit_notifications@.drop_last() == old(
                                self,
                            ).commit_notifications@
                            &&& final(self).commit_notifications@.last() matches
                                CommitNotification::CommittedStateSnapshot {
                                events,
                                transactions,
                                last_committed_state_index,
                                version,
                            } && events@ == crate::data::all_events_of(
                                receiver.target_output_with_proof,
                            ) && transactions@ == crate::data::transactions_of(
                                receiver.target_output_with_proof,
                            ) && last_committed_state_index == front.chunk.last_index && version
                                == receiver.version
                        }
                        &&& !(finalize is Complete) ==> final(self).commit_notifications == old(
                            self,
                        ).commit_notifications
                        &&& finalize is ReceiverFinishFailed ==> updated.metadata_update_log
                            == receiver.metadata_update_log && final(self).error_notifications@
                            == old(self).error_notifications@.push(
                            (ErrorNotification {
                                error: Error::FailedToFinishStateSnapshotReceiver,
                                notification_id: front.notification_id,
                            }),
                        )
                        &&& finalize is FinalizeSnapshotFailed ==> updated.metadata_update_log
                            == receiver.metadata_update_log && final(self).error_notifications@
                            == old(self).error_notifications@.push(
                            (ErrorNotification {
                                error: Error::FailedToFinalizeStateSnapshot,
                                notification_id: front.notification_id,
                            }),
                        )
                        &&& finalize is MetadataUpdateFailed ==> updated.metadata_update_log@
                            == receiver.metadata_update_log@.push(
                            (MetadataUpdate {
                                target_version: receiver.version,
                                last_persisted_index: front.chunk.last_index,
                                all_states_synced: true,
                                position: front.submission,
                            }),
                        ) && final(self).error_notifications@ == old(
                            self,
                        ).error_notifications@.push(
                            (ErrorNotification {
                                error: Error::FailedToUpdateMetadata,
                                notification_id: front.notification_id,
                            }),
                        )
                        &&& finalize is ExecutorResetFailed ==> updated.metadata_update_log@
                            == receiver.metadata_update_log@.push(
                            (MetadataUpdate {
                                target_version: receiver.version,
                                last_persisted_index: front.chunk.last_index,
                                all_states_synced: true,
                                position: front.submission,
                            }),
                        ) && final(self).error_notifications@ == old(
                            self,
                        ).error_notifications@.push(
                            (ErrorNotification {
                                error: Error::FailedToResetChunkExecutor,
                                notification_id: front.notification_id,
                            }),
                        )
                    },
                }
            },
    {
        let effects = match &mut self.state_snapshot_receiver {
            Some(receiver) => receiver.process_front(outcome),
            None => {
                proof {
                    assert(false);
                }
                vstd::pervasive::unreached()
            },
        };
        self.pending_data_chunks = self.pending_data_chunks - 1;
        match effects.error {
            Some(error) => {
                self.error_notifications.push(
                    ErrorNotification { error, notification_id: effects.notification_id },
                );
            },
            None => {},
        }
        match effects.commit {
            Some(notification) => {
                self.commit_notifications.push(notification);
            },
            None => {},
        }
    }

    /// True iff the executor stage has a chunk to process and the
    /// ledger-updater queue can take the forwarded message.
    pub fn can_step_executor(&self) -> (b: bool)
        ensures
            b == (self.executor_queue@.len() > 0 && self.ledger_updater_queue@.len()
                < self.max_pending_data_chunks),
    {
        self.executor_queue.len() > 0 && (self.ledger_updater_queue.len() as u64)
            < self.max_pending_data_chunks
    }

    /// True iff the ledger-updater stage has a chunk to process and the
    /// committer queue can take the forwarded message.
    pub fn can_step_ledger_updater(&self) -> (b: bool)
        ensures
            b == (self.ledger_updater_queue@.len() > 0 && self.committer_queue@.len()
                < self.max_pending_data_chunks),
    {
        self.ledger_updater_queue.len() > 0 && (self.committer_queue.len() as u64)
            < self.max_pending_data_chunks
    }

    /// True iff the committer stage has a chunk to process and the
    /// post-processor queue can take the commit notification.
    pub fn can_step_committer(&self) -> (b: bool)
        ensures
            b == (self.committer_queue@.len() > 0 && self.commit_post_processor_queue@.len()
                < self.max_pending_data_chunks),
    {
        self.committer_queue.len() > 0 && (self.commit_post_processor_queue.len() as u64)
            < self.max_pending_data_chunks
    }

    /// True iff the post-commit stage has a committed chunk to fan out.
    pub fn can_step_commit_post_processor(&self) -> (b: bool)
        ensures
            b == (self.commit_post_processor_queue@.len() > 0),
    {
        self.commit_post_processor_queue.len() > 0
    }

    /// True iff the snapshot receiver is initialized, still running, and
    /// has a chunk to process.
    pub fn can_step_state_snapshot_receiver(&self) -> (b: bool)
        ensures
            b == (self.state_snapshot_receiver matches Some(receiver) && receiver.queue@.len() > 0
                && !receiver.done),
    {
        match &self.state_snapshot_receiver {
            Some(receiver) => receiver.queue.len() > 0 && !receiver.done,
            None => false,
        }
    }
}

} // verus!
