use vstd::prelude::*;

use crate::data::{
    CommitNotification, ContractEvent, MetadataUpdate, StateValueChunkWithProof, Transaction,
    TransactionOutput, TransactionOutputListWithProof, all_events_of, transactions_of,
};
use crate::error::Error;
use crate::order::{lemma_strictly_increasing_remove, strictly_increasing};
use vstd::assert_seqs_equal;

verus! {

/// A state-value chunk queued for the snapshot receiver, tagged with the
/// driver's notification id. The ghost `submission` records the chunk's
/// position in the stream of submitted snapshot chunks.
pub struct StateSnapshotMessage {
    pub notification_id: u64,
    pub chunk: StateValueChunkWithProof,
    pub submission: Ghost<int>,
}

/// The outcome the snapshot receiver observed for one state-value chunk:
/// either the incremental append failed, or it succeeded and the follow-up
/// work (a metadata update for an intermediate chunk, the finalization
/// sequence for the last chunk) ran with the given result.
pub enum StateChunkOutcome {
    /// `add_chunk` on the incremental receiver failed.
    AppendFailed,
    /// The chunk was appended and it was not the last one; the metadata
    /// storage was asked to record its last index, with this result.
    AppendedNotLast { metadata_result: Result<(), crate::data::ExternalError> },
    /// The chunk was appended and it was the last one; the finalization
    /// sequence ran up to the given point.
    AppendedLast { finalize: FinalizeOutcome },
}

/// How far the snapshot finalization sequence got. The sequence seals the
/// incremental receiver, finalizes the snapshot in the ledger store, records
/// the final metadata entry, and resets the chunk executor; it aborts at the
/// first failure.
#[derive(Clone, Copy, Debug, PartialEq, Eq, Structural)]
pub enum FinalizeOutcome {
    /// Every step succeeded.
    Complete,
    /// Sealing the incremental receiver failed; nothing later ran.
    ReceiverFinishFailed,
    /// Finalizing the snapshot in the ledger store failed; nothing later ran.
    FinalizeSnapshotFailed,
    /// The final metadata update was attempted and failed.
    MetadataUpdateFailed,
    /// Everything up to resetting the chunk executor succeeded; the reset
    /// itself failed.
    ExecutorResetFailed,
}

/// The one-shot state machine that installs a state snapshot: created by
/// `initialize_state_synchronizer`, fed by `save_state_values`, advanced by
/// `step_state_snapshot_receiver`, and finished (`done`) after the last
/// chunk, successfully or not.
pub struct StateSnapshotReceiverState {
    /// The bounded queue of submitted, not yet processed chunks.
    pub queue: Vec<StateSnapshotMessage>,
    /// The target version of the bootstrap, read from the target ledger info.
    pub version: u64,
    /// The root hash the streamed state must check against, read from the
    /// first transaction info of the target output list.
    pub expected_root_hash: u64,
    pub epoch_change_proofs: Vec<crate::data::LedgerInfoWithSignatures>,
    pub target_ledger_info: crate::data::LedgerInfoWithSignatures,
    pub target_output_with_proof: TransactionOutputListWithProof,
    /// Every update handed to the metadata storage, in order.
    pub metadata_update_log: Vec<MetadataUpdate>,
    /// Set once the last chunk has been processed; the receiver accepts no
    /// further chunks (a second bootstrap needs a new synchronizer).
    pub done: bool,
    /// The `last_index` of every snapshot chunk ever admitted, in
    /// submission order.
    pub submitted_indices: Ghost<Seq<u64>>,
}

/// The submission positions of the queued chunks, front first.
pub open spec fn queue_positions(q: Seq<StateSnapshotMessage>) -> Seq<int> {
    q.map_values(|m: StateSnapshotMessage| m.submission@)
}

/// The submission positions of the logged metadata updates, oldest first.
pub open spec fn log_positions(log: Seq<MetadataUpdate>) -> Seq<int> {
    log.map_values(|u: MetadataUpdate| u.position@)
}

impl StateSnapshotReceiverState {
    /// All positions known to the receiver: logged updates first (they came
    /// from chunks processed earlier), then the queued chunks.
    pub open spec fn positions(self) -> Seq<int> {
        log_positions(self.metadata_update_log@) + queue_positions(self.queue@)
    }

    pub open spec fn well_formed(self) -> bool {
        &&& self.queue@.len() <= self.submitted_indices@.len()
        &&& self.version == self.target_ledger_info.version
        &&& self.target_output_with_proof.proof.transaction_infos@.len() > 0
        &&& self.target_output_with_proof.proof.transaction_infos@[0].state_checkpoint_hash
            == Some(self.expected_root_hash)
        &&& strictly_increasing(self.positions())
        &&& forall|i: int|
            0 <= i < self.queue@.len() ==> {
                let message = #[trigger] self.queue@[i];
                &&& 0 <= message.submission@ < self.submitted_indices@.len()
                &&& message.chunk.last_index == self.submitted_indices@[message.submission@]
            }
        &&& forall|i: int|
            0 <= i < self.metadata_update_log@.len() ==> {
                let update = #[trigger] self.metadata_update_log@[i];
                &&& 0 <= update.position@ < self.submitted_indices@.len()
                &&& update.last_persisted_index == self.submitted_indices@[update.position@]
                &&& update.target_version == self.version
            }
        &&& forall|i: int|
            0 <= i < self.metadata_update_log@.len()
                && (#[trigger] self.metadata_update_log@[i]).all_states_synced ==> i
                == self.metadata_update_log@.len() - 1 && self.done
    }
}

/// What one snapshot receiver step asks the synchronizer to record: the id
/// of the processed chunk, the error to surface (if any), and the commit
/// notification of a completed bootstrap (if any).
pub struct SnapshotStepEffects {
    pub notification_id: u64,
    pub error: Option<Error>,
    pub commit: Option<CommitNotification>,
}

impl StateSnapshotReceiverState {
    /// Processes the chunk at the front of the queue, given the outcome
    /// observed for it: the log records every index handed to the metadata
    /// storage, and the last chunk finishes the receiver whether or not
    /// finalization succeeded.
    pub(crate) fn process_front(&mut self, outcome: StateChunkOutcome) -> (effects:
        SnapshotStepEffects)
        requires
            old(self).well_formed(),
            old(self).queue@.len() > 0,
            !old(self).done,
            old(self).queue@[0].chunk.is_last_chunk ==> !(outcome matches
                StateChunkOutcome::AppendedNotLast { .. }),
            !old(self).queue@[0].chunk.is_last_chunk ==> !(outcome matches
                StateChunkOutcome::AppendedLast { .. }),
        ensures
            final(self).well_formed(),
            final(self).queue@ == old(self).queue@.drop_first(),
            final(self).submitted_indices == old(self).submitted_indices,
            final(self).version == old(self).version,
            final(self).expected_root_hash == old(self).expected_root_hash,
            final(self).epoch_change_proofs == old(self).epoch_change_proofs,
            final(self).target_ledger_info == old(self).target_ledger_info,
            final(self).target_output_with_proof == old(self).target_output_with_proof,
            effects.notification_id == old(self).queue@[0].notification_id,
            match outcome {
                StateChunkOutcome::AppendFailed => {
                    &&& final(self).metadata_update_log == old(self).metadata_update_log
                    &&& final(self).done == false
                    &&& effects.error == Some(Error::FailedToCommitStateChunk)
                    &&& effects.commit is None
                },
                StateChunkOutcome::AppendedNotLast { metadata_result } => {
                    &&& final(self).metadata_update_log@ == old(self).metadata_update_log@.push(
                        (MetadataUpdate {
                            target_version: old(self).version,
                            last_persisted_index: old(self).queue@[0].chunk.last_index,
                            all_states_synced: false,
                            position: old(self).queue@[0].submission,
                        }),
                    )
                    &&& final(self).done == false
                    &&& effects.commit is None
                    &&& metadata_result is Ok ==> effects.error is None
                    &&& metadata_result is Err ==> effects.error == Some(
                        Error::FailedToUpdateMetadata,
                    )
                },
                StateChunkOutcome::AppendedLast { finalize } => {
                    &&& final(self).done == true
                    &&& match finalize {
                        FinalizeOutcome::Complete => {
                            &&& final(self).metadata_update_log@ == old(
                                self,
                            ).metadata_update_log@.push(
                                (MetadataUpdate {
                                    target_version: old(self).version,
                                    last_persisted_index: old(self).queue@[0].chunk.last_index,
                                    all_states_synced: true,
                                    position: old(self).queue@[0].submission,
                                }),
                            )
                            &&& effects.error is None
                            &&& effects.commit matches Some(notification) && (notification
                                matches CommitNotification::CommittedStateSnapshot {
                                events,
                                transactions,
                                last_committed_state_index,
                                version,
                            } && events@ == all_events_of(old(self).target_output_with_proof)
                                && transactions@ == transactions_of(
                                old(self).target_output_with_proof,
                            ) && last_committed_state_index == old(self).queue@[0].chunk.last_index
                                && version == old(self).version)
                        },
                        FinalizeOutcome::ReceiverFinishFailed => {
                            &&& final(self).metadata_update_log == old(self).metadata_update_log
                            &&& effects.error == Some(Error::FailedToFinishStateSnapshotReceiver)
                            &&& effects.commit is None
                        },
                        FinalizeOutcome::FinalizeSnapshotFailed => {
                            &&& final(self).metadata_update_log == old(self).metadata_update_log
                            &&& effects.error == Some(Error::FailedToFinalizeStateSnapshot)
                            &&& effects.commit is None
                        },
                        FinalizeOutcome::MetadataUpdateFailed => {
                            &&& final(self).metadata_update_log@ == old(
                                self,
                            ).metadata_update_log@.push(
                                (MetadataUpdate {
                                    target_version: old(self).version,
                                    last_persisted_index: old(self).queue@[0].chunk.last_index,
                                    all_states_synced: true,
                                    position: old(self).queue@[0].submission,
                                }),
                            )
                            &&& effects.error == Some(Error::FailedToUpdateMetadata)
                            &&& effects.commit is None
                        },
                        FinalizeOutcome::ExecutorResetFailed => {
                            &&& final(self).metadata_update_log@ == old(
                                self,
                            ).metadata_update_log@.push(
                                (MetadataUpdate {
                                    target_version: old(self).version,
                                    last_persisted_index: old(self).queue@[0].chunk.last_index,
                                    all_states_synced: true,
                                    position: old(self).queue@[0].submission,
                                }),
                            )
                            &&& effects.error == Some(Error::FailedToResetChunkExecutor)
                            &&& effects.commit is None
                        },
                    }
                },
            },
    {
        let ghost r0 = *self;
        let message = self.queue.remove(0);
        proof {
            assert_seqs_equal!(self.queue@ == r0.queue@.drop_first());
            assert forall|i: int| 0 <= i < self.queue@.len() implies {
                let queued = #[trigger] self.queue@[i];
                &&& 0 <= queued.submission@ < self.submitted_indices@.len()
                &&& queued.chunk.last_index == self.submitted_indices@[queued.submission@]
            } by {
                assert(self.queue@[i] == r0.queue@[i + 1]);
            }
        }
        let notification_id = message.notification_id;
        let last_index = message.chunk.last_index;
        match outcome {
            StateChunkOutcome::AppendFailed => {
                proof {
                    self.lemma_positions_after_drop(r0);
                }
                SnapshotStepEffects {
                    notification_id,
                    error: Some(Error::FailedToCommitStateChunk),
                    commit: None,
                }
            },
            StateChunkOutcome::AppendedNotLast { metadata_result } => {
                self.push_metadata_update(Ghost(r0), last_index, false, message.submission);
                let error = match metadata_result {
                    Ok(()) => None,
                    Err(_) => Some(Error::FailedToUpdateMetadata),
                };
                SnapshotStepEffects { notification_id, error, commit: None }
            },
            StateChunkOutcome::AppendedLast { finalize } => {
                self.done = true;
                match finalize {
                    FinalizeOutcome::Complete => {
                        self.push_metadata_update(Ghost(r0), last_index, true, message.submission);
                        let notification = create_commit_notification(
                            &self.target_output_with_proof,
                            last_index,
                            self.version,
                        );
                        SnapshotStepEffects {
                            notification_id,
                            error: None,
                            commit: Some(notification),
                        }
                    },
                    FinalizeOutcome::ReceiverFinishFailed => {
                        proof {
                            self.lemma_positions_after_drop(r0);
                        }
                        SnapshotStepEffects {
                            notification_id,
                            error: Some(Error::FailedToFinishStateSnapshotReceiver),
                            commit: None,
                        }
                    },
                    FinalizeOutcome::FinalizeSnapshotFailed => {
                        proof {
                            self.lemma_positions_after_drop(r0);
                        }
                        SnapshotStepEffects {
                            notification_id,
                            error: Some(Error::FailedToFinalizeStateSnapshot),
                            commit: None,
                        }
                    },
                    FinalizeOutcome::MetadataUpdateFailed => {
                        self.push_metadata_update(Ghost(r0), last_index, true, message.submission);
                        SnapshotStepEffects {
                            notification_id,
                            error: Some(Error::FailedToUpdateMetadata),
                            commit: None,
                        }
                    },
                    FinalizeOutcome::ExecutorResetFailed => {
                        self.push_metadata_update(Ghost(r0), last_index, true, message.submission);
                        SnapshotStepEffects {
                            notification_id,
                            error: Some(Error::FailedToResetChunkExecutor),
                            commit: None,
                        }
                    },
                }
            },
        }
    }

    /// After the front of `r0.queue` was removed and nothing else changed,
    /// the receiver's positions are `r0`'s with the front queue position
    /// taken out, so they stay strictly increasing.
    proof fn lemma_positions_after_drop(&self, r0: Self)
        requires
            r0.well_formed(),
            r0.queue@.len() > 0,
            self.queue@ == r0.queue@.drop_first(),
            self.metadata_update_log == r0.metadata_update_log,
            self.submitted_indices == r0.submitted_indices,
        ensures
            strictly_increasing(self.positions()),
    {
        let k = log_positions(r0.metadata_update_log@).len() as int;
        r0.positions().remove_ensures(k);
        assert_seqs_equal!(self.positions() == r0.positions().remove(k));
        lemma_strictly_increasing_remove(r0.positions(), k);
    }

    /// Appends one metadata update for the chunk that sat at the front of
    /// `r0`'s queue, preserving well-formedness: the logged position takes
    /// the place the queue front held in the position order.
    fn push_metadata_update(
        &mut self,
        Ghost(r0): Ghost<Self>,
        last_index: u64,
        all_states_synced: bool,
        position: Ghost<int>,
    )
        requires
            r0.well_formed(),
            r0.queue@.len() > 0,
            r0.queue@[0].chunk.last_index == last_index,
            r0.queue@[0].submission == position,
            old(self).queue@ == r0.queue@.drop_first(),
            old(self).metadata_update_log == r0.metadata_update_log,
            old(self).submitted_indices == r0.submitted_indices,
            old(self).version == r0.version,
            all_states_synced ==> old(self).done,
            !all_states_synced ==> old(self).done == r0.done,
            !r0.done,
        ensures
            final(self).metadata_update_log@ == old(self).metadata_update_log@.push(
                (MetadataUpdate {
                    target_version: old(self).version,
                    last_persisted_index: last_index,
                    all_states_synced,
                    position,
                }),
            ),
            final(self).queue == old(self).queue,
            final(self).submitted_indices == old(self).submitted_indices,
            final(self).version == old(self).version,
            final(self).expected_root_hash == old(self).expected_root_hash,
            final(self).epoch_change_proofs == old(self).epoch_change_proofs,
            final(self).target_ledger_info == old(self).target_ledger_info,
            final(self).target_output_with_proof == old(self).target_output_with_proof,
            final(self).done == old(self).done,
            strictly_increasing(final(self).positions()),
            forall|i: int|
                0 <= i < final(self).metadata_update_log@.len() ==> {
                    let update = #[trigger] final(self).metadata_update_log@[i];
                    &&& 0 <= update.position@ < final(self).submitted_indices@.len()
                    &&& update.last_persisted_index
                        == final(self).submitted_indices@[update.position@]
                    &&& update.target_version == final(self).version
                },
            forall|i: int|
                0 <= i < final(self).metadata_update_log@.len() && (#[trigger] final(
                    self).metadata_update_log@[i]).all_states_synced ==> i == final(
                    self).metadata_update_log@.len() - 1 && final(self).done,
    {
        let update = MetadataUpdate {
            target_version: self.version,
            last_persisted_index: last_index,
            all_states_synced,
            position,
        };
        let ghost gupdate = update;
        self.metadata_update_log.push(update);
        proof {
            r0.metadata_update_log@.lemma_push_map_commute(
                |u: MetadataUpdate| u.position@,
                gupdate,
            );
            assert_seqs_equal!(self.positions() == r0.positions());
            assert forall|i: int| 0 <= i < self.metadata_update_log@.len() implies {
                let entry = #[trigger] self.metadata_update_log@[i];
                &&& 0 <= entry.position@ < self.submitted_indices@.len()
                &&& entry.last_persisted_index == self.submitted_indices@[entry.position@]
                &&& entry.target_version == self.version
            } by {
                if i < r0.metadata_update_log@.len() {
                    assert(self.metadata_update_log@[i] == r0.metadata_update_log@[i]);
                } else {
                    assert(self.metadata_update_log@[i] == gupdate);
                    assert(r0.queue@[0].chunk.last_index
                        == r0.submitted_indices@[r0.queue@[0].submission@]);
                }
            }
            assert forall|i: int|
                0 <= i < self.metadata_update_log@.len() && (#[trigger] self.metadata_update_log@[i]).all_states_synced implies i
                == self.metadata_update_log@.len() - 1 && self.done by {
                if i < r0.metadata_update_log@.len() {
                    assert(self.metadata_update_log@[i] == r0.metadata_update_log@[i]);
                }
            }
        }
    }
}

/// Builds the driver-facing commit notification for a completed snapshot:
/// the transactions are unzipped from the target output list and the events
/// are flat-mapped across its outputs, in order.
#[verifier::loop_isolation(false)]
pub fn create_commit_notification(
    target_output_with_proof: &TransactionOutputListWithProof,
    last_committed_state_index: u64,
    version: u64,
) -> (notification: CommitNotification)
    ensures
        (notification matches CommitNotification::CommittedStateSnapshot {
            events,
            transactions,
            last_committed_state_index: index,
            version: v,
        } && events@ == all_events_of(*target_output_with_proof) && transactions@
            == transactions_of(*target_output_with_proof) && index == last_committed_state_index
            && v == version),
{
    let pairs = &target_output_with_proof.transactions_and_outputs;
    let ghost fst = |p: (Transaction, TransactionOutput)| p.0;
    let ghost evs_of = |p: (Transaction, TransactionOutput)| p.1.events@;
    let mut transactions: Vec<Transaction> = Vec::new();
    let mut events: Vec<ContractEvent> = Vec::new();
    let mut i: usize = 0;
    while i < pairs.len()
        invariant
            0 <= i <= pairs@.len(),
            transactions@ == pairs@.subrange(0, i as int).map_values(fst),
            events@ == pairs@.subrange(0, i as int).map_values(evs_of).flatten(),
        decreases pairs@.len() - i,
    {
        let ghost prefix = pairs@.subrange(0, i as int);
        transactions.push(pairs[i].0);
        let output_events = &pairs[i].1.events;
        let mut j: usize = 0;
        while j < output_events.len()
            invariant
                0 <= j <= output_events@.len(),
                events@ == prefix.map_values(evs_of).flatten() + output_events@.subrange(
                    0,
                    j as int,
                ),
            decreases output_events@.len() - j,
        {
            events.push(output_events[j]);
            proof {
                assert(output_events@.subrange(0, j + 1) == output_events@.subrange(
                    0,
                    j as int,
                ).push(output_events@[j as int]));
            }
            j += 1;
        }
        proof {
            assert(pairs@.subrange(0, i + 1) == prefix.push(pairs@[i as int]));
            prefix.lemma_push_map_commute(fst, pairs@[i as int]);
            prefix.lemma_push_map_commute(evs_of, pairs@[i as int]);
            prefix.map_values(evs_of).lemma_flatten_push(evs_of(pairs@[i as int]));
            assert(output_events@.subrange(0, output_events@.len() as int) == output_events@);
        }
        i += 1;
    }
    proof {
        assert(pairs@.subrange(0, pairs@.len() as int) == pairs@);
    }
    CommitNotification::CommittedStateSnapshot {
        events,
        transactions,
        last_committed_state_index,
        version,
    }
}

} // verus!
