use vstd::prelude::*;

use crate::order::{nondecreasing, strictly_increasing};
use crate::snapshot::StateSnapshotReceiverState;
use crate::synchronizer::StorageSynchronizer;

verus! {

/// Every admitted chunk is counted as pending exactly until it reaches one
/// terminal stage: the pending counter always equals the chunks admitted
/// anywhere (pipeline or snapshot) minus the chunks that completed their
/// post-commit fan-out, died at some stage, or were consumed by the
/// snapshot receiver. So each admission's increment is matched by exactly
/// one later decrement.
pub proof fn lemma_each_admitted_chunk_settles_once(s: StorageSynchronizer)
    requires
        s.well_formed(),
    ensures
        s.pending_data_chunks as int == (s.num_admitted@ + s.snapshot_admitted()) - (
        s.committed@.len() + s.num_failed@ + s.snapshot_terminal()),
{
}

/// `pending_storage_data()` reports idle exactly when every admitted chunk
/// has reached a terminal stage: all pipeline chunks have either completed
/// their fan-out or failed, and all snapshot chunks have been consumed.
pub proof fn lemma_idle_iff_all_chunks_terminal(s: StorageSynchronizer)
    requires
        s.well_formed(),
    ensures
        (s.pending_data_chunks == 0) <==> (s.num_admitted@ == s.committed@.len() + s.num_failed@
            && s.snapshot_admitted() == s.snapshot_terminal()),
{
}

/// Post-commit fan-outs happen in admission order: the admission positions
/// of the chunks whose commit notifications were emitted form a strictly
/// increasing sequence, whatever the queue capacity and wherever other
/// chunks failed along the way.
pub proof fn lemma_commit_order_follows_submission_order(s: StorageSynchronizer)
    requires
        s.well_formed(),
    ensures
        strictly_increasing(s.committed@),
{
    assert forall|i: int, j: int| 0 <= i < j < s.committed@.len() implies s.committed@[i]
        < s.committed@[j] by {
        assert(s.pipeline_order()[i] == s.committed@[i]);
        assert(s.pipeline_order()[j] == s.committed@[j]);
    }
}

/// The snapshot receiver hands the metadata storage at most one update
/// with the all-states-synced flag set, and only as its very last update.
pub proof fn lemma_snapshot_final_update_at_most_once(receiver: StateSnapshotReceiverState)
    requires
        receiver.well_formed(),
    ensures
        forall|i: int|
            0 <= i < receiver.metadata_update_log@.len() - 1 ==> !(#[trigger] receiver.metadata_update_log@[i]).all_states_synced,
{
}

/// When the driver submits snapshot chunks with nondecreasing last
/// indices, the indices handed to the metadata storage are nondecreasing
/// as well: chunks are processed in submission order, so each logged index
/// comes from a later submission than the one before it.
pub proof fn lemma_snapshot_metadata_index_monotone(receiver: StateSnapshotReceiverState)
    requires
        receiver.well_formed(),
        nondecreasing(receiver.submitted_indices@),
    ensures
        forall|i: int, j: int|
            0 <= i <= j < receiver.metadata_update_log@.len()
                ==> (#[trigger] receiver.metadata_update_log@[i]).last_persisted_index
                <= (#[trigger] receiver.metadata_update_log@[j]).last_persisted_index,
{
    let log = receiver.metadata_update_log@;
    assert forall|i: int, j: int| 0 <= i <= j < log.len() implies (#[trigger] log[i]).last_persisted_index
        <= (#[trigger] log[j]).last_persisted_index by {
        if i < j {
            assert(receiver.positions()[i] == log[i].position@);
            assert(receiver.positions()[j] == log[j].position@);
            assert(log[i].position@ < log[j].position@);
            assert(receiver.submitted_indices@[log[i].position@]
                <= receiver.submitted_indices@[log[j].position@]);
        }
    }
}

} // verus!
