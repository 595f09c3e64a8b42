use vstd::prelude::*;

verus! {

/// An error returned synchronously by an ingress operation of the
/// storage synchronizer.
#[derive(Clone, Copy, Debug, PartialEq, Eq, Structural)]
pub enum Error {
    /// A state-value chunk was submitted before the state snapshot
    /// receiver was initialized.
    MissingStateSnapshotReceiver,
    /// A state-value chunk was refused because the snapshot queue is
    /// full (backpressure: the caller may retry later).
    FullStateSnapshotQueue,
    /// A state-value chunk was submitted after the snapshot receiver
    /// terminated (the bootstrap finished or was abandoned).
    StateSnapshotReceiverClosed,
    /// A transaction or output chunk could not be admitted because the
    /// executor queue is full (backpressure: the caller must wait until
    /// the pipeline drains before retrying).
    FullExecutorQueue,
    /// `initialize_state_synchronizer` was called a second time; a
    /// synchronizer supports at most one bootstrap per instance.
    StateSynchronizerAlreadyInitialized,
    /// The chunk executor failed to reset.
    FailedToResetChunkExecutor,
    /// The executor failed to execute a transaction chunk.
    FailedToExecuteChunk,
    /// The executor failed to apply a transaction-output chunk.
    FailedToApplyChunk,
    /// The executor failed to update the ledger after a chunk.
    FailedToUpdateLedger,
    /// The executor failed to commit an executed chunk.
    FailedToCommitChunk,
    /// The snapshot receiver failed to append a state-value chunk.
    FailedToCommitStateChunk,
    /// The metadata storage failed to record the last persisted state index.
    FailedToUpdateMetadata,
    /// The incremental snapshot receiver failed to seal the snapshot.
    FailedToFinishStateSnapshotReceiver,
    /// The ledger store failed to finalize the state snapshot.
    FailedToFinalizeStateSnapshot,
}

} // verus!
