use vstd::prelude::*;

verus! {

/// An opaque correlation tag supplied by the driver with each chunk; it is
/// echoed back in the error notification if the chunk fails at any stage.
pub type NotificationId = u64;

/// A signed commitment to a ledger version. The pipeline treats it as opaque
/// input to the executor and reads only the version, so only the version is
/// carried here.
#[derive(Clone, Copy, Debug, PartialEq, Eq, Structural)]
pub struct LedgerInfoWithSignatures {
    pub version: u64,
}

/// A single transaction, reduced to the opaque word the pipeline forwards.
#[derive(Clone, Copy, Debug, PartialEq, Eq, Structural)]
pub struct Transaction {
    pub payload: u64,
}

/// An event emitted by a committed transaction.
#[derive(Clone, Copy, Debug, PartialEq, Eq, Structural)]
pub struct ContractEvent {
    pub data: u64,
}

/// The output of one transaction; the pipeline reads only its events.
#[derive(Clone, Debug, PartialEq, Eq)]
pub struct TransactionOutput {
    pub events: Vec<ContractEvent>,
}

/// The summary of one transaction inside a proof, carrying the optional
/// state-checkpoint hash that anchors a state snapshot.
#[derive(Clone, Copy, Debug, PartialEq, Eq)]
pub struct TransactionInfo {
    pub state_checkpoint_hash: Option<u64>,
}

/// A proof-bearing list of transactions (the proofs were verified upstream,
/// so only the payload the executor consumes is modelled).
#[derive(Clone, Debug, PartialEq, Eq)]
pub struct TransactionListWithProof {
    pub transactions: Vec<Transaction>,
}

/// The proof half of an output list: one summary per transaction.
#[derive(Clone, Debug, PartialEq, Eq)]
pub struct TransactionListProof {
    pub transaction_infos: Vec<TransactionInfo>,
}

/// A proof-bearing list of transactions paired with their outputs.
#[derive(Clone, Debug, PartialEq, Eq)]
pub struct TransactionOutputListWithProof {
    pub transactions_and_outputs: Vec<(Transaction, TransactionOutput)>,
    pub proof: TransactionListProof,
}

/// A chunk of raw state key/value pairs with its range proof, streamed in
/// during a state-snapshot bootstrap. The proof and root hash are opaque
/// tokens: they were verified upstream and are only handed through to the
/// snapshot receiver.
#[derive(Clone, Debug, PartialEq, Eq)]
pub struct StateValueChunkWithProof {
    pub first_index: u64,
    pub last_index: u64,
    pub raw_values: Vec<(u64, u64)>,
    pub proof: u64,
    pub root_hash: u64,
    pub is_last_chunk: bool,
}

/// What the chunk executor reports after committing a chunk.
#[derive(Clone, Debug, PartialEq, Eq)]
pub struct ChunkCommitNotification {
    pub committed_events: Vec<ContractEvent>,
    pub committed_transactions: Vec<Transaction>,
    pub reconfiguration_occurred: bool,
}

/// A notification to the driver that data has become durable.
#[derive(Clone, Debug, PartialEq, Eq)]
pub enum CommitNotification {
    /// One chunk of transactions was committed through the pipeline.
    CommittedTransactions {
        events: Vec<ContractEvent>,
        transactions: Vec<Transaction>,
    },
    /// The state-snapshot bootstrap completed at the target version.
    CommittedStateSnapshot {
        events: Vec<ContractEvent>,
        transactions: Vec<Transaction>,
        last_committed_state_index: u64,
        version: u64,
    },
}

/// A notification to the driver that a chunk failed at some stage, tagged
/// with the chunk's notification id.
#[derive(Clone, Copy, Debug, PartialEq, Eq, Structural)]
pub struct ErrorNotification {
    pub error: crate::error::Error,
    pub notification_id: NotificationId,
}

/// One update handed to the metadata storage: the last persisted state
/// index at the bootstrap's target version, and whether all states were
/// synced with it. The ghost `position` records which submitted snapshot
/// chunk produced the update.
pub struct MetadataUpdate {
    pub target_version: u64,
    pub last_persisted_index: u64,
    pub all_states_synced: bool,
    pub position: Ghost<int>,
}

/// The failure of a call into an outside collaborator (the executor, the
/// ledger store, the metadata storage). Its content is opaque to the
/// pipeline: only the fact of failure drives a decision.
#[derive(Clone, Copy, Debug, PartialEq, Eq, Structural)]
pub struct ExternalError;

/// The transactions of an output list, in order.
pub open spec fn transactions_of(list: TransactionOutputListWithProof) -> Seq<Transaction> {
    list.transactions_and_outputs@.map_values(|p: (Transaction, TransactionOutput)| p.0)
}

/// All events of an output list, flat-mapped across the outputs in order.
pub open spec fn all_events_of(list: TransactionOutputListWithProof) -> Seq<ContractEvent> {
    list.transactions_and_outputs@.map_values(|p: (Transaction, TransactionOutput)| p.1.events@).flatten()
}

} // verus!
