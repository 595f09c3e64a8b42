//! A verified model of a storage synchronizer: the pipeline that drives
//! verified chunks of ledger data through execution, ledger update, commit
//! and post-commit notification, plus the one-shot state-snapshot bootstrap
//! flow. Outside collaborators (the chunk executor, the ledger store, the
//! metadata storage and the notification sinks) are represented by the
//! results they hand back, so every decision the pipeline takes is verified
//! for every possible outcome of those calls.

pub mod data;
pub mod error;
pub mod order;
pub mod properties;
pub mod snapshot;
pub mod synchronizer;

pub use error::Error;
