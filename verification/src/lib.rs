//! Verified decision logic of Forge's canonical storage: fenced Run message
//! ordering and the observed/desired Run lifecycle, dispatch and admission
//! gates, Communication and resolver ownership, Gateway authorization and
//! dedupe, bounded outbox claims, required-hook acceptance, knowledge
//! revisions, exact-byte evidence redaction, local evidence spool accounting
//! and layout, and the schema contract.
//!
//! Database, filesystem and object-store access are performed by callers; this
//! crate decides what those effects mean and which values they may carry.

pub mod admission;
pub mod assignments;
pub mod error;
pub mod evidence;
pub mod executor_artifacts;
pub mod file_snapshots;
pub mod gateway;
pub mod hooks;
pub mod ids;
pub mod knowledge;
pub mod model;
pub mod outbox;
pub mod read;
pub mod resolution;
pub mod run_lifecycle;
pub mod run_reads;
pub mod runtime;
pub mod scheduler;
pub mod schema;
pub mod text;

pub use error::StorageError;
pub use model::{
    QueueState, RunDesiredState, RunObservedState, i32_to_u32, i64_to_u64, u32_to_i32,
    u64_to_i64,
};
pub use executor_artifacts::{ExecutorArtifactReceipt, ExecutorArtifactRunScope};
pub use outbox::{OutboxClaimRequest, OutboxFailureMark, OutboxPublishMark};
pub use run_lifecycle::{FencedWrite, SequenceDecision};
