//! Typed failures at Forge's persistence boundary.
use vstd::prelude::*;

verus! {

/// A failure that callers can classify without parsing a database error string.
///
/// Driver, migration and JSON decoding failures are raised by the database
/// adapter that performs the I/O; the variants here are those that the storage
/// rules themselves decide.
#[derive(Clone, Debug, PartialEq, Eq)]
pub enum StorageError {
    /// A stored snapshot decoded but violates its aggregate's own invariants;
    /// the rejecting domain rule is reported by the caller that ran it.
    SnapshotInvariant {
        /// Aggregate whose persisted state was structurally invalid.
        aggregate: &'static str,
    },
    /// A column that the row's own kind requires is NULL. The database
    /// adapter reports it as the driver's column-decode failure.
    NullColumn {
        /// Column name.
        column: &'static str,
    },
    /// A JSON column required an object or array but received another JSON shape.
    InvalidJsonShape {
        /// Safe logical field name.
        field: &'static str,
        /// Required JSON shape.
        expected: &'static str,
    },
    /// A domain integer cannot fit into PostgreSQL's signed integer representation.
    IntegerOutOfRange {
        /// Safe logical field name.
        field: &'static str,
    },
    /// A required durable aggregate does not exist in its Project scope.
    NotFound {
        /// Aggregate category safe to expose to a local operator.
        aggregate: &'static str,
    },
    /// A write was rejected because the projection revision changed first.
    StaleRevision {
        /// Aggregate category safe to expose to a local operator.
        aggregate: &'static str,
    },
    /// An ExecutorSubmission Artifact receipt was already mapped to immutable evidence.
    ExecutorArtifactReceiptAlreadyMapped,
    /// An input violates a storage-only structural invariant.
    InvalidInput {
        /// Safe structural explanation.
        reason: String,
    },
}

} // verus!
