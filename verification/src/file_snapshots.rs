//! Rules for immutable file-snapshot captures: how a finished capture is
//! recorded, when the write counts, and how a listing page is bounded.
use vstd::prelude::*;

use crate::error::StorageError;

verus! {

/// Lifecycle of one file-snapshot capture.
#[derive(Clone, Copy, Debug, PartialEq, Eq, Structural)]
pub enum FileSnapshotState {
    /// The capture is still running.
    Pending,
    /// The capture finished and its manifest is immutable.
    Sealed,
    /// The capture failed.
    Failed,
}

/// The stored text of a finished capture: `sealed` or `failed`. A pending
/// capture is not finished and cannot be recorded as such.
pub fn finished_state_text(state: FileSnapshotState) -> (res: Result<&'static str, StorageError>)
    ensures
        state == FileSnapshotState::Sealed ==> (res matches Ok(t) && t@ == "sealed"@),
        state == FileSnapshotState::Failed ==> (res matches Ok(t) && t@ == "failed"@),
        state == FileSnapshotState::Pending ==> (res matches Err(StorageError::InvalidInput {
            reason,
        }) && reason@ == "snapshot is not finished"@),
{
    match state {
        FileSnapshotState::Sealed => Ok("sealed"),
        FileSnapshotState::Failed => Ok("failed"),
        FileSnapshotState::Pending => Err(
            StorageError::InvalidInput { reason: "snapshot is not finished".to_owned() },
        ),
    }
}

/// Finishing a capture must move exactly the one pending row; otherwise the
/// capture was finished concurrently and the write is stale.
pub fn finish_applied(rows_affected: u64) -> (res: Result<(), StorageError>)
    ensures
        rows_affected == 1 ==> res is Ok,
        rows_affected != 1 ==> res == Err::<(), StorageError>(
            StorageError::StaleRevision { aggregate: "file_snapshot" },
        ),
{
    if rows_affected != 1 {
        return Err(StorageError::StaleRevision { aggregate: "file_snapshot" });
    }
    Ok(())
}

/// A listing page holds between 1 and 101 captures: the requested limit
/// clamped into that range.
pub fn snapshot_page_limit(limit: u32) -> (res: i64)
    ensures
        res == (if limit < 1 {
            1
        } else if limit > 101 {
            101
        } else {
            limit as int
        }),
{
    if limit < 1 {
        1
    } else if limit > 101 {
        101
    } else {
        limit as i64
    }
}

} // verus!
