//! Shared admission counts only canonical ownership; there is no second
//! capacity ledger.
use vstd::prelude::*;

use crate::error::StorageError;

verus! {

/// What a Run specification version asks of admission.
#[derive(Clone, Copy, Debug, PartialEq, Eq, Structural)]
pub enum AdmissionProfile {
    /// Provider-free or historical Runs: host and Project limits only.
    NotRequired,
    /// The Run pins an execution profile whose credential account is also counted.
    Required,
}

/// Versions 1 and 5 carry no execution profile; 2 to 4, 6 and 7 pin one; every
/// other version is unsupported.
pub fn admission_profile_for(run_spec_version: u16) -> (res: Result<AdmissionProfile, StorageError>)
    ensures
        (run_spec_version == 1 || run_spec_version == 5) ==> res == Ok::<
            AdmissionProfile,
            StorageError,
        >(AdmissionProfile::NotRequired),
        ((2 <= run_spec_version <= 4) || (6 <= run_spec_version <= 7)) ==> res == Ok::<
            AdmissionProfile,
            StorageError,
        >(AdmissionProfile::Required),
        !((1 <= run_spec_version <= 7)) ==> (res matches Err(StorageError::InvalidInput { reason })
            && reason@ == "unsupported admission RunSpec"@),
{
    if run_spec_version == 1 || run_spec_version == 5 {
        Ok(AdmissionProfile::NotRequired)
    } else if (2 <= run_spec_version && run_spec_version <= 4) || (6 <= run_spec_version
        && run_spec_version <= 7) {
        Ok(AdmissionProfile::Required)
    } else {
        Err(StorageError::InvalidInput { reason: "unsupported admission RunSpec".to_owned() })
    }
}

/// A Run is admitted only when shared capacity is available.
pub fn admission_result(available: bool) -> (res: Result<(), StorageError>)
    ensures
        available ==> res is Ok,
        !available ==> res == Err::<(), StorageError>(
            StorageError::StaleRevision { aggregate: "shared Run capacity" },
        ),
{
    if available {
        Ok(())
    } else {
        Err(StorageError::StaleRevision { aggregate: "shared Run capacity" })
    }
}

/// Reads a persisted admission count or revision.
pub fn admission_count(value: i64) -> (res: Result<u64, StorageError>)
    ensures
        value >= 0 ==> res == Ok::<u64, StorageError>(value as u64),
        value < 0 ==> (res matches Err(StorageError::InvalidInput { reason }) && reason@
            == "invalid persisted admission count or revision"@),
{
    if value >= 0 {
        Ok(value as u64)
    } else {
        Err(
            StorageError::InvalidInput {
                reason: "invalid persisted admission count or revision".to_owned(),
            },
        )
    }
}

/// Reads a persisted admission limit.
pub fn admission_limit(value: i32) -> (res: Result<u16, StorageError>)
    ensures
        0 <= value <= u16::MAX ==> res == Ok::<u16, StorageError>(value as u16),
        !(0 <= value <= u16::MAX) ==> (res matches Err(StorageError::InvalidInput { reason })
            && reason@ == "invalid persisted admission limit"@),
{
    if 0 <= value && value <= 65535 {
        Ok(value as u16)
    } else {
        Err(StorageError::InvalidInput { reason: "invalid persisted admission limit".to_owned() })
    }
}

/// Changing the admission limits requires every Run to be physically
/// quiescent; re-applying the same limits is always safe.
pub fn admission_reconfiguration(limits_changed: bool, runs_occupied: bool) -> (res: Result<
    bool,
    StorageError,
>)
    ensures
        !limits_changed ==> res == Ok::<bool, StorageError>(false),
        limits_changed && !runs_occupied ==> res == Ok::<bool, StorageError>(true),
        limits_changed && runs_occupied ==> (res matches Err(StorageError::InvalidInput { reason })
            && reason@
            == "different admission configuration requires all Runs to be physically quiescent"@),
{
    if !limits_changed {
        Ok(false)
    } else if runs_occupied {
        Err(
            StorageError::InvalidInput {
                reason: "different admission configuration requires all Runs to be physically quiescent".to_owned(),
            },
        )
    } else {
        Ok(true)
    }
}

/// An Employee admits one more Run only in its own Project, while enabled,
/// and while the slots held by active Leases and unreleased environments are
/// fewer than its concurrency limit.
pub fn employee_admits_run(in_project: bool, enabled: bool, occupied: i64, max_concurrent_runs: i64) -> (res:
    bool)
    ensures
        res == (in_project && enabled && occupied < max_concurrent_runs),
{
    in_project && enabled && occupied < max_concurrent_runs
}

} // verus!
