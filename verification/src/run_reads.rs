//! Run reads: the owner rules every stored Run must satisfy before it is
//! exposed. An Employee owns every Run except a hook Run; a Communication or
//! Resolution Run's context names the Run's own assignment, Project, Employee
//! and Run; a hook Run is ownerless and carries no Task, queue entry or stage.
use vstd::prelude::*;

use crate::error::StorageError;
use crate::model::{i32_to_u32, i64_to_u64};
use crate::text::text_equals;

verus! {

/// What a Run executes.
#[derive(Clone, Copy, Debug, PartialEq, Eq, Structural)]
pub enum RunPurpose {
    /// One stage of a Task, leased from its queue entry.
    TaskStage,
    /// An Employee answering a Communication assignment.
    Communication,
    /// An Employee resolving an escalation.
    Resolution,
    /// An ownerless project hook.
    Hook,
}

/// The storage text of a Run purpose.
pub open spec fn purpose_text(purpose: RunPurpose) -> Seq<char> {
    match purpose {
        RunPurpose::TaskStage => "task_stage"@,
        RunPurpose::Communication => "communication"@,
        RunPurpose::Resolution => "resolution"@,
        RunPurpose::Hook => "hook"@,
    }
}

impl RunPurpose {
    /// The storage text of this purpose.
    pub fn as_str(self) -> (res: &'static str)
        ensures
            res@ == purpose_text(self),
    {
        match self {
            RunPurpose::TaskStage => "task_stage",
            RunPurpose::Communication => "communication",
            RunPurpose::Resolution => "resolution",
            RunPurpose::Hook => "hook",
        }
    }

    /// Reads a stored purpose; any other text is an unsupported assignment.
    pub fn from_storage(text: &str) -> (res: Result<RunPurpose, StorageError>)
        ensures
            res matches Ok(p) ==> purpose_text(p) == text@,
            (forall|p: RunPurpose| purpose_text(p) != text@) ==> (res matches Err(
                StorageError::InvalidInput { reason },
            ) && reason@ == "unsupported execution assignment"@),
            (exists|p: RunPurpose| purpose_text(p) == text@) ==> res is Ok,
    {
        if text_equals(text, "task_stage") {
            assert(purpose_text(RunPurpose::TaskStage) == text@);
            Ok(RunPurpose::TaskStage)
        } else if text_equals(text, "communication") {
            assert(purpose_text(RunPurpose::Communication) == text@);
            Ok(RunPurpose::Communication)
        } else if text_equals(text, "resolution") {
            assert(purpose_text(RunPurpose::Resolution) == text@);
            Ok(RunPurpose::Resolution)
        } else if text_equals(text, "hook") {
            assert(purpose_text(RunPurpose::Hook) == text@);
            Ok(RunPurpose::Hook)
        } else {
            proof {
                assert forall|p: RunPurpose| purpose_text(p) != text@ by {
                    match p {
                        RunPurpose::TaskStage => {},
                        RunPurpose::Communication => {},
                        RunPurpose::Resolution => {},
                        RunPurpose::Hook => {},
                    }
                }
            }
            Err(StorageError::InvalidInput { reason: "unsupported execution assignment".to_owned() })
        }
    }
}

/// Reads a Run's purpose. The Employee owner is checked first: a Run has an
/// Employee exactly when its purpose text is not `hook`. Only then is the
/// purpose itself read.
pub fn check_run_purpose(purpose: &str, employee_id: Option<u128>) -> (res: Result<
    RunPurpose,
    StorageError,
>)
    ensures
        (purpose@ == "hook"@) != (employee_id is None) ==> (res matches Err(
            StorageError::InvalidInput { reason },
        ) && reason@ == "execution Employee owner differs from purpose"@),
        (purpose@ == "hook"@) == (employee_id is None) && (forall|p: RunPurpose|
            purpose_text(p) != purpose@) ==> (res matches Err(StorageError::InvalidInput { reason })
            && reason@ == "unsupported execution assignment"@),
        res matches Ok(p) ==> purpose_text(p) == purpose@ && (p == RunPurpose::Hook) == (
        employee_id is None),
        (purpose@ == "hook"@) == (employee_id is None) && (exists|p: RunPurpose| purpose_text(p)
            == purpose@) ==> res is Ok,
{
    proof {
        reveal_strlit("hook");
        reveal_strlit("task_stage");
        reveal_strlit("communication");
        reveal_strlit("resolution");
    }
    if text_equals(purpose, "hook") != employee_id.is_none() {
        return Err(
            StorageError::InvalidInput {
                reason: "execution Employee owner differs from purpose".to_owned(),
            },
        );
    }
    let p = RunPurpose::from_storage(purpose)?;
    proof {
        assert(purpose_text(p) == purpose@);
        match p {
            RunPurpose::Hook => {},
            _ => {
                assert(purpose_text(p) != "hook"@);
            },
        }
    }
    Ok(p)
}

/// The owner columns of a stored Run.
#[derive(Clone, Copy, Debug)]
pub struct RunOwnerRow {
    pub run_id: u128,
    pub project_id: u128,
    pub employee_id: Option<u128>,
    pub task_id: Option<u128>,
    pub queue_entry_id: Option<u128>,
    /// `stage_id` is not NULL.
    pub has_stage_id: bool,
    /// The stage identity is a valid stage id (when present).
    pub stage_id_valid: bool,
    pub communication_assignment_id: Option<u128>,
    pub resolution_assignment_id: Option<u128>,
    pub hook_invocation_id: Option<u128>,
    pub run_spec_version: i16,
}

/// What a Run's own snapshot claims about its owner: a Communication or
/// Resolution context, or a hook RunSpec.
#[derive(Clone, Copy, Debug)]
pub struct RunOwnerClaim {
    /// The snapshot passes its own validation (read for a hook RunSpec only).
    pub valid: bool,
    /// Assignment (Communication or Resolution) or hook invocation it names.
    pub owner_id: u128,
    /// Project it names.
    pub project_id: u128,
    /// Employee it names (a context's; `None` for a hook RunSpec).
    pub employee_id: Option<u128>,
    /// Run it names.
    pub run_id: u128,
}

/// Why a stored Run's owner is refused.
#[derive(Clone, Copy, Debug)]
pub enum RunOwnerRefusal {
    /// A column the purpose requires is NULL.
    NullColumn(&'static str),
    /// The TaskStage owner has no valid stage id.
    TaskStageInvalid,
    /// A Communication context names another owner.
    CommunicationMismatch,
    /// A Resolution context names another owner, or the spec version is not 4.
    ResolutionMismatch,
    /// A hook RunSpec fails its own validation.
    HookSpecInvalid,
    /// A hook RunSpec names another Run, or the Run has a Task-stage owner.
    HookMismatch,
    /// The assembled owner fails its own validation.
    OwnerInvalid,
}

/// A context (Communication or Resolution) names the Run's own assignment,
/// Project, Employee and Run; the first refusal in checking order.
pub open spec fn context_refusal(
    assignment: Option<u128>,
    assignment_column: &'static str,
    row: RunOwnerRow,
    claim: RunOwnerClaim,
    mismatch: RunOwnerRefusal,
) -> Option<RunOwnerRefusal> {
    match assignment {
        None => Some(RunOwnerRefusal::NullColumn(assignment_column)),
        Some(a) => if claim.owner_id != a || claim.project_id != row.project_id {
            Some(mismatch)
        } else {
            match row.employee_id {
                None => Some(RunOwnerRefusal::NullColumn("employee_id")),
                Some(e) => if claim.employee_id != Some(e) || claim.run_id != row.run_id {
                    Some(mismatch)
                } else {
                    None
                },
            }
        },
    }
}

/// The first owner rule a stored Run breaks, in checking order, or `None`.
pub open spec fn run_owner_refusal(
    purpose: RunPurpose,
    row: RunOwnerRow,
    claim: RunOwnerClaim,
    owner_valid: bool,
) -> Option<RunOwnerRefusal> {
    let specific = match purpose {
        RunPurpose::TaskStage => if row.task_id is None {
            Some(RunOwnerRefusal::NullColumn("task_id"))
        } else if row.queue_entry_id is None {
            Some(RunOwnerRefusal::NullColumn("queue_entry_id"))
        } else if !row.has_stage_id {
            Some(RunOwnerRefusal::NullColumn("stage_id"))
        } else if !row.stage_id_valid {
            Some(RunOwnerRefusal::TaskStageInvalid)
        } else {
            None
        },
        RunPurpose::Communication => context_refusal(
            row.communication_assignment_id,
            "communication_assignment_id",
            row,
            claim,
            RunOwnerRefusal::CommunicationMismatch,
        ),
        RunPurpose::Resolution => match context_refusal(
            row.resolution_assignment_id,
            "resolution_assignment_id",
            row,
            claim,
            RunOwnerRefusal::ResolutionMismatch,
        ) {
            Some(r) => Some(r),
            None => if row.run_spec_version != 4 {
                Some(RunOwnerRefusal::ResolutionMismatch)
            } else {
                None
            },
        },
        RunPurpose::Hook => if !claim.valid {
            Some(RunOwnerRefusal::HookSpecInvalid)
        } else {
            match row.hook_invocation_id {
                None => Some(RunOwnerRefusal::NullColumn("hook_invocation_id")),
                Some(h) => if claim.owner_id != h || claim.run_id != row.run_id || claim.project_id
                    != row.project_id || row.run_spec_version != 5 || row.task_id is Some
                    || row.queue_entry_id is Some || row.has_stage_id {
                    Some(RunOwnerRefusal::HookMismatch)
                } else {
                    None
                },
            }
        },
    };
    match specific {
        Some(r) => Some(r),
        None => if !owner_valid {
            Some(RunOwnerRefusal::OwnerInvalid)
        } else {
            None
        },
    }
}

/// The stored Run's owner is consistent with its purpose.
pub open spec fn run_owner_consistent(
    purpose: RunPurpose,
    row: RunOwnerRow,
    claim: RunOwnerClaim,
    owner_valid: bool,
) -> bool {
    run_owner_refusal(purpose, row, claim, owner_valid) is None
}

/// The error each refusal reports.
pub open spec fn refusal_error(refusal: RunOwnerRefusal, e: StorageError) -> bool {
    match refusal {
        RunOwnerRefusal::NullColumn(column) => e == StorageError::NullColumn { column },
        RunOwnerRefusal::TaskStageInvalid => e matches StorageError::InvalidInput { reason }
            && reason@ == "invalid TaskStage owner"@,
        RunOwnerRefusal::CommunicationMismatch => e matches StorageError::InvalidInput { reason }
            && reason@ == "Communication context differs from Run owner"@,
        RunOwnerRefusal::ResolutionMismatch => e matches StorageError::InvalidInput { reason }
            && reason@ == "Resolution context differs from Run owner"@,
        RunOwnerRefusal::HookSpecInvalid => e matches StorageError::InvalidInput { reason }
            && reason@ == "invalid Hook RunSpec"@,
        RunOwnerRefusal::HookMismatch => e matches StorageError::InvalidInput { reason }
            && reason@ == "Hook snapshot differs from ownerless Run"@,
        RunOwnerRefusal::OwnerInvalid => e matches StorageError::InvalidInput { reason }
            && reason@ == "invalid execution owner"@,
    }
}

fn refusal_to_error(refusal: RunOwnerRefusal) -> (res: StorageError)
    ensures
        refusal_error(refusal, res),
{
    match refusal {
        RunOwnerRefusal::NullColumn(column) => StorageError::NullColumn { column },
        RunOwnerRefusal::TaskStageInvalid => StorageError::InvalidInput {
            reason: "invalid TaskStage owner".to_owned(),
        },
        RunOwnerRefusal::CommunicationMismatch => StorageError::InvalidInput {
            reason: "Communication context differs from Run owner".to_owned(),
        },
        RunOwnerRefusal::ResolutionMismatch => StorageError::InvalidInput {
            reason: "Resolution context differs from Run owner".to_owned(),
        },
        RunOwnerRefusal::HookSpecInvalid => StorageError::InvalidInput {
            reason: "invalid Hook RunSpec".to_owned(),
        },
        RunOwnerRefusal::HookMismatch => StorageError::InvalidInput {
            reason: "Hook snapshot differs from ownerless Run".to_owned(),
        },
        RunOwnerRefusal::OwnerInvalid => StorageError::InvalidInput {
            reason: "invalid execution owner".to_owned(),
        },
    }
}

fn context_check(
    assignment: Option<u128>,
    assignment_column: &'static str,
    row: &RunOwnerRow,
    claim: &RunOwnerClaim,
    mismatch: RunOwnerRefusal,
) -> (res: Option<RunOwnerRefusal>)
    ensures
        res == context_refusal(assignment, assignment_column, *row, *claim, mismatch),
{
    match assignment {
        None => Some(RunOwnerRefusal::NullColumn(assignment_column)),
        Some(a) => {
            if claim.owner_id != a || claim.project_id != row.project_id {
                return Some(mismatch);
            }
            match row.employee_id {
                None => Some(RunOwnerRefusal::NullColumn("employee_id")),
                Some(e) => {
                    let same_employee = match claim.employee_id {
                        Some(c) => c == e,
                        None => false,
                    };
                    if !same_employee || claim.run_id != row.run_id {
                        Some(mismatch)
                    } else {
                        None
                    }
                },
            }
        },
    }
}

/// Checks a stored Run's owner against its purpose, in the order a Run read
/// checks it: the purpose's own columns and snapshot first, then the
/// assembled owner's validity (`owner_valid`, judged by the domain model).
/// `claim` is what the Run's context (Communication, Resolution) or hook
/// RunSpec names; a TaskStage Run has none and its `claim` is never read.
pub fn check_run_owner(
    purpose: RunPurpose,
    row: &RunOwnerRow,
    claim: &RunOwnerClaim,
    owner_valid: bool,
) -> (res: Result<(), StorageError>)
    ensures
        res is Ok <==> run_owner_consistent(purpose, *row, *claim, owner_valid),
        match run_owner_refusal(purpose, *row, *claim, owner_valid) {
            Some(r) => res matches Err(e) && refusal_error(r, e),
            None => res is Ok,
        },
{
    let specific = match purpose {
        RunPurpose::TaskStage => {
            if row.task_id.is_none() {
                Some(RunOwnerRefusal::NullColumn("task_id"))
            } else if row.queue_entry_id.is_none() {
                Some(RunOwnerRefusal::NullColumn("queue_entry_id"))
            } else if !row.has_stage_id {
                Some(RunOwnerRefusal::NullColumn("stage_id"))
            } else if !row.stage_id_valid {
                Some(RunOwnerRefusal::TaskStageInvalid)
            } else {
                None
            }
        },
        RunPurpose::Communication => context_check(
            row.communication_assignment_id,
            "communication_assignment_id",
            row,
            claim,
            RunOwnerRefusal::CommunicationMismatch,
        ),
        RunPurpose::Resolution => {
            match context_check(
                row.resolution_assignment_id,
                "resolution_assignment_id",
                row,
                claim,
                RunOwnerRefusal::ResolutionMismatch,
            ) {
                Some(r) => Some(r),
                None => if row.run_spec_version != 4 {
                    Some(RunOwnerRefusal::ResolutionMismatch)
                } else {
                    None
                },
            }
        },
        RunPurpose::Hook => {
            if !claim.valid {
                Some(RunOwnerRefusal::HookSpecInvalid)
            } else {
                match row.hook_invocation_id {
                    None => Some(RunOwnerRefusal::NullColumn("hook_invocation_id")),
                    Some(h) => if claim.owner_id != h || claim.run_id != row.run_id
                        || claim.project_id != row.project_id || row.run_spec_version != 5
                        || row.task_id.is_some() || row.queue_entry_id.is_some()
                        || row.has_stage_id {
                        Some(RunOwnerRefusal::HookMismatch)
                    } else {
                        None
                    },
                }
            }
        },
    };
    let refusal = match specific {
        Some(r) => Some(r),
        None => if !owner_valid {
            Some(RunOwnerRefusal::OwnerInvalid)
        } else {
            None
        },
    };
    match refusal {
        Some(r) => Err(refusal_to_error(r)),
        None => Ok(()),
    }
}

/// The counters of a stored Run, converted from their signed columns.
#[derive(Clone, Copy, Debug, PartialEq, Eq, Structural)]
pub struct RunCounters {
    pub attempt_number: u32,
    pub lease_fencing_token: u64,
    pub environment_epoch: u64,
    pub last_sequence: u64,
}

/// Converts a stored Run's counters, in column order: attempt number, fence,
/// epoch, last sequence; the first negative value is out of range.
pub fn decode_run_counters(
    attempt_number: i32,
    lease_fencing_token: i64,
    environment_epoch: i64,
    last_sequence: i64,
) -> (res: Result<RunCounters, StorageError>)
    ensures
        attempt_number < 0 ==> res == Err::<RunCounters, StorageError>(
            StorageError::IntegerOutOfRange { field: "run.attempt_number" },
        ),
        attempt_number >= 0 && lease_fencing_token < 0 ==> res == Err::<RunCounters, StorageError>(
            StorageError::IntegerOutOfRange { field: "run.lease_fencing_token" },
        ),
        attempt_number >= 0 && lease_fencing_token >= 0 && environment_epoch < 0 ==> res == Err::<
            RunCounters,
            StorageError,
        >(StorageError::IntegerOutOfRange { field: "run.environment_epoch" }),
        attempt_number >= 0 && lease_fencing_token >= 0 && environment_epoch >= 0 && last_sequence
            < 0 ==> res == Err::<RunCounters, StorageError>(
            StorageError::IntegerOutOfRange { field: "run.last_sequence" },
        ),
        attempt_number >= 0 && lease_fencing_token >= 0 && environment_epoch >= 0 && last_sequence
            >= 0 ==> res == Ok::<RunCounters, StorageError>(
            RunCounters {
                attempt_number: attempt_number as u32,
                lease_fencing_token: lease_fencing_token as u64,
                environment_epoch: environment_epoch as u64,
                last_sequence: last_sequence as u64,
            },
        ),
{
    let attempt_number = i32_to_u32(attempt_number, "run.attempt_number")?;
    let lease_fencing_token = i64_to_u64(lease_fencing_token, "run.lease_fencing_token")?;
    let environment_epoch = i64_to_u64(environment_epoch, "run.environment_epoch")?;
    let last_sequence = i64_to_u64(last_sequence, "run.last_sequence")?;
    Ok(RunCounters { attempt_number, lease_fencing_token, environment_epoch, last_sequence })
}

/// A stored Run specification version is a non-negative `smallint`.
pub fn run_spec_version_from_storage(version: i16) -> (res: Result<u16, StorageError>)
    ensures
        version >= 0 ==> res == Ok::<u16, StorageError>(version as u16),
        version < 0 ==> res == Err::<u16, StorageError>(
            StorageError::IntegerOutOfRange { field: "run.run_spec_version" },
        ),
{
    if version >= 0 {
        Ok(version as u16)
    } else {
        Err(StorageError::IntegerOutOfRange { field: "run.run_spec_version" })
    }
}

} // verus!
