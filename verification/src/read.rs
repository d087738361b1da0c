//! Read-projection vocabulary and the bounded paging rule used by operator reads.
use vstd::prelude::*;
use vstd::string::StringExecFns;

use crate::error::StorageError;

verus! {

/// Columns of the Run read projection; fencing and lifecycle state are always read.
pub const RUN_COLUMNS: &'static str = "id, project_id, purpose, communication_assignment_id, resolution_assignment_id, hook_invocation_id, task_id, queue_entry_id, lease_id, employee_id, stage_id, attempt_number, lease_fencing_token, environment_epoch, last_sequence, desired_state, observed_state, run_spec_version, run_spec::text AS run_spec, context_manifest::text AS context_manifest, observed_details::text AS observed_details";

/// Current physical occupancy and positive Run observation for one Employee.
/// This is an observation, not a prediction of dispatch or provider readiness.
#[derive(Clone, Copy, Debug, PartialEq, Eq, Structural)]
pub struct EmployeeOperationalCounts {
    /// Unique Lease slots held by active leases or unreleased environments.
    pub occupied_slots: u64,
    /// Runs whose latest Supervisor observation is running.
    pub observed_running_runs: u64,
    /// Whether an operator-owned runtime binding exists; its contents stay private.
    pub runtime_binding_configured: bool,
}

/// `prefix`, `label` and `suffix` joined into one explanation.
fn labelled(prefix: &str, label: &str, suffix: &str) -> (res: String)
    ensures
        res@ == prefix@ + label@ + suffix@,
{
    let mut res = String::new();
    res.append(prefix);
    res.append(label);
    res.append(suffix);
    res
}

/// Reads a persisted count of an Employee's operational read; a negative
/// count is rejected, naming its column.
pub fn employee_count(value: i64, column: &str) -> (res: Result<u64, StorageError>)
    ensures
        value >= 0 ==> res == Ok::<u64, StorageError>(value as u64),
        value < 0 ==> (res matches Err(StorageError::InvalidInput { reason }) && reason@
            == "invalid "@ + column@ + " count"@),
{
    if value < 0 {
        return Err(StorageError::InvalidInput { reason: labelled("invalid ", column, " count") });
    }
    Ok(value as u64)
}

/// Reads a persisted count or revision of the Pipeline catalog; a negative
/// value is rejected, naming its column.
pub fn catalog_count(value: i64, column: &str) -> (res: Result<u64, StorageError>)
    ensures
        value >= 0 ==> res == Ok::<u64, StorageError>(value as u64),
        value < 0 ==> (res matches Err(StorageError::InvalidInput { reason }) && reason@
            == "invalid "@ + column@ + " in pipeline catalog"@),
{
    if value < 0 {
        return Err(
            StorageError::InvalidInput { reason: labelled("invalid ", column, " in pipeline catalog") },
        );
    }
    Ok(value as u64)
}

/// Reads the latest Pipeline version number of a catalog row, which must fit `u32`.
pub fn catalog_latest_version(value: Option<i64>) -> (res: Result<Option<u32>, StorageError>)
    ensures
        value is None ==> res == Ok::<Option<u32>, StorageError>(None),
        value matches Some(v) && 0 <= v <= u32::MAX ==> res == Ok::<Option<u32>, StorageError>(
            Some(value.unwrap() as u32),
        ),
        value matches Some(v) && !(0 <= v <= u32::MAX) ==> (res matches Err(
            StorageError::InvalidInput { reason },
        ) && reason@ == "invalid latest version in pipeline catalog"@),
{
    match value {
        None => Ok(None),
        Some(v) => if 0 <= v && v <= 4294967295 {
            Ok(Some(v as u32))
        } else {
            Err(
                StorageError::InvalidInput {
                    reason: "invalid latest version in pipeline catalog".to_owned(),
                },
            )
        },
    }
}

/// A page request asks for 1 to `max` rows (callers ask for one more row than
/// they show, to learn whether a next page exists).
pub fn validate_page_limit(limit: u32, max: u32, reason: &str) -> (res: Result<(), StorageError>)
    ensures
        1 <= limit <= max ==> res is Ok,
        !(1 <= limit <= max) ==> (res matches Err(StorageError::InvalidInput { reason: r }) && r@
            == reason@),
{
    if limit < 1 || limit > max {
        return Err(StorageError::InvalidInput { reason: reason.to_owned() });
    }
    Ok(())
}

/// Which side of a dependency is anchored to the requested Task.
#[derive(Clone, Copy, Debug, PartialEq, Eq, Structural)]
pub enum DependencyDirection {
    /// Prerequisites of the requested Task.
    BlockedBy,
    /// Tasks depending on the requested Task.
    Blocks,
}

/// The (anchor, related) dependency columns for a direction.
pub open spec fn direction_columns(direction: DependencyDirection) -> (Seq<char>, Seq<char>) {
    match direction {
        DependencyDirection::BlockedBy => ("blocked_task_id"@, "blocker_task_id"@),
        DependencyDirection::Blocks => ("blocker_task_id"@, "blocked_task_id"@),
    }
}

impl DependencyDirection {
    /// The column anchored to the requested Task and the column of the related Task.
    pub fn columns(self) -> (res: (&'static str, &'static str))
        ensures
            (res.0@, res.1@) == direction_columns(self),
    {
        match self {
            DependencyDirection::BlockedBy => ("blocked_task_id", "blocker_task_id"),
            DependencyDirection::Blocks => ("blocker_task_id", "blocked_task_id"),
        }
    }

    /// The related Task of an edge: the blocker for `BlockedBy`, the blocked Task for `Blocks`.
    pub fn related(self, blocker_task_id: u128, blocked_task_id: u128) -> (res: u128)
        ensures
            res == (if self == DependencyDirection::BlockedBy {
                blocker_task_id
            } else {
                blocked_task_id
            }),
    {
        match self {
            DependencyDirection::BlockedBy => blocker_task_id,
            DependencyDirection::Blocks => blocked_task_id,
        }
    }
}

/// Identities a dependency read row carries, checked against the request.
#[derive(Clone, Copy, Debug)]
pub struct DependencyRowScope {
    /// Project of the related Task snapshot.
    pub related_project: u128,
    /// Identity of the related Task snapshot.
    pub related_task: u128,
    /// Project of the blocker Task snapshot.
    pub blocker_project: u128,
    /// Identity of the blocker Task snapshot.
    pub blocker_task: u128,
    /// The edge's blocker.
    pub edge_blocker: u128,
    /// The edge's blocked Task.
    pub edge_blocked: u128,
}

/// Both snapshots must belong to the requested Project and be the edge's
/// related Task and blocker.
pub open spec fn dependency_row_in_scope(
    project: u128,
    direction: DependencyDirection,
    row: DependencyRowScope,
) -> bool {
    let expected = if direction == DependencyDirection::BlockedBy {
        row.edge_blocker
    } else {
        row.edge_blocked
    };
    row.related_project == project && row.related_task == expected && row.blocker_project == project
        && row.blocker_task == row.edge_blocker
}

/// Checks one dependency read row; a scope mismatch is corrupt storage.
pub fn check_dependency_row(project: u128, direction: DependencyDirection, row: DependencyRowScope) -> (res:
    Result<(), StorageError>)
    ensures
        dependency_row_in_scope(project, direction, row) ==> res is Ok,
        !dependency_row_in_scope(project, direction, row) ==> (res matches Err(
            StorageError::InvalidInput { reason },
        ) && reason@ == "dependency Task snapshot scope mismatch"@),
{
    let expected = direction.related(row.edge_blocker, row.edge_blocked);
    if row.related_project != project || row.related_task != expected || row.blocker_project
        != project || row.blocker_task != row.edge_blocker {
        return Err(
            StorageError::InvalidInput { reason: "dependency Task snapshot scope mismatch".to_owned() },
        );
    }
    Ok(())
}

/// Git integration lifecycle of a Task.
#[derive(Clone, Copy, Debug, PartialEq, Eq, Structural)]
pub enum IntegrationState {
    Preparing,
    Prepared,
    Applying,
    Held,
    Completed,
    Retired,
}

/// An integration blocks dispatch until it is completed or retired.
pub fn integration_blocks_dispatch(state: IntegrationState) -> (res: bool)
    ensures
        res == !(state == IntegrationState::Completed || state == IntegrationState::Retired),
{
    match state {
        IntegrationState::Completed | IntegrationState::Retired => false,
        _ => true,
    }
}

/// The latest review recorded for one required stage of an integration
/// candidate, taken from its canonical snapshot.
#[derive(Clone, Copy, Debug, PartialEq, Eq, Structural)]
pub struct StageReview {
    /// Whether the verdict is `accepted`.
    pub accepted: bool,
    /// The Task the review names.
    pub task_id: u128,
    /// The candidate proposal the review names.
    pub candidate_proposal_id: u128,
}

/// A stage passes when its latest review is an acceptance naming the given
/// Task and candidate proposal.
pub open spec fn stage_review_passes(review: Option<StageReview>, task_id: u128, proposal: u128) -> bool {
    match review {
        Some(r) => r.accepted && r.task_id == task_id && r.candidate_proposal_id == proposal,
        None => false,
    }
}

/// Integration reviews are accepted only when every required stage passes; a
/// stage with no review, another verdict, another Task or another proposal
/// refuses.
pub fn integration_reviews_accepted(
    latest_reviews: &Vec<Option<StageReview>>,
    task_id: u128,
    proposal: u128,
) -> (res: bool)
    ensures
        res == forall|i: int|
            0 <= i < latest_reviews@.len() ==> #[trigger] stage_review_passes(
                latest_reviews@[i],
                task_id,
                proposal,
            ),
{
    let mut i: usize = 0;
    while i < latest_reviews.len()
        invariant
            i <= latest_reviews@.len(),
            forall|j: int| 0 <= j < i ==> #[trigger] stage_review_passes(latest_reviews@[j], task_id, proposal),
        decreases latest_reviews@.len() - i,
    {
        let passes = match latest_reviews[i] {
            Some(r) => r.accepted && r.task_id == task_id && r.candidate_proposal_id == proposal,
            None => false,
        };
        if !passes {
            assert(!stage_review_passes(latest_reviews@[i as int], task_id, proposal));
            return false;
        }
        i = i + 1;
    }
    true
}


/// The completion condition a dependency edge stores for its blocker.
#[derive(Clone, Copy, Debug, PartialEq, Eq, Structural)]
pub enum DependencyCondition {
    /// The blocker must be done.
    Done,
}

/// Reads a stored dependency condition: `done` is the only supported one.
pub fn parse_dependency_condition(text: &str) -> (res: Result<DependencyCondition, StorageError>)
    ensures
        text@ == "done"@ ==> res == Ok::<DependencyCondition, StorageError>(
            DependencyCondition::Done,
        ),
        text@ != "done"@ ==> (res matches Err(StorageError::InvalidInput { reason }) && reason@
            == "unsupported stored dependency condition"@),
{
    if crate::text::text_equals(text, "done") {
        Ok(DependencyCondition::Done)
    } else {
        Err(
            StorageError::InvalidInput {
                reason: "unsupported stored dependency condition".to_owned(),
            },
        )
    }
}

} // verus!
