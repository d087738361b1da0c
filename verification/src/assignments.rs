//! Inbox (Communication) and resolver admissions pin a taskless Run through
//! the same canonical Lease/Run/physical-capacity ledger as Task work. These
//! are the ownership rules each admission must pass before any Lease exists.
use vstd::prelude::*;

use crate::error::StorageError;
use crate::ids::{uuid_is_v7, uuid_version};

verus! {

/// The Inbox conversation an admission owns.
#[derive(Clone, Copy, Debug, PartialEq, Eq, Structural)]
pub struct CommunicationOwner {
    /// Communication assignment identity.
    pub assignment_id: u128,
    /// Conversation thread.
    pub thread_id: u128,
    /// Message that started the assignment.
    pub source_message_id: u128,
}

/// Who a Communication claim admitted.
#[derive(Clone, Copy, Debug, PartialEq, Eq, Structural)]
pub struct CommunicationAdmission {
    /// The claimed conversation.
    pub owner: CommunicationOwner,
    /// Project of the claim.
    pub project_id: u128,
    /// Employee that will answer.
    pub employee_id: u128,
}

/// What a Communication RunSpec and its context manifest name.
#[derive(Clone, Copy, Debug)]
pub struct CommunicationRunBinding {
    /// The RunSpec passes its own validation.
    pub spec_valid: bool,
    /// Conversation the RunSpec names.
    pub spec_owner: CommunicationOwner,
    /// Project the RunSpec names.
    pub spec_project_id: u128,
    /// Run the RunSpec creates.
    pub spec_run_id: u128,
    /// Conversation the context names.
    pub context_owner: CommunicationOwner,
    /// Run the context names.
    pub context_run_id: u128,
    /// Employee the context names.
    pub context_employee_id: u128,
    /// Project the context names.
    pub context_project_id: u128,
    /// The context carries exactly the claim's source message.
    pub context_has_source: bool,
}

/// The RunSpec, context and Lease identity all name exactly what the claim
/// admitted, and the Lease identity is version 7.
pub open spec fn communication_binding_ok(
    claim: CommunicationAdmission,
    b: CommunicationRunBinding,
    lease_id: u128,
) -> bool {
    &&& b.spec_owner == claim.owner
    &&& b.spec_project_id == claim.project_id
    &&& b.context_owner == claim.owner
    &&& b.context_run_id == b.spec_run_id
    &&& b.context_employee_id == claim.employee_id
    &&& b.context_project_id == claim.project_id
    &&& b.context_has_source
    &&& uuid_version(lease_id) == 7
}

/// Validates a Communication Run against its admission before any effect:
/// an invalid RunSpec is rejected first, then any ownership difference.
pub fn check_communication_binding(
    claim: &CommunicationAdmission,
    binding: &CommunicationRunBinding,
    lease_id: u128,
) -> (res: Result<(), StorageError>)
    ensures
        !binding.spec_valid ==> (res matches Err(StorageError::InvalidInput { reason }) && reason@
            == "invalid Communication RunSpec"@),
        binding.spec_valid && !communication_binding_ok(*claim, *binding, lease_id) ==> (res matches Err(
            StorageError::InvalidInput { reason },
        ) && reason@ == "Communication owner differs from admission"@),
        binding.spec_valid && communication_binding_ok(*claim, *binding, lease_id) ==> res is Ok,
{
    if !binding.spec_valid {
        return Err(StorageError::InvalidInput { reason: "invalid Communication RunSpec".to_owned() });
    }
    if binding.spec_owner != claim.owner || binding.spec_project_id != claim.project_id
        || binding.context_owner != claim.owner || binding.context_run_id != binding.spec_run_id
        || binding.context_employee_id != claim.employee_id || binding.context_project_id
        != claim.project_id || !binding.context_has_source || !uuid_is_v7(lease_id) {
        return Err(
            StorageError::InvalidInput {
                reason: "Communication owner differs from admission".to_owned(),
            },
        );
    }
    Ok(())
}

/// Communication admission stays open only while the Project gate is open
/// (`execution_enabled`, `None` for an unknown Project), the Employee's
/// onboarding allows work, and its capacity lock was taken; the claimed
/// assignment must still be leased at the claimed attempt.
pub fn check_communication_admission(
    execution_enabled: Option<bool>,
    onboarding_allowed: bool,
    capacity_locked: bool,
    assignment_current: bool,
) -> (res: Result<(), StorageError>)
    ensures
        !(execution_enabled == Some(true) && onboarding_allowed && capacity_locked) ==> (res matches Err(
            StorageError::InvalidInput { reason },
        ) && reason@ == "Communication admission is closed"@),
        execution_enabled == Some(true) && onboarding_allowed && capacity_locked
            && !assignment_current ==> (res matches Err(StorageError::InvalidInput { reason })
            && reason@ == "Communication admission is stale"@),
        execution_enabled == Some(true) && onboarding_allowed && capacity_locked
            && assignment_current ==> res is Ok,
{
    if execution_enabled != Some(true) || !onboarding_allowed || !capacity_locked {
        return Err(
            StorageError::InvalidInput { reason: "Communication admission is closed".to_owned() },
        );
    }
    if !assignment_current {
        return Err(
            StorageError::InvalidInput { reason: "Communication admission is stale".to_owned() },
        );
    }
    Ok(())
}

/// The next Communication attempt number after a claim: the stored attempt
/// plus one, rejected when it does not fit PostgreSQL's `integer`.
pub fn next_communication_attempt(stored: i32) -> (res: Result<i32, StorageError>)
    ensures
        stored < i32::MAX ==> res == Ok::<i32, StorageError>((stored + 1) as i32),
        stored == i32::MAX ==> res == Err::<i32, StorageError>(
            StorageError::IntegerOutOfRange { field: "communication.attempt" },
        ),
{
    match stored.checked_add(1) {
        Some(next) => Ok(next),
        None => Err(StorageError::IntegerOutOfRange { field: "communication.attempt" }),
    }
}

/// What a Resolution RunSpec, its Assignment, Escalation and context name.
#[derive(Clone, Copy, Debug)]
pub struct ResolutionRunBinding {
    /// The RunSpec passes its own validation.
    pub spec_valid: bool,
    /// The Assignment is a valid owner of the Escalation.
    pub owner_valid: bool,
    /// Employee resolver of the Assignment, `None` for any other resolver.
    pub resolver_employee_id: Option<u128>,
    /// When the Assignment's Lease expires (Unix nanoseconds), if it does.
    pub lease_expires_at: Option<i128>,
    /// The Assignment is in its `active` state.
    pub assignment_active: bool,
    /// Assignment identity.
    pub assignment_id: u128,
    /// Assignment Lease generation.
    pub assignment_generation: u64,
    /// Escalation identity.
    pub escalation_id: u128,
    /// Escalation Project.
    pub escalation_project_id: u128,
    /// Project the RunSpec names.
    pub spec_project_id: u128,
    /// Assignment the RunSpec names.
    pub spec_assignment_id: u128,
    /// Escalation the RunSpec names.
    pub spec_escalation_id: u128,
    /// Lease generation the RunSpec names.
    pub spec_generation: u64,
    /// Run the RunSpec creates.
    pub spec_run_id: u128,
    /// The context carries exactly this Assignment.
    pub context_has_assignment: bool,
    /// The context carries exactly this Escalation.
    pub context_has_escalation: bool,
    /// Run the context names.
    pub context_run_id: u128,
    /// Employee the context names.
    pub context_employee_id: u128,
}

/// A Resolution Run may be admitted for an Employee resolver when every
/// identity agrees, the Lease identity is version 7, and the Assignment's
/// Lease has not expired at `now`.
pub open spec fn resolution_binding_ok(b: ResolutionRunBinding, lease_id: u128, now: i128) -> bool {
    &&& b.spec_valid
    &&& b.owner_valid
    &&& b.resolver_employee_id is Some
    &&& b.lease_expires_at is Some
    &&& b.assignment_active
    &&& b.spec_project_id == b.escalation_project_id
    &&& b.spec_assignment_id == b.assignment_id
    &&& b.spec_escalation_id == b.escalation_id
    &&& b.spec_generation == b.assignment_generation
    &&& uuid_version(lease_id) == 7
    &&& b.context_has_assignment
    &&& b.context_has_escalation
    &&& b.context_run_id == b.spec_run_id
    &&& b.context_employee_id == b.resolver_employee_id.unwrap()
    &&& b.lease_expires_at.unwrap() > now
}

/// The single failure of Resolution admission; it does not say which check
/// failed.
pub open spec fn resolution_refused(res: Result<u128, StorageError>) -> bool {
    res matches Err(StorageError::InvalidInput { reason })
        && reason@ == "Resolution admission is stale, unavailable, or violates ownership"@
}

fn resolution_error() -> (res: StorageError)
    ensures
        resolution_refused(Err(res)),
{
    StorageError::InvalidInput {
        reason: "Resolution admission is stale, unavailable, or violates ownership".to_owned(),
    }
}

/// Validates a Resolution Run against its Assignment and Escalation at time
/// `now`, and gives the Employee that will run it.
pub fn check_resolution_binding(binding: &ResolutionRunBinding, lease_id: u128, now: i128) -> (res:
    Result<u128, StorageError>)
    ensures
        resolution_binding_ok(*binding, lease_id, now) ==> res == Ok::<u128, StorageError>(
            binding.resolver_employee_id.unwrap(),
        ),
        !resolution_binding_ok(*binding, lease_id, now) ==> resolution_refused(res),
        res is Ok ==> binding.assignment_active && binding.spec_valid && binding.owner_valid
            && binding.resolver_employee_id == Some(res->Ok_0) && (binding.lease_expires_at matches Some(
            t,
        ) && t > now) && binding.spec_project_id == binding.escalation_project_id
            && binding.spec_assignment_id == binding.assignment_id && binding.spec_escalation_id
            == binding.escalation_id && binding.spec_generation == binding.assignment_generation
            && binding.context_has_assignment && binding.context_has_escalation
            && binding.context_run_id == binding.spec_run_id && binding.context_employee_id
            == res->Ok_0,
{
    if !binding.spec_valid || !binding.owner_valid {
        return Err(resolution_error());
    }
    let employee_id = match binding.resolver_employee_id {
        Some(id) => id,
        None => return Err(resolution_error()),
    };
    let expires_at = match binding.lease_expires_at {
        Some(t) => t,
        None => return Err(resolution_error()),
    };
    if !binding.assignment_active || binding.spec_project_id != binding.escalation_project_id
        || binding.spec_assignment_id != binding.assignment_id || binding.spec_escalation_id
        != binding.escalation_id || binding.spec_generation != binding.assignment_generation
        || !uuid_is_v7(lease_id) || !binding.context_has_assignment
        || !binding.context_has_escalation || binding.context_run_id != binding.spec_run_id
        || binding.context_employee_id != employee_id || expires_at <= now {
        return Err(resolution_error());
    }
    Ok(employee_id)
}

/// Resolver admission under the Project lock requires an open gate without a
/// recovery hold (`None` for an unknown Project), the Employee's capacity lock,
/// no live execution of the same Escalation, and a stored Assignment and
/// Escalation identical to the ones being admitted.
pub fn check_resolution_admission(
    open_without_hold: Option<bool>,
    capacity_locked: bool,
    live_execution: bool,
    unchanged: bool,
) -> (res: Result<(), StorageError>)
    ensures
        res is Ok <==> (open_without_hold == Some(true) && capacity_locked && !live_execution
            && unchanged),
        res matches Err(e) ==> resolution_refused(Err(e)),
{
    if open_without_hold != Some(true) || !capacity_locked || live_execution || !unchanged {
        return Err(resolution_error());
    }
    Ok(())
}


/// A Resolution Run is admitted only for an Assignment in its active state,
/// bound to a live Lease, whose RunSpec and context name that very
/// Assignment, Escalation, generation, Run and resolving Employee: any binding
/// whose Assignment is no longer active (completed, cancelled) is refused.
pub proof fn lemma_resolution_needs_an_active_assignment(
    binding: ResolutionRunBinding,
    lease_id: u128,
    now: i128,
)
    ensures
        !binding.assignment_active ==> !resolution_binding_ok(binding, lease_id, now),
        resolution_binding_ok(binding, lease_id, now) ==> {
            &&& binding.assignment_active
            &&& binding.spec_valid && binding.owner_valid
            &&& binding.resolver_employee_id is Some
            &&& binding.lease_expires_at matches Some(t) && t > now
            &&& binding.spec_project_id == binding.escalation_project_id
            &&& binding.spec_assignment_id == binding.assignment_id
            &&& binding.spec_escalation_id == binding.escalation_id
            &&& binding.spec_generation == binding.assignment_generation
            &&& binding.context_has_assignment && binding.context_has_escalation
            &&& binding.context_run_id == binding.spec_run_id
            &&& binding.resolver_employee_id == Some(binding.context_employee_id)
        },
{
}

} // verus!
