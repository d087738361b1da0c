use forge_storage::assignments::{
    check_communication_admission, check_communication_binding, check_resolution_admission,
    check_resolution_binding, next_communication_attempt, CommunicationAdmission,
    CommunicationOwner, CommunicationRunBinding, ResolutionRunBinding,
};
use forge_storage::gateway::{
    gateway_receipt, gateway_scope_is_active, gateway_scope_precheck, gateway_submission_receipt,
    is_hex_digest, validate_gateway_identity, GatewayReceiptRow, GatewayRunRow,
    GatewayWriteResult, RunScope,
};
use forge_storage::hooks::{
    check_new_invocation, finishing_state, hook_write_applied, required_hooks_satisfied,
    HookCandidate, HookInvocation, HookInvocationState, HookResult, HookStage,
};
use forge_storage::ids::uuid_is_v7;
use forge_storage::runtime::{environment_report_state, handoff_kind, IncidentKind, ReservationState};
use forge_storage::knowledge::{derived_memory_head_written, derived_memory_write, DerivedMemoryWrite, StoredMemoryHead};
use forge_storage::{RunDesiredState, RunObservedState, StorageError};

fn v7() -> u128 {
    uuid::Uuid::now_v7().as_u128()
}

fn v4() -> u128 {
    (v7() & !(0xf_u128 << 76)) | (4_u128 << 76)
}

fn invalid(reason: &str) -> StorageError {
    StorageError::InvalidInput { reason: reason.to_owned() }
}

fn live_row(scope: &RunScope) -> GatewayRunRow {
    GatewayRunRow {
        lease_fencing_token: scope.fencing_token,
        environment_epoch: scope.environment_epoch,
        desired_state: RunDesiredState::Running,
        observed_state: RunObservedState::Running,
        hook_run: false,
        has_employee: true,
    }
}

#[test]
fn uuid_version_is_read_from_the_version_nibble() {
    assert!(uuid_is_v7(v7()));
    assert!(!uuid_is_v7(v4()));
    assert!(!uuid_is_v7(0));
}

#[test]
fn gateway_scope_requires_v7_run_and_positive_fence() {
    let good = RunScope { run_id: v7(), fencing_token: 1, environment_epoch: 1 };
    assert_eq!(gateway_scope_precheck(&good), Ok(()));
    for bad in [
        RunScope { run_id: v4(), fencing_token: 1, environment_epoch: 1 },
        RunScope { run_id: v7(), fencing_token: 0, environment_epoch: 1 },
        RunScope { run_id: v7(), fencing_token: 1, environment_epoch: 0 },
    ] {
        assert_eq!(gateway_scope_precheck(&bad), Err(invalid("invalid Gateway scope")));
    }
}

#[test]
fn gateway_scope_is_granted_only_to_live_fenced_employee_runs() {
    let scope = RunScope { run_id: v7(), fencing_token: 4, environment_epoch: 2 };
    let row = live_row(&scope);
    assert_eq!(gateway_scope_is_active(&scope, Some(true), Some(row), true), Ok(true));
    assert_eq!(gateway_scope_is_active(&scope, Some(true), Some(row), false), Ok(false));
    assert_eq!(gateway_scope_is_active(&scope, Some(false), Some(row), true), Ok(false));
    assert_eq!(gateway_scope_is_active(&scope, None, Some(row), true), Ok(false));
    assert_eq!(gateway_scope_is_active(&scope, Some(true), None, true), Ok(false));
    let stale = GatewayRunRow { lease_fencing_token: 5, ..row };
    assert_eq!(gateway_scope_is_active(&scope, Some(true), Some(stale), true), Ok(false));
    let hook = GatewayRunRow { hook_run: true, ..row };
    assert_eq!(gateway_scope_is_active(&scope, Some(true), Some(hook), true), Ok(false));
    let unbound = GatewayRunRow { has_employee: false, ..row };
    assert_eq!(gateway_scope_is_active(&scope, Some(true), Some(unbound), true), Ok(false));
}

#[test]
fn stop_request_revokes_gateway_before_physical_stop() {
    let scope = RunScope { run_id: v7(), fencing_token: 1, environment_epoch: 1 };
    for desired in [RunDesiredState::StopRequested, RunDesiredState::ForceStopRequested] {
        let row = GatewayRunRow { desired_state: desired, ..live_row(&scope) };
        assert_eq!(gateway_scope_is_active(&scope, Some(true), Some(row), true), Ok(false));
    }
    let lost = GatewayRunRow { observed_state: RunObservedState::Lost, ..live_row(&scope) };
    assert_eq!(gateway_scope_is_active(&scope, Some(true), Some(lost), true), Ok(false));
}

#[test]
fn gateway_fence_beyond_bigint_is_out_of_range() {
    let scope = RunScope { run_id: v7(), fencing_token: u64::MAX, environment_epoch: 1 };
    assert_eq!(
        gateway_scope_is_active(&scope, Some(true), None, true),
        Err(StorageError::IntegerOutOfRange { field: "gateway.fencing_token" })
    );
    let epoch = RunScope { run_id: v7(), fencing_token: 1, environment_epoch: u64::MAX };
    assert_eq!(
        gateway_scope_is_active(&epoch, Some(true), None, true),
        Err(StorageError::IntegerOutOfRange { field: "gateway.environment_epoch" })
    );
}

#[test]
fn gateway_receipt_replays_only_identical_submission() {
    let scope = RunScope { run_id: v7(), fencing_token: 3, environment_epoch: 9 };
    let hash = "a".repeat(64);
    let row = |hash: &str| GatewayReceiptRow {
        run_id: scope.run_id,
        fencing_token: 3,
        environment_epoch: 9,
        payload_hash: hash.to_owned(),
        receipt: 17u32,
    };
    assert_eq!(
        gateway_submission_receipt::<u32>(None, &scope, &hash),
        Ok(GatewayWriteResult::Applied)
    );
    assert_eq!(
        gateway_submission_receipt(Some(row(&hash)), &scope, &hash),
        Ok(GatewayWriteResult::Replayed(17))
    );
    assert_eq!(
        gateway_submission_receipt(Some(row(&"b".repeat(64))), &scope, &hash),
        Ok(GatewayWriteResult::Conflict)
    );
    let moved = RunScope { environment_epoch: 10, ..scope };
    assert_eq!(
        gateway_submission_receipt(Some(row(&hash)), &moved, &hash),
        Ok(GatewayWriteResult::Conflict)
    );
    let other_run = RunScope { run_id: v7(), ..scope };
    assert_eq!(
        gateway_submission_receipt(Some(row(&hash)), &other_run, &hash),
        Ok(GatewayWriteResult::Conflict)
    );
}

#[test]
fn gateway_receipt_reuse_fails_closed() {
    assert_eq!(gateway_receipt(GatewayWriteResult::Replayed(5u8)), Ok(Some(5)));
    assert_eq!(gateway_receipt::<u8>(GatewayWriteResult::Applied), Ok(None));
    let reused = invalid("Gateway message identity was reused with different scope or payload");
    assert_eq!(gateway_receipt::<u8>(GatewayWriteResult::Conflict), Err(reused.clone()));
    assert_eq!(gateway_receipt::<u8>(GatewayWriteResult::Denied), Err(reused));
}

#[test]
fn gateway_identity_needs_v7_message_and_hex_digest() {
    let digest = "0123456789abcdefABCDEF0123456789abcdef0123456789abcdef0123456789";
    assert_eq!(digest.len(), 64);
    assert!(is_hex_digest(digest));
    assert_eq!(validate_gateway_identity(v7(), digest), Ok(()));
    let error = Err(invalid("invalid Gateway receipt identity or digest"));
    assert_eq!(validate_gateway_identity(v4(), digest), error);
    assert_eq!(validate_gateway_identity(v7(), &digest[..63]), error);
    assert_eq!(validate_gateway_identity(v7(), &format!("{}g", &digest[..63])), error);
    assert!(!is_hex_digest(&format!("{}é", &digest[..62])));
}

fn gate(required: bool) -> HookStage {
    HookStage { loaded: true, version_valid: true, required, applies: true }
}

fn candidate(project: u128, task: u128, proposal: u128) -> HookCandidate {
    HookCandidate {
        valid: true,
        project_id: project,
        task_id: task,
        proposal_id: proposal,
        row_proposal_id: proposal,
    }
}

fn passed(invocation: u128, proposal: u128) -> Option<HookInvocation> {
    Some(HookInvocation {
        id: invocation,
        completed: true,
        result: Some(HookResult {
            valid: true,
            invocation_id: invocation,
            passed: true,
            candidate_proposal_id: proposal,
            same_candidate: true,
        }),
    })
}

#[test]
fn projects_without_required_hooks_need_no_candidate() {
    let (project, version, task) = (v7(), v7(), v7());
    let stages = vec![gate(false)];
    assert_eq!(required_hooks_satisfied(project, version, project, task, version, &stages, None, None, &vec![]), Ok(true));
    assert_eq!(required_hooks_satisfied(project, version, v7(), task, version, &stages, None, None, &vec![]), Ok(false));
    let missing = vec![HookStage { loaded: false, ..gate(false) }];
    assert_eq!(required_hooks_satisfied(project, version, project, task, version, &missing, None, None, &vec![]), Ok(false));
}

#[test]
fn required_hooks_pass_only_on_the_checked_candidate() {
    let (project, version, task, proposal, invocation) = (v7(), v7(), v7(), v7(), v7());
    let stages = vec![gate(false), gate(true)];
    let c = candidate(project, task, proposal);
    let invocations = vec![None, passed(invocation, proposal)];
    assert_eq!(required_hooks_satisfied(project, version, project, task, version, &stages, None, Some(c), &invocations), Ok(true));
    assert_eq!(required_hooks_satisfied(project, version, project, task, version, &stages, Some(proposal), Some(c), &invocations), Ok(true));
    assert_eq!(required_hooks_satisfied(project, version, project, task, version, &stages, Some(v7()), Some(c), &invocations), Ok(false));
    assert_eq!(required_hooks_satisfied(project, version, project, task, version, &stages, None, None, &invocations), Ok(false));
    let foreign = vec![None, passed(invocation, v7())];
    assert_eq!(required_hooks_satisfied(project, version, project, task, version, &stages, None, Some(c), &foreign), Ok(false));
    let failed = vec![None, Some(HookInvocation {
        id: invocation,
        completed: true,
        result: Some(HookResult { passed: false, ..passed(invocation, proposal).unwrap().result.unwrap() }),
    })];
    assert_eq!(required_hooks_satisfied(project, version, project, task, version, &stages, None, Some(c), &failed), Ok(false));
    let running = vec![None, Some(HookInvocation { completed: false, ..passed(invocation, proposal).unwrap() })];
    assert_eq!(required_hooks_satisfied(project, version, project, task, version, &stages, None, Some(c), &running), Ok(false));
    assert_eq!(required_hooks_satisfied(project, version, project, task, version, &stages, None, Some(c), &vec![None]), Ok(false));
}

#[test]
fn a_corrupt_latest_accepted_candidate_is_an_error_not_a_refusal() {
    let (project, version, task, proposal, invocation) = (v7(), v7(), v7(), v7(), v7());
    let stages = vec![gate(true)];
    let invocations = vec![passed(invocation, proposal)];
    let invalid = HookCandidate { valid: false, ..candidate(project, task, proposal) };
    assert_eq!(
        required_hooks_satisfied(project, version, project, task, version, &stages, None, Some(invalid), &invocations),
        Err(StorageError::SnapshotInvariant { aggregate: "Task Git candidate" })
    );
    let scope = Err(StorageError::InvalidInput {
        reason: "accepted Git candidate does not match its canonical Task scope".to_owned(),
    });
    let foreign_task = candidate(project, v7(), proposal);
    assert_eq!(
        required_hooks_satisfied(project, version, project, task, version, &stages, None, Some(foreign_task), &invocations),
        scope
    );
    let misfiled = HookCandidate { row_proposal_id: v7(), ..candidate(project, task, proposal) };
    assert_eq!(
        required_hooks_satisfied(project, version, project, task, version, &stages, None, Some(misfiled), &invocations),
        scope
    );
    // A named pending proposal is refused, not reported, when it does not fit.
    assert_eq!(
        required_hooks_satisfied(project, version, project, task, version, &stages, Some(proposal), Some(invalid), &invocations),
        Ok(false)
    );
    // Without a gating stage the latest candidate is never read.
    assert_eq!(
        required_hooks_satisfied(project, version, project, task, version, &vec![gate(false)], None, Some(invalid), &vec![]),
        Ok(true)
    );
}

fn owner() -> CommunicationOwner {
    CommunicationOwner { assignment_id: v7(), thread_id: v7(), source_message_id: v7() }
}

#[test]
fn communication_run_must_match_its_admission() {
    let claim = CommunicationAdmission { owner: owner(), project_id: v7(), employee_id: v7() };
    let run = v7();
    let binding = CommunicationRunBinding {
        spec_valid: true,
        spec_owner: claim.owner,
        spec_project_id: claim.project_id,
        spec_run_id: run,
        context_owner: claim.owner,
        context_run_id: run,
        context_employee_id: claim.employee_id,
        context_project_id: claim.project_id,
        context_has_source: true,
    };
    assert_eq!(check_communication_binding(&claim, &binding, v7()), Ok(()));
    assert_eq!(
        check_communication_binding(&claim, &binding, v4()),
        Err(invalid("Communication owner differs from admission"))
    );
    let other = CommunicationRunBinding { context_owner: owner(), ..binding };
    assert_eq!(
        check_communication_binding(&claim, &other, v7()),
        Err(invalid("Communication owner differs from admission"))
    );
    let broken = CommunicationRunBinding { spec_valid: false, ..binding };
    assert_eq!(
        check_communication_binding(&claim, &broken, v4()),
        Err(invalid("invalid Communication RunSpec"))
    );
}

#[test]
fn communication_admission_closes_and_goes_stale() {
    assert_eq!(check_communication_admission(Some(true), true, true, true), Ok(()));
    let closed = Err(invalid("Communication admission is closed"));
    assert_eq!(check_communication_admission(Some(false), true, true, true), closed);
    assert_eq!(check_communication_admission(None, true, true, true), closed);
    assert_eq!(check_communication_admission(Some(true), false, true, false), closed);
    assert_eq!(check_communication_admission(Some(true), true, false, true), closed);
    assert_eq!(
        check_communication_admission(Some(true), true, true, false),
        Err(invalid("Communication admission is stale"))
    );
    assert_eq!(next_communication_attempt(0), Ok(1));
    assert_eq!(
        next_communication_attempt(i32::MAX),
        Err(StorageError::IntegerOutOfRange { field: "communication.attempt" })
    );
}

#[test]
fn resolution_run_requires_unexpired_employee_ownership() {
    let refused = Err(invalid("Resolution admission is stale, unavailable, or violates ownership"));
    let (employee, assignment, escalation, project, run) = (v7(), v7(), v7(), v7(), v7());
    let binding = ResolutionRunBinding {
        spec_valid: true,
        owner_valid: true,
        resolver_employee_id: Some(employee),
        lease_expires_at: Some(2_000),
        assignment_active: true,
        assignment_id: assignment,
        assignment_generation: 3,
        escalation_id: escalation,
        escalation_project_id: project,
        spec_project_id: project,
        spec_assignment_id: assignment,
        spec_escalation_id: escalation,
        spec_generation: 3,
        spec_run_id: run,
        context_has_assignment: true,
        context_has_escalation: true,
        context_run_id: run,
        context_employee_id: employee,
    };
    assert_eq!(check_resolution_binding(&binding, v7(), 1_000), Ok(employee));
    assert_eq!(check_resolution_binding(&binding, v7(), 2_000), refused.clone());
    assert_eq!(check_resolution_binding(&binding, v4(), 1_000), refused.clone());
    let operator = ResolutionRunBinding { resolver_employee_id: None, ..binding };
    assert_eq!(check_resolution_binding(&operator, v7(), 1_000), refused.clone());
    let old = ResolutionRunBinding { spec_generation: 2, ..binding };
    assert_eq!(check_resolution_binding(&old, v7(), 1_000), refused.clone());
    assert_eq!(check_resolution_admission(Some(true), true, false, true), Ok(()));
    assert_eq!(check_resolution_admission(Some(true), true, true, true), Err(invalid(
        "Resolution admission is stale, unavailable, or violates ownership"
    )));
    assert_eq!(check_resolution_admission(None, true, false, true), Err(invalid(
        "Resolution admission is stale, unavailable, or violates ownership"
    )));
}

#[test]
fn derived_memory_revisions_are_immutable_successors() {
    let stale = Err(StorageError::StaleRevision { aggregate: "derived_memory" });
    assert_eq!(derived_memory_write(None, 1), Ok(DerivedMemoryWrite::Insert));
    assert_eq!(derived_memory_write(None, 2), stale);
    let head = StoredMemoryHead { revision: 4, identical: false, same_subject: true };
    assert_eq!(derived_memory_write(Some(head), 5), Ok(DerivedMemoryWrite::Update));
    assert_eq!(derived_memory_write(Some(head), 4), stale);
    assert_eq!(
        derived_memory_write(Some(StoredMemoryHead { identical: true, ..head }), 4),
        Ok(DerivedMemoryWrite::Unchanged)
    );
    assert_eq!(derived_memory_write(Some(StoredMemoryHead { same_subject: false, ..head }), 5), stale);
    assert_eq!(
        derived_memory_write(Some(StoredMemoryHead { revision: u64::MAX, ..head }), 1),
        Err(StorageError::IntegerOutOfRange { field: "memory.revision" })
    );
    assert_eq!(derived_memory_head_written(1), Ok(()));
    assert_eq!(
        derived_memory_head_written(0),
        Err(StorageError::StaleRevision { aggregate: "derived_memory" })
    );
}

#[test]
fn uncertain_environment_reports_never_release_a_reservation() {
    assert_eq!(environment_report_state(true, false), ReservationState::Quiescent);
    assert!(environment_report_state(true, false).is_release());
    assert_eq!(environment_report_state(true, true), ReservationState::Unknown);
    assert!(!environment_report_state(true, true).is_release());
    assert_eq!(environment_report_state(false, false), ReservationState::Active);
    assert_eq!(environment_report_state(false, true).as_str(), "unknown");
    assert_eq!(ReservationState::Quiescent.as_str(), "quiescent");
    assert_eq!(handoff_kind(true), "accepted");
    assert_eq!(handoff_kind(false), "interrupted");
    assert_eq!(IncidentKind::EvidenceIncomplete.as_str(), "evidence_incomplete");
    assert_eq!(IncidentKind::HeartbeatLost.as_str(), "heartbeat_lost");
}

#[test]
fn hook_invocations_start_running_and_finish_once() {
    let refused = Err(invalid("invalid Hook owner, state or physical admission"));
    assert_eq!(HookInvocationState::from_storage("held"), Ok(HookInvocationState::Held));
    assert_eq!(HookInvocationState::from_storage("queued"), refused.clone().map(|()| HookInvocationState::Held));
    assert_eq!(HookInvocationState::Completed.as_str(), "completed");
    assert_eq!(check_new_invocation(HookInvocationState::Running, true, false), Ok(()));
    assert_eq!(check_new_invocation(HookInvocationState::Running, false, false), refused.clone());
    assert_eq!(check_new_invocation(HookInvocationState::Running, true, true), refused.clone());
    assert_eq!(check_new_invocation(HookInvocationState::Held, true, false), refused.clone());
    assert_eq!(finishing_state(HookInvocationState::Completed), Ok(HookInvocationState::Completed));
    assert_eq!(finishing_state(HookInvocationState::Running), refused.clone().map(|()| HookInvocationState::Running));
    assert_eq!(hook_write_applied(1), Ok(()));
    assert_eq!(hook_write_applied(0), refused);
}
