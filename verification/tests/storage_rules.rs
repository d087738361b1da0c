use forge_storage::resolution::{
    check_escalation_update, resolution_write_applied, resolver_route_write,
};
use forge_storage::file_snapshots::{
    finish_applied, finished_state_text, snapshot_page_limit, FileSnapshotState,
};
use forge_storage::admission::{
    admission_count, admission_limit, admission_profile_for, admission_reconfiguration,
    admission_result, employee_admits_run, AdmissionProfile,
};
use forge_storage::executor_artifacts::{
    artifact_insert_result, receipt_reservation_result, validate_executor_location,
    validate_lookup_ids, ExecutorLocationFacts,
};
use forge_storage::knowledge::{
    knowledge_head_written, knowledge_revision_write, validate_digest, validate_limit,
    KnowledgeProjectionKind, RevisionWrite,
};
use forge_storage::read::{
    catalog_count, catalog_latest_version, check_dependency_row, employee_count, integration_blocks_dispatch, integration_reviews_accepted, validate_page_limit, DependencyDirection,
    DependencyRowScope, IntegrationState, StageReview,
};
use forge_storage::scheduler::{
    decide_lease_run, dispatch_gate, dispatch_gates, lease_run_precheck, project_gate,
    provisioned_run_row, DispatchGate,
};
use forge_storage::executor_artifacts::{ArtifactLocation, ExecutorArtifactWrite};
use forge_storage::read::{parse_dependency_condition, DependencyCondition};
use forge_storage::run_lifecycle::canonical_observation_time;
use forge_storage::{
    i32_to_u32, i64_to_u64, u32_to_i32, u64_to_i64, ExecutorArtifactReceipt,
    ExecutorArtifactRunScope, QueueState, RunDesiredState, RunObservedState, StorageError,
};

#[test]
fn run_scope_rejects_zero_fencing_token() {
    let result = ExecutorArtifactRunScope::new(uuid::Uuid::now_v7().as_u128(), 0, 1);

    assert!(matches!(result, Err(StorageError::InvalidInput { .. })));
}

#[test]
fn receipt_rejects_nil_message_id() {
    let result =
        ExecutorArtifactReceipt::new(uuid::Uuid::nil().as_u128(), uuid::Uuid::now_v7().as_u128(), 1, 1);

    assert!(matches!(result, Err(StorageError::InvalidInput { .. })));
}

fn employee_run_location(run_id: u128) -> ExecutorLocationFacts {
    ExecutorLocationFacts {
        producer_is_employee_run: true,
        run_id: Some(run_id),
        task_id: Some(uuid::Uuid::now_v7().as_u128()),
        has_stage_id: true,
    }
}

#[test]
fn executor_write_rejects_non_employee_run_location() {
    let run_id = uuid::Uuid::now_v7().as_u128();
    let mut location = employee_run_location(run_id);
    location.producer_is_employee_run = false;
    let receipt =
        ExecutorArtifactReceipt::new(uuid::Uuid::now_v7().as_u128(), run_id, 1, 1).expect("receipt");

    let result = validate_executor_location(&location, receipt);

    assert!(matches!(result, Err(StorageError::InvalidInput { .. })));
}

#[test]
fn executor_write_rejects_a_different_run_than_its_receipt() {
    let location = employee_run_location(uuid::Uuid::now_v7().as_u128());
    let receipt = ExecutorArtifactReceipt::new(
        uuid::Uuid::now_v7().as_u128(),
        uuid::Uuid::now_v7().as_u128(),
        1,
        1,
    )
    .expect("receipt");

    let result = validate_executor_location(&location, receipt);

    assert!(matches!(result, Err(StorageError::InvalidInput { .. })));
}

#[test]
fn executor_receipts_keep_their_scope() {
    let receipt = ExecutorArtifactReceipt::new(9, 5, 3, 2).unwrap();
    assert_eq!(receipt.message_id(), 9);
    assert_eq!(receipt.scope().run_id(), 5);
    assert_eq!(receipt.scope().lease_fencing_token(), 3);
    assert_eq!(receipt.scope().environment_epoch(), 2);
    assert!(ExecutorArtifactRunScope::new(0, 1, 1).is_err());
    assert!(ExecutorArtifactRunScope::new(1, 1, 0).is_err());
    assert!(validate_executor_location(&employee_run_location(5), receipt).is_ok());
    let mut no_task = employee_run_location(5);
    no_task.task_id = None;
    assert!(validate_executor_location(&no_task, receipt).is_err());
    let mut no_stage = employee_run_location(5);
    no_stage.has_stage_id = false;
    assert!(validate_executor_location(&no_stage, receipt).is_err());
    assert!(validate_lookup_ids(&vec![1, 2]).is_ok());
    assert!(validate_lookup_ids(&vec![1, 0]).is_err());
    assert!(receipt_reservation_result(true, true).is_ok());
    assert_eq!(
        receipt_reservation_result(false, true),
        Err(StorageError::ExecutorArtifactReceiptAlreadyMapped)
    );
    assert_eq!(
        receipt_reservation_result(false, false),
        Err(StorageError::StaleRevision {
            aggregate: "run artifact receipt fence"
        })
    );
    assert!(artifact_insert_result(1).is_ok());
    assert!(artifact_insert_result(0).is_err());
}

#[test]
fn integer_column_conversions() {
    assert_eq!(u64_to_i64(5, "f").unwrap(), 5);
    assert_eq!(
        u64_to_i64(u64::MAX, "f"),
        Err(StorageError::IntegerOutOfRange { field: "f" })
    );
    assert_eq!(i64_to_u64(-1, "g"), Err(StorageError::IntegerOutOfRange { field: "g" }));
    assert_eq!(i64_to_u64(i64::MAX, "g").unwrap(), i64::MAX as u64);
    assert_eq!(u32_to_i32(u32::MAX, "h"), Err(StorageError::IntegerOutOfRange { field: "h" }));
    assert_eq!(i32_to_u32(7, "h").unwrap(), 7);
}

#[test]
fn lease_and_run_creation_gates() {
    assert!(lease_run_precheck(QueueState::Queued, 1).is_err());
    assert_eq!(lease_run_precheck(QueueState::Leased, 7).unwrap(), 7);
    assert!(matches!(
        lease_run_precheck(QueueState::Leased, 0),
        Err(StorageError::InvalidInput { .. })
    ));
    assert_eq!(
        lease_run_precheck(QueueState::Leased, 40_000),
        Err(StorageError::IntegerOutOfRange {
            field: "run.run_spec_version"
        })
    );
    assert_eq!(
        project_gate(None),
        Err(StorageError::NotFound { aggregate: "project" })
    );
    assert!(project_gate(Some(false)).is_err());
    assert!(project_gate(Some(true)).is_ok());
    assert_eq!(dispatch_gates().len(), 6);
    assert_eq!(dispatch_gates()[0], DispatchGate::TaskCurrent);
    assert_eq!(
        dispatch_gate(DispatchGate::EmployeeCapacity, false),
        Err(StorageError::StaleRevision {
            aggregate: "employee"
        })
    );
    assert!(dispatch_gate(DispatchGate::NoGitIntegration, true).is_ok());
    let row = provisioned_run_row(11, 1);
    assert_eq!(row.last_sequence, 0);
    assert_eq!(row.desired_state, RunDesiredState::ProvisionRequested);
    assert_eq!(row.observed_state, RunObservedState::Unknown);
}

#[test]
fn admission_rules() {
    assert_eq!(admission_profile_for(1).unwrap(), AdmissionProfile::NotRequired);
    assert_eq!(admission_profile_for(5).unwrap(), AdmissionProfile::NotRequired);
    assert_eq!(admission_profile_for(3).unwrap(), AdmissionProfile::Required);
    assert_eq!(admission_profile_for(7).unwrap(), AdmissionProfile::Required);
    assert!(admission_profile_for(8).is_err());
    assert!(admission_profile_for(0).is_err());
    assert!(admission_result(true).is_ok());
    assert_eq!(
        admission_result(false),
        Err(StorageError::StaleRevision {
            aggregate: "shared Run capacity"
        })
    );
    assert!(admission_count(-1).is_err());
    assert_eq!(admission_limit(65_535).unwrap(), 65_535);
    assert!(admission_limit(65_536).is_err());
    assert_eq!(admission_reconfiguration(false, true).unwrap(), false);
    assert_eq!(admission_reconfiguration(true, false).unwrap(), true);
    assert!(admission_reconfiguration(true, true).is_err());
}

#[test]
fn knowledge_rules() {
    let markdown = "# Title";
    let hash = forge_storage::evidence::digest(markdown.as_bytes());
    assert!(validate_digest(markdown, &hash).is_ok());
    assert!(validate_digest("# Other", &hash).is_err());
    assert_eq!(knowledge_revision_write(0, 1).unwrap(), RevisionWrite::Insert);
    assert_eq!(knowledge_revision_write(4, 5).unwrap(), RevisionWrite::Update);
    assert_eq!(
        knowledge_revision_write(4, 6),
        Err(StorageError::StaleRevision {
            aggregate: "knowledge_page"
        })
    );
    assert!(knowledge_head_written(1).is_ok());
    assert!(knowledge_head_written(2).is_err());
    assert!(validate_limit(100).is_ok());
    assert!(validate_limit(0).is_err());
    assert_eq!(
        KnowledgeProjectionKind::from_storage("derived_memory").unwrap(),
        KnowledgeProjectionKind::DerivedMemory
    );
    assert_eq!(
        KnowledgeProjectionKind::from_storage(KnowledgeProjectionKind::KnowledgePage.as_str())
            .unwrap(),
        KnowledgeProjectionKind::KnowledgePage
    );
    assert!(KnowledgeProjectionKind::from_storage("page").is_err());
}

#[test]
fn read_rules() {
    assert!(validate_page_limit(101, 101, "page limit").is_ok());
    assert_eq!(
        validate_page_limit(0, 101, "page limit"),
        Err(StorageError::InvalidInput {
            reason: "page limit".to_owned()
        })
    );
    assert_eq!(
        DependencyDirection::BlockedBy.columns(),
        ("blocked_task_id", "blocker_task_id")
    );
    assert_eq!(DependencyDirection::Blocks.related(1, 2), 2);
    let row = DependencyRowScope {
        related_project: 9,
        related_task: 1,
        blocker_project: 9,
        blocker_task: 1,
        edge_blocker: 1,
        edge_blocked: 2,
    };
    assert!(check_dependency_row(9, DependencyDirection::BlockedBy, row).is_ok());
    assert!(check_dependency_row(9, DependencyDirection::Blocks, row).is_err());
    assert!(check_dependency_row(8, DependencyDirection::BlockedBy, row).is_err());
    assert!(integration_blocks_dispatch(IntegrationState::Held));
    assert!(!integration_blocks_dispatch(IntegrationState::Retired));
}

#[test]
fn employee_capacity_counts_held_slots_against_its_limit() {
    assert!(employee_admits_run(true, true, 0, 1));
    assert!(!employee_admits_run(true, true, 1, 1));
    assert!(!employee_admits_run(false, true, 0, 1));
    assert!(!employee_admits_run(true, false, 0, 1));
    assert!(employee_admits_run(true, true, 2, 3));
}

#[test]
fn persisted_counts_name_the_column_they_came_from() {
    assert_eq!(employee_count(3, "occupied_slots"), Ok(3));
    assert_eq!(
        employee_count(-1, "occupied_slots"),
        Err(StorageError::InvalidInput { reason: "invalid occupied_slots count".to_owned() })
    );
    assert_eq!(catalog_count(0, "revision"), Ok(0));
    assert_eq!(
        catalog_count(-5, "pinned_task_count"),
        Err(StorageError::InvalidInput {
            reason: "invalid pinned_task_count in pipeline catalog".to_owned()
        })
    );
    assert_eq!(catalog_latest_version(None), Ok(None));
    assert_eq!(catalog_latest_version(Some(7)), Ok(Some(7)));
    assert_eq!(catalog_latest_version(Some(i64::from(u32::MAX))), Ok(Some(u32::MAX)));
    let invalid = Err(StorageError::InvalidInput {
        reason: "invalid latest version in pipeline catalog".to_owned(),
    });
    assert_eq!(catalog_latest_version(Some(i64::from(u32::MAX) + 1)), invalid.clone());
    assert_eq!(catalog_latest_version(Some(-1)), invalid);
}

#[test]
fn integration_needs_an_accepting_review_of_this_candidate_at_every_stage() {
    let ok = StageReview { accepted: true, task_id: 7, candidate_proposal_id: 9 };
    assert!(integration_reviews_accepted(&vec![Some(ok), Some(ok)], 7, 9));
    assert!(integration_reviews_accepted(&vec![], 7, 9));
    assert!(!integration_reviews_accepted(&vec![Some(ok), None], 7, 9));
    let rejected = StageReview { accepted: false, ..ok };
    assert!(!integration_reviews_accepted(&vec![Some(rejected)], 7, 9));
    let other_candidate = StageReview { candidate_proposal_id: 8, ..ok };
    assert!(!integration_reviews_accepted(&vec![Some(ok), Some(other_candidate)], 7, 9));
    let other_task = StageReview { task_id: 6, ..ok };
    assert!(!integration_reviews_accepted(&vec![Some(other_task)], 7, 9));
}

#[test]
fn file_snapshot_finish_records_only_finished_captures_once() {
    assert_eq!(finished_state_text(FileSnapshotState::Sealed), Ok("sealed"));
    assert_eq!(finished_state_text(FileSnapshotState::Failed), Ok("failed"));
    assert_eq!(
        finished_state_text(FileSnapshotState::Pending),
        Err(StorageError::InvalidInput { reason: "snapshot is not finished".to_owned() })
    );
    assert_eq!(finish_applied(1), Ok(()));
    assert_eq!(
        finish_applied(0),
        Err(StorageError::StaleRevision { aggregate: "file_snapshot" })
    );
    assert_eq!(snapshot_page_limit(0), 1);
    assert_eq!(snapshot_page_limit(50), 50);
    assert_eq!(snapshot_page_limit(500), 101);
}

#[test]
fn resolution_writes_follow_revisions_and_advance_generation_by_one() {
    let refused = Err(StorageError::InvalidInput {
        reason: "invalid resolution scope, revision, or state".to_owned(),
    });
    assert_eq!(resolver_route_write(1, None), Ok((1, None)));
    assert_eq!(resolver_route_write(2, None).map(|_| ()), refused.clone());
    assert_eq!(resolver_route_write(4, Some(3)), Ok((4, Some(3))));
    assert_eq!(resolver_route_write(5, Some(3)).map(|_| ()), refused.clone());
    assert_eq!(resolver_route_write(0, Some(u64::MAX)).map(|_| ()), refused.clone());
    assert_eq!(
        resolver_route_write(u64::MAX, Some(u64::MAX - 1)),
        Err(StorageError::IntegerOutOfRange { field: "route.revision" })
    );
    assert_eq!(
        resolver_route_write(1u64 << 63, Some((1u64 << 63) - 1)),
        Err(StorageError::IntegerOutOfRange { field: "route.revision" })
    );
    assert_eq!(check_escalation_update(3, 5, 3, 5), Ok(()));
    assert_eq!(check_escalation_update(3, 5, 3, 6), Ok(()));
    assert_eq!(check_escalation_update(3, 5, 3, 7), refused.clone());
    assert_eq!(check_escalation_update(3, 5, 3, 4), refused.clone());
    assert_eq!(check_escalation_update(3, 5, 2, 5), refused.clone());
    assert_eq!(check_escalation_update(0, u64::MAX, 0, u64::MAX), refused.clone());
    assert_eq!(resolution_write_applied(1), Ok(()));
    assert_eq!(resolution_write_applied(0), refused);
}

#[test]
fn a_lease_run_is_decided_by_the_first_failing_check() {
    let open = vec![true; 6];
    assert_eq!(decide_lease_run(QueueState::Leased, 3, Some(true), &open), Ok(3));
    assert!(matches!(
        decide_lease_run(QueueState::Queued, 0, None, &vec![]),
        Err(StorageError::InvalidInput { reason }) if reason == "a run can only be created from a leased queue entry"
    ));
    assert_eq!(
        decide_lease_run(QueueState::Leased, 40_000, None, &open),
        Err(StorageError::IntegerOutOfRange { field: "run.run_spec_version" })
    );
    assert_eq!(
        decide_lease_run(QueueState::Leased, 3, None, &open),
        Err(StorageError::NotFound { aggregate: "project" })
    );
    assert!(matches!(
        decide_lease_run(QueueState::Leased, 3, Some(false), &open),
        Err(StorageError::InvalidInput { reason }) if reason == "project execution is stopped"
    ));
    // The adapter stops at the first closed gate; that gate decides.
    assert_eq!(
        decide_lease_run(QueueState::Leased, 3, Some(true), &vec![false]),
        Err(StorageError::StaleRevision { aggregate: "task dispatch state" })
    );
    assert!(matches!(
        decide_lease_run(QueueState::Leased, 3, Some(true), &vec![true, true, false]),
        Err(StorageError::InvalidInput { reason }) if reason == "next Run Employee constraint does not permit this assignment"
    ));
    assert_eq!(
        decide_lease_run(QueueState::Leased, 3, Some(true), &vec![true, true, true, true, true, false]),
        Err(StorageError::StaleRevision { aggregate: "employee" })
    );
    // A gate whose result was never read counts as closed.
    assert_eq!(
        decide_lease_run(QueueState::Leased, 3, Some(true), &vec![true, true, true]),
        Err(StorageError::StaleRevision { aggregate: "task dependency gate" })
    );
}

#[test]
fn an_executor_write_keeps_its_location_and_receipt() {
    let receipt = ExecutorArtifactReceipt::new(9, 5, 3, 2).unwrap();
    let location = ArtifactLocation {
        task_id: Some(4),
        run_id: Some(5),
        stage_id: Some("review".to_owned()),
        producer_type: "employee_run".to_owned(),
        producer_id: Some(5),
    };
    let write = ExecutorArtifactWrite::new("body", location.clone(), receipt).unwrap();
    assert_eq!(*write.artifact(), "body");
    assert_eq!(write.location().run_id, Some(5));
    assert_eq!(write.receipt(), receipt);
    assert!(matches!(
        ExecutorArtifactWrite::new("body", ArtifactLocation { run_id: Some(6), ..location.clone() }, receipt),
        Err(StorageError::InvalidInput { reason }) if reason == "executor artifact location run_id must match receipt run_id"
    ));
    assert!(matches!(
        ExecutorArtifactWrite::new("body", ArtifactLocation::human(Some(4)), receipt),
        Err(StorageError::InvalidInput { reason }) if reason == "executor artifact location must use employee_run producer"
    ));
    let human = ArtifactLocation::human(Some(4));
    assert_eq!(human.producer_type, "human");
    assert_eq!((human.task_id, human.run_id, human.producer_id), (Some(4), None, None));
    assert!(!human.facts().producer_is_employee_run);
    assert!(location.facts().producer_is_employee_run);
}

#[test]
fn only_done_dependency_conditions_are_read() {
    assert_eq!(parse_dependency_condition("done"), Ok(DependencyCondition::Done));
    assert_eq!(
        parse_dependency_condition("in_progress"),
        Err(StorageError::InvalidInput { reason: "unsupported stored dependency condition".to_owned() })
    );
}

#[test]
fn canonical_run_time_uses_core_receipt_not_supervisor_report() {
    let reported_at = time::OffsetDateTime::from_unix_timestamp(1).expect("reported timestamp");
    let received_at = time::OffsetDateTime::from_unix_timestamp(2).expect("received timestamp");
    assert_eq!(canonical_observation_time(reported_at, received_at), received_at);
}
