use forge_storage::run_lifecycle::{
    decide_executor_submission, decide_observed_run_event, desired_state_after_observation,
    executor_submission_is_permitted, fenced_result, is_confirmed_terminal_stop,
    is_terminal_observed_state, observed_state_phase, observed_state_transition_is_monotonic,
    sequence_decision, stop_request_applies, stop_request_desired_state,
    submission_after_lease_and_dedupe,
    FencedMessage, ObservationDecision, RunFenceRow, SubmissionDecision,
};
use forge_storage::run_lifecycle::{
    decide_stored_observation, decide_stored_submission, StateColumn, StoredFenceRow,
    StoredObservation, StoredSubmission,
};
use forge_storage::{FencedWrite, RunDesiredState, RunObservedState, SequenceDecision, StorageError};

#[test]
fn run_sequence_accepts_only_its_exact_next_value() {
    let decision = sequence_decision(4, 5).expect("sequence decision");

    assert_eq!(decision, SequenceDecision::Apply);
}

#[test]
fn run_sequence_reports_a_gap_without_advancing() {
    let decision = sequence_decision(4, 6).expect("sequence decision");

    assert_eq!(
        decision,
        SequenceDecision::Gap {
            expected: 5,
            received: 6,
        }
    );
}

#[test]
fn run_sequence_ignores_an_already_accepted_value() {
    let decision = sequence_decision(4, 4).expect("sequence decision");

    assert_eq!(decision, SequenceDecision::Ignored);
}

#[test]
fn running_observation_confirms_core_running_intent() {
    let desired = desired_state_after_observation(
        RunDesiredState::ProvisionRequested,
        RunObservedState::Running,
    );

    assert_eq!(desired, RunDesiredState::Running);
}

#[test]
fn late_running_observation_preserves_graceful_stop_intent() {
    let desired =
        desired_state_after_observation(RunDesiredState::StopRequested, RunObservedState::Running);

    assert_eq!(desired, RunDesiredState::StopRequested);
}

#[test]
fn late_running_observation_preserves_forced_stop_intent() {
    let desired = desired_state_after_observation(
        RunDesiredState::ForceStopRequested,
        RunObservedState::Running,
    );

    assert_eq!(desired, RunDesiredState::ForceStopRequested);
}

#[test]
fn stopped_observation_records_terminal_core_intent() {
    let desired =
        desired_state_after_observation(RunDesiredState::StopRequested, RunObservedState::Stopped);

    assert_eq!(desired, RunDesiredState::Stopped);
}

#[test]
fn terminal_observation_cannot_return_to_running() {
    let allowed = observed_state_transition_is_monotonic(
        RunObservedState::Stopped,
        RunObservedState::Running,
    );

    assert!(!allowed);
}

#[test]
fn failed_observation_cannot_return_to_running() {
    let allowed =
        observed_state_transition_is_monotonic(RunObservedState::Failed, RunObservedState::Running);

    assert!(!allowed);
}

#[test]
fn failure_can_gain_later_positive_quiescence_evidence() {
    let allowed =
        observed_state_transition_is_monotonic(RunObservedState::Failed, RunObservedState::Stopped);

    assert!(allowed);
}

#[test]
fn observed_state_can_skip_to_a_confirmed_terminal_stop() {
    let allowed = observed_state_transition_is_monotonic(
        RunObservedState::Provisioning,
        RunObservedState::Stopped,
    );

    assert!(allowed);
}

#[test]
fn fenced_gap_exposes_the_recovery_sequence() {
    let write = FencedWrite::SequenceGap {
        expected: 5,
        received: 7,
    };

    assert!(matches!(
        write,
        FencedWrite::SequenceGap {
            expected: 5,
            received: 7
        }
    ));
}

#[test]
fn stopped_project_rejects_executor_submissions() {
    let allowed = executor_submission_is_permitted(false, RunDesiredState::Running);

    assert!(!allowed);
}

#[test]
fn stop_requested_run_rejects_executor_submissions() {
    let allowed = executor_submission_is_permitted(true, RunDesiredState::StopRequested);

    assert!(!allowed);
}

fn row(last: u64, desired: RunDesiredState, observed: RunObservedState) -> RunFenceRow {
    RunFenceRow {
        lease_fencing_token: 3,
        environment_epoch: 2,
        last_sequence: last,
        desired_state: desired,
        observed_state: observed,
    }
}

fn message(sequence: u64) -> FencedMessage {
    FencedMessage {
        lease_fencing_token: 3,
        environment_epoch: 2,
        sequence,
    }
}

#[test]
fn sequence_at_bigint_limit_is_out_of_range() {
    let result = sequence_decision(i64::MAX as u64, 1);
    assert!(matches!(
        result,
        Err(StorageError::IntegerOutOfRange {
            field: "run.next_sequence"
        })
    ));
    assert_eq!(
        sequence_decision(i64::MAX as u64 - 1, i64::MAX as u64).unwrap(),
        SequenceDecision::Apply
    );
}

#[test]
fn observation_of_a_missing_run_is_missing() {
    let decision =
        decide_observed_run_event(None, message(1), RunObservedState::Running).unwrap();
    assert_eq!(decision, ObservationDecision::Reply(FencedWrite::Missing));
}

#[test]
fn observation_with_a_stale_fence_is_ignored() {
    let mut stale = message(1);
    stale.lease_fencing_token = 2;
    let r = row(0, RunDesiredState::ProvisionRequested, RunObservedState::Unknown);
    assert_eq!(
        decide_observed_run_event(Some(r), stale, RunObservedState::Running).unwrap(),
        ObservationDecision::Reply(FencedWrite::Ignored)
    );
    let mut other_epoch = message(1);
    other_epoch.environment_epoch = 9;
    assert_eq!(
        decide_observed_run_event(Some(r), other_epoch, RunObservedState::Running).unwrap(),
        ObservationDecision::Reply(FencedWrite::Ignored)
    );
}

#[test]
fn running_observation_updates_state_and_start_time() {
    let r = row(0, RunDesiredState::ProvisionRequested, RunObservedState::Provisioning);
    let decision = decide_observed_run_event(Some(r), message(1), RunObservedState::Running).unwrap();
    match decision {
        ObservationDecision::Update(update) => {
            assert_eq!(update.observed_state, RunObservedState::Running);
            assert_eq!(update.desired_state, RunDesiredState::Running);
            assert_eq!(update.last_sequence, 1);
            assert!(update.starts);
            assert!(!update.finishes);
        }
        other => panic!("unexpected {other:?}"),
    }
}

#[test]
fn stopped_observation_finishes_the_run() {
    let r = row(4, RunDesiredState::StopRequested, RunObservedState::Stopping);
    let decision = decide_observed_run_event(Some(r), message(5), RunObservedState::Stopped).unwrap();
    match decision {
        ObservationDecision::Update(update) => {
            assert_eq!(update.desired_state, RunDesiredState::Stopped);
            assert!(update.finishes);
            assert!(!update.starts);
        }
        other => panic!("unexpected {other:?}"),
    }
}

#[test]
fn regressing_observation_is_rejected_with_both_states() {
    let r = row(4, RunDesiredState::Stopped, RunObservedState::Stopped);
    assert_eq!(
        decide_observed_run_event(Some(r), message(5), RunObservedState::Running).unwrap(),
        ObservationDecision::Reply(FencedWrite::InvalidObservedStateTransition {
            from: RunObservedState::Stopped,
            to: RunObservedState::Running,
        })
    );
}

#[test]
fn observation_gap_and_duplicate() {
    let r = row(4, RunDesiredState::Running, RunObservedState::Running);
    assert_eq!(
        decide_observed_run_event(Some(r), message(7), RunObservedState::Running).unwrap(),
        ObservationDecision::Reply(FencedWrite::SequenceGap {
            expected: 5,
            received: 7
        })
    );
    assert_eq!(
        decide_observed_run_event(Some(r), message(3), RunObservedState::Running).unwrap(),
        ObservationDecision::Reply(FencedWrite::Ignored)
    );
}

#[test]
fn submission_decisions_follow_gate_fence_and_lifecycle() {
    let live = row(1, RunDesiredState::Running, RunObservedState::Running);
    assert_eq!(
        decide_executor_submission(None, Some(live), message(2)).unwrap(),
        SubmissionDecision::Reply(FencedWrite::Missing)
    );
    assert_eq!(
        decide_executor_submission(Some(true), None, message(2)).unwrap(),
        SubmissionDecision::Reply(FencedWrite::Missing)
    );
    assert_eq!(
        decide_executor_submission(Some(true), Some(live), message(2)).unwrap(),
        SubmissionDecision::CheckLeaseAndRecord { sequence: 2 }
    );
    assert_eq!(
        decide_executor_submission(Some(false), Some(live), message(2)).unwrap(),
        SubmissionDecision::Reply(FencedWrite::Ignored)
    );
    let lost = row(1, RunDesiredState::Running, RunObservedState::Lost);
    assert_eq!(
        decide_executor_submission(Some(true), Some(lost), message(2)).unwrap(),
        SubmissionDecision::Reply(FencedWrite::Ignored)
    );
    assert_eq!(
        decide_executor_submission(Some(true), Some(live), message(4)).unwrap(),
        SubmissionDecision::Reply(FencedWrite::SequenceGap {
            expected: 2,
            received: 4
        })
    );
}

#[test]
fn submission_needs_active_lease_and_fresh_receipt() {
    assert_eq!(
        submission_after_lease_and_dedupe(false, true),
        Some(FencedWrite::Ignored)
    );
    assert_eq!(
        submission_after_lease_and_dedupe(true, false),
        Some(FencedWrite::Ignored)
    );
    assert_eq!(submission_after_lease_and_dedupe(true, true), None);
}

#[test]
fn guarded_update_outcomes() {
    assert_eq!(fenced_result(1, false), FencedWrite::Applied);
    assert_eq!(fenced_result(0, true), FencedWrite::Ignored);
    assert_eq!(fenced_result(0, false), FencedWrite::Missing);
}

#[test]
fn phases_terminal_states_and_stop_requests() {
    assert_eq!(observed_state_phase(RunObservedState::Unknown), 0);
    assert_eq!(observed_state_phase(RunObservedState::Stopping), 3);
    assert!(is_terminal_observed_state(RunObservedState::Lost));
    assert!(!is_terminal_observed_state(RunObservedState::Stopping));
    assert!(is_confirmed_terminal_stop(RunObservedState::Failed));
    assert!(!is_confirmed_terminal_stop(RunObservedState::Lost));
    assert_eq!(stop_request_desired_state(true), RunDesiredState::ForceStopRequested);
    assert_eq!(stop_request_desired_state(false), RunDesiredState::StopRequested);
    assert!(observed_state_transition_is_monotonic(
        RunObservedState::Lost,
        RunObservedState::Stopped
    ));
    assert!(!observed_state_transition_is_monotonic(
        RunObservedState::Stopped,
        RunObservedState::Failed
    ));
    assert_eq!(
        desired_state_after_observation(RunDesiredState::Running, RunObservedState::Lost),
        RunDesiredState::Running
    );
}

#[test]
fn stop_requests_escalate_but_never_downgrade() {
    for desired in [RunDesiredState::ProvisionRequested, RunDesiredState::Running] {
        assert!(stop_request_applies(desired, false, false));
        assert!(stop_request_applies(desired, true, false));
    }
    assert!(!stop_request_applies(RunDesiredState::StopRequested, false, true));
    assert!(stop_request_applies(RunDesiredState::StopRequested, true, false));
    assert!(!stop_request_applies(RunDesiredState::ForceStopRequested, false, true));
    assert!(!stop_request_applies(RunDesiredState::ForceStopRequested, true, true));
    for finished in [RunDesiredState::Stopped, RunDesiredState::Failed] {
        assert!(!stop_request_applies(finished, false, true));
        assert!(!stop_request_applies(finished, true, false));
        assert!(stop_request_applies(finished, true, true));
    }
}

fn stored(token: i64, last: i64) -> StoredFenceRow {
    StoredFenceRow {
        lease_fencing_token: token,
        environment_epoch: 1,
        last_sequence: last,
        desired_state: Some(RunDesiredState::Running),
        observed_state: Some(RunObservedState::Running),
    }
}

#[test]
fn a_stale_message_is_ignored_however_the_rest_of_the_row_reads() {
    let message = FencedMessage { lease_fencing_token: 2, environment_epoch: 1, sequence: 5 };
    let corrupt = StoredFenceRow { last_sequence: -1, desired_state: None, observed_state: None, ..stored(3, 4) };
    assert_eq!(
        decide_stored_observation(Some(corrupt), message, RunObservedState::Running),
        Ok(StoredObservation::Reply(FencedWrite::Ignored))
    );
    assert_eq!(
        decide_stored_submission(Some(true), Some(corrupt), message),
        Ok(StoredSubmission::Reply(FencedWrite::Ignored))
    );
    let behind = StoredFenceRow { desired_state: None, observed_state: None, ..stored(2, 7) };
    assert_eq!(
        decide_stored_observation(Some(behind), message, RunObservedState::Running),
        Ok(StoredObservation::Reply(FencedWrite::Ignored))
    );
    assert_eq!(
        decide_stored_observation(Some(stored(-1, 4)), message, RunObservedState::Running),
        Err(StorageError::IntegerOutOfRange { field: "run.lease_fencing_token" })
    );
}

#[test]
fn state_columns_are_read_only_when_the_decision_needs_them() {
    let message = FencedMessage { lease_fencing_token: 2, environment_epoch: 1, sequence: 5 };
    let no_observed = StoredFenceRow { observed_state: None, ..stored(2, 4) };
    assert_eq!(
        decide_stored_observation(Some(no_observed), message, RunObservedState::Running),
        Ok(StoredObservation::Corrupt(StateColumn::Observed))
    );
    let no_desired = StoredFenceRow { desired_state: None, ..stored(2, 4) };
    assert_eq!(
        decide_stored_submission(Some(true), Some(no_desired), message),
        Ok(StoredSubmission::Corrupt(StateColumn::Desired))
    );
    // A stopped Project ignores the submission before its observed state is read.
    assert_eq!(
        decide_stored_submission(Some(false), Some(no_observed), message),
        Ok(StoredSubmission::Reply(FencedWrite::Ignored))
    );
    match decide_stored_observation(Some(stored(2, 4)), message, RunObservedState::Stopping) {
        Ok(StoredObservation::Update { change, current }) => {
            assert_eq!(change.last_sequence, 5);
            assert_eq!(current.last_sequence, 4);
            assert_eq!(change.desired_state, RunDesiredState::Running);
        }
        other => panic!("unexpected {other:?}"),
    }
    assert_eq!(
        decide_stored_submission(None, Some(stored(2, 4)), message),
        Ok(StoredSubmission::Reply(FencedWrite::Missing))
    );
}
