use std::time::Duration;

use forge_storage::outbox::{
    claimed_lease_lock, event_subject, failure_mark, publish_mark, validate_error_code,
    validate_owner, CLAIM_OUTBOX_BATCH_SQL,
};
use forge_storage::{OutboxClaimRequest, OutboxFailureMark, OutboxPublishMark, StorageError};

#[test]
fn claim_request_enforces_bounded_batch_and_attempt_limits() {
    let result = OutboxClaimRequest::new(
        "core:drain".to_owned(),
        101,
        3,
        Duration::from_secs(30).as_nanos(),
    );

    assert!(result.is_err());
}

#[test]
fn claim_request_rejects_a_non_unique_blank_owner() {
    let result =
        OutboxClaimRequest::new("  ".to_owned(), 10, 3, Duration::from_secs(30).as_nanos());

    assert!(result.is_err());
}

#[test]
fn claim_query_reserves_rows_with_skip_locked_and_a_fresh_attempt() {
    assert!(CLAIM_OUTBOX_BATCH_SQL.contains("FOR UPDATE SKIP LOCKED"));
    assert!(CLAIM_OUTBOX_BATCH_SQL.contains("delivery_state = 'leased'"));
    assert!(CLAIM_OUTBOX_BATCH_SQL.contains("attempt_count = o.attempt_count + 1"));
}

fn reason(result: Result<OutboxClaimRequest, StorageError>) -> String {
    match result {
        Err(StorageError::InvalidInput { reason }) => reason,
        other => panic!("unexpected {other:?}"),
    }
}

#[test]
fn claim_request_accepts_bounds_and_reports_each_violation() {
    let thirty = Duration::from_secs(30).as_nanos();
    let ok = OutboxClaimRequest::new("core:drain".to_owned(), 100, 100, thirty).unwrap();
    assert_eq!(ok.batch_size, 100);
    assert_eq!(ok.lease_duration_millis().unwrap(), 30_000);
    assert_eq!(
        reason(OutboxClaimRequest::new("core".to_owned(), 0, 3, thirty)),
        "outbox batch_size must be 1..=100"
    );
    assert_eq!(
        reason(OutboxClaimRequest::new("core".to_owned(), 1, 101, thirty)),
        "outbox max_attempts must be 1..=100"
    );
    assert_eq!(
        reason(OutboxClaimRequest::new(
            "core".to_owned(),
            1,
            1,
            Duration::from_millis(999).as_nanos()
        )),
        "outbox lease_duration must be 1 second through 1 hour"
    );
    assert!(OutboxClaimRequest::new("core".to_owned(), 1, 1, Duration::from_secs(3600).as_nanos()).is_ok());
    assert!(OutboxClaimRequest::new(
        "core".to_owned(),
        1,
        1,
        Duration::from_secs(3600).as_nanos() + 1
    )
    .is_err());
    assert_eq!(
        reason(OutboxClaimRequest::new("x".repeat(129), 1, 1, thirty)),
        "outbox owner must be non-blank and at most 128 bytes"
    );
    assert!(OutboxClaimRequest::new("x".repeat(128), 1, 1, thirty).is_ok());
}

#[test]
fn owner_blankness_uses_unicode_whitespace() {
    assert!(validate_owner("\u{3000}\t\n").is_err());
    assert!(validate_owner(" a ").is_ok());
    assert!(validate_owner("").is_err());
    // 43 three-byte characters are 129 bytes.
    assert!(validate_owner(&"\u{20ac}".repeat(43)).is_err());
    assert!(validate_owner(&"\u{20ac}".repeat(42)).is_ok());
}

#[test]
fn error_codes_are_short_lowercase_identifiers() {
    assert!(validate_error_code("broker_timeout_2").is_ok());
    assert!(validate_error_code("").is_err());
    assert!(validate_error_code("Broker").is_err());
    assert!(validate_error_code("broker-timeout").is_err());
    assert!(validate_error_code(&"a".repeat(64)).is_ok());
    assert!(validate_error_code(&"a".repeat(65)).is_err());
}

#[test]
fn publish_and_failure_marks() {
    assert_eq!(publish_mark(1), OutboxPublishMark::Published);
    assert_eq!(publish_mark(0), OutboxPublishMark::LeaseLost);
    assert_eq!(failure_mark(None).unwrap(), OutboxFailureMark::LeaseLost);
    assert_eq!(
        failure_mark(Some("pending")).unwrap(),
        OutboxFailureMark::RetryScheduled
    );
    assert_eq!(
        failure_mark(Some("dead_letter")).unwrap(),
        OutboxFailureMark::DeadLettered
    );
    assert!(matches!(
        failure_mark(Some("published")),
        Err(StorageError::InvalidInput { .. })
    ));
}

#[test]
fn claimed_rows_need_owner_and_expiry() {
    assert!(claimed_lease_lock::<u8>(None, Some(1)).is_err());
    assert!(claimed_lease_lock::<u8>(Some("o".to_owned()), None).is_err());
    assert_eq!(
        claimed_lease_lock(Some("o".to_owned()), Some(7u8)).unwrap(),
        ("o".to_owned(), 7)
    );
}

#[test]
fn event_subject_is_built_from_safe_identifiers_only() {
    let project = uuid::Uuid::parse_str("0190f2a4-7b3c-7d21-8e4f-0123456789ab").unwrap();
    assert_eq!(
        event_subject(project.as_u128(), "task_created"),
        "forge.v1.project.0190f2a4-7b3c-7d21-8e4f-0123456789ab.event.task_created"
    );
    let other = uuid::Uuid::now_v7();
    assert_eq!(
        event_subject(other.as_u128(), "run_stopped"),
        format!("forge.v1.project.{other}.event.run_stopped")
    );
}
