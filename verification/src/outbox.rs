//! Bounded transactional claiming and acknowledgement of durable outbox rows.
//!
//! PostgreSQL remains the delivery authority. A publisher can only reserve an
//! outbox row; it must receive an external broker acknowledgement before the
//! row is marked published.
use vstd::prelude::*;

use crate::error::StorageError;
use crate::evidence::layout::{uuid_string, uuid_text};
use vstd::string::StringExecFns;
use crate::text::{blank, byte_len, is_blank, text_equals};

verus! {

/// Largest number of rows one claim reserves.
pub const MAX_BATCH_SIZE: u32 = 100;

/// Largest publication attempt bound.
pub const MAX_ATTEMPTS: u32 = 100;

/// Shortest lease, in nanoseconds (one second).
pub const MIN_LEASE_DURATION_NANOS: u128 = 1_000_000_000;

/// Longest lease, in nanoseconds (one hour).
pub const MAX_LEASE_DURATION_NANOS: u128 = 3_600_000_000_000;

/// Longest owner token, in bytes.
pub const MAX_OWNER_LENGTH: usize = 128;

/// Longest stable error code, in bytes.
pub const MAX_ERROR_CODE_LENGTH: usize = 64;

/// Reserves pending or expired leased rows below the attempt bound with
/// `SKIP LOCKED`, leasing each to one owner with a fresh attempt.
pub const CLAIM_OUTBOX_BATCH_SQL: &'static str = "WITH candidate AS (SELECT id FROM outbox WHERE ((delivery_state = \u{27}pending\u{27} AND available_at <= clock_timestamp()) OR (delivery_state = \u{27}leased\u{27} AND lock_expires_at <= clock_timestamp())) AND attempt_count < $1 ORDER BY available_at ASC, created_at ASC, id ASC FOR UPDATE SKIP LOCKED LIMIT $2) UPDATE outbox AS o SET delivery_state = \u{27}leased\u{27}, lock_owner = $3, lock_expires_at = clock_timestamp() + ($4 * interval \u{27}1 millisecond\u{27}), attempt_count = o.attempt_count + 1 FROM candidate WHERE o.id = candidate.id RETURNING o.id, o.project_id, o.event_id, o.subject, o.envelope::text AS envelope, o.attempt_count, o.lock_owner, o.lock_expires_at";

/// A bounded request to reserve ready durable outbox records for one publisher.
#[derive(Clone, Debug)]
pub struct OutboxClaimRequest {
    /// Per-drain unique owner token. It prevents an expired previous lease from
    /// acknowledging a record claimed by a later drain.
    pub owner: String,
    /// Maximum number of records reserved in one database transaction.
    pub batch_size: u32,
    /// Maximum total publication attempts before a record becomes dead letter.
    pub max_attempts: u32,
    /// How long a publisher owns each record before another publisher may
    /// retry it, in nanoseconds.
    pub lease_duration_nanos: u128,
}

/// An owner token is non-blank and at most 128 bytes.
pub open spec fn owner_valid(owner: Seq<char>) -> bool {
    !blank(owner) && byte_len(owner) <= 128
}

/// A valid claim request.
pub open spec fn claim_valid(owner: Seq<char>, batch_size: u32, max_attempts: u32, nanos: u128) -> bool {
    &&& owner_valid(owner)
    &&& 1 <= batch_size <= 100
    &&& 1 <= max_attempts <= 100
    &&& 1_000_000_000 <= nanos <= 3_600_000_000_000
}

/// Checks an outbox owner token.
pub fn validate_owner(value: &str) -> (res: Result<(), StorageError>)
    ensures
        owner_valid(value@) ==> res is Ok,
        !owner_valid(value@) ==> (res matches Err(StorageError::InvalidInput { reason }) && reason@
            == "outbox owner must be non-blank and at most 128 bytes"@),
{
    if is_blank(value) || value.as_bytes().len() > MAX_OWNER_LENGTH {
        return Err(
            StorageError::InvalidInput {
                reason: "outbox owner must be non-blank and at most 128 bytes".to_owned(),
            },
        );
    }
    Ok(())
}

/// A stable error code: 1..=64 lowercase ASCII letters, digits, or underscores.
pub open spec fn error_code_valid(bytes: Seq<u8>) -> bool {
    &&& 0 < bytes.len() <= 64
    &&& forall|i: int|
        0 <= i < bytes.len() ==> ((0x61 <= #[trigger] bytes[i] <= 0x7a) || (0x30 <= bytes[i]
            <= 0x39) || bytes[i] == 0x5f)
}

/// Checks a stable outbox error code; raw broker errors are never persisted.
pub fn validate_error_code(value: &str) -> (res: Result<(), StorageError>)
    ensures
        error_code_valid(vstd::utf8::encode_utf8(value@)) ==> res is Ok,
        !error_code_valid(vstd::utf8::encode_utf8(value@)) ==> (res matches Err(
            StorageError::InvalidInput { reason },
        ) && reason@
            == "outbox error_code must be 1..=64 lowercase ASCII letters, digits, or underscores"@),
{
    let bytes = value.as_bytes();
    let mut valid = bytes.len() > 0 && bytes.len() <= MAX_ERROR_CODE_LENGTH;
    let mut i: usize = 0;
    while valid && i < bytes.len()
        invariant
            i <= bytes@.len(),
            bytes@ == vstd::utf8::encode_utf8(value@),
            valid ==> 0 < bytes@.len() <= 64,
            valid ==> forall|k: int|
                0 <= k < i ==> ((0x61 <= #[trigger] bytes@[k] <= 0x7a) || (0x30 <= bytes@[k]
                    <= 0x39) || bytes@[k] == 0x5f),
            !valid ==> !error_code_valid(bytes@),
        decreases bytes@.len() - i,
    {
        let b = bytes[i];
        if !((0x61 <= b && b <= 0x7a) || (0x30 <= b && b <= 0x39) || b == 0x5f) {
            valid = false;
        }
        i += 1;
    }
    if valid {
        Ok(())
    } else {
        Err(
            StorageError::InvalidInput {
                reason: "outbox error_code must be 1..=64 lowercase ASCII letters, digits, or underscores".to_owned(),
            },
        )
    }
}

impl OutboxClaimRequest {
    /// Creates a validated bounded outbox reservation request. The checks run
    /// in order: owner, batch size, attempt bound, lease duration.
    pub fn new(owner: String, batch_size: u32, max_attempts: u32, lease_duration_nanos: u128) -> (res:
        Result<Self, StorageError>)
        ensures
            claim_valid(owner@, batch_size, max_attempts, lease_duration_nanos) ==> (res matches Ok(
                r,
            ) && r.owner@ == owner@ && r.batch_size == batch_size && r.max_attempts == max_attempts
                && r.lease_duration_nanos == lease_duration_nanos),
            !owner_valid(owner@) ==> (res matches Err(StorageError::InvalidInput { reason })
                && reason@ == "outbox owner must be non-blank and at most 128 bytes"@),
            owner_valid(owner@) && !(1 <= batch_size <= 100) ==> (res matches Err(
                StorageError::InvalidInput { reason },
            ) && reason@ == "outbox batch_size must be 1..=100"@),
            owner_valid(owner@) && 1 <= batch_size <= 100 && !(1 <= max_attempts <= 100) ==> (res
                matches Err(StorageError::InvalidInput { reason }) && reason@
                == "outbox max_attempts must be 1..=100"@),
            owner_valid(owner@) && 1 <= batch_size <= 100 && 1 <= max_attempts <= 100 && !(
            1_000_000_000 <= lease_duration_nanos <= 3_600_000_000_000) ==> (res matches Err(
                StorageError::InvalidInput { reason },
            ) && reason@ == "outbox lease_duration must be 1 second through 1 hour"@),
    {
        validate_owner(owner.as_str())?;
        if batch_size < 1 || batch_size > MAX_BATCH_SIZE {
            return Err(
                StorageError::InvalidInput { reason: "outbox batch_size must be 1..=100".to_owned() },
            );
        }
        if max_attempts < 1 || max_attempts > MAX_ATTEMPTS {
            return Err(
                StorageError::InvalidInput {
                    reason: "outbox max_attempts must be 1..=100".to_owned(),
                },
            );
        }
        if lease_duration_nanos < MIN_LEASE_DURATION_NANOS || lease_duration_nanos
            > MAX_LEASE_DURATION_NANOS {
            return Err(
                StorageError::InvalidInput {
                    reason: "outbox lease_duration must be 1 second through 1 hour".to_owned(),
                },
            );
        }
        Ok(OutboxClaimRequest { owner, batch_size, max_attempts, lease_duration_nanos })
    }

    /// The lease duration in whole milliseconds, as bound into the claim query.
    pub fn lease_duration_millis(&self) -> (res: Result<i64, StorageError>)
        ensures
            self.lease_duration_nanos / 1_000_000 <= i64::MAX ==> res == Ok::<i64, StorageError>(
                (self.lease_duration_nanos / 1_000_000) as i64,
            ),
            self.lease_duration_nanos / 1_000_000 > i64::MAX ==> res == Err::<i64, StorageError>(
                StorageError::IntegerOutOfRange { field: "outbox.lease_duration_millis" },
            ),
    {
        let millis = self.lease_duration_nanos / 1_000_000;
        if millis > i64::MAX as u128 {
            return Err(StorageError::IntegerOutOfRange { field: "outbox.lease_duration_millis" });
        }
        Ok(millis as i64)
    }
}

/// Result of marking a specific lease after a broker acknowledgement.
#[derive(Clone, Copy, Debug, PartialEq, Eq, Structural)]
pub enum OutboxPublishMark {
    /// The acknowledged broker publication was durably marked published.
    Published,
    /// A later owner reclaimed or otherwise changed the row first.
    LeaseLost,
}

/// Result of releasing a lease after a failed broker publication.
#[derive(Clone, Copy, Debug, PartialEq, Eq, Structural)]
pub enum OutboxFailureMark {
    /// The record remains canonical and will be retried at its persisted time.
    RetryScheduled,
    /// The bounded attempt limit was reached and the record is retained as dead letter.
    DeadLettered,
    /// A later owner reclaimed or otherwise changed the row first.
    LeaseLost,
}

/// A publish mark applies only when the guarded update touched exactly the
/// leased row of its owner.
pub fn publish_mark(rows_affected: u64) -> (res: OutboxPublishMark)
    ensures
        res == (if rows_affected == 1 {
            OutboxPublishMark::Published
        } else {
            OutboxPublishMark::LeaseLost
        }),
{
    if rows_affected == 1 {
        OutboxPublishMark::Published
    } else {
        OutboxPublishMark::LeaseLost
    }
}

/// Interprets the delivery state returned by a failure release: no row means
/// the lease was lost; `pending` is a scheduled retry; `dead_letter` means the
/// attempt bound was reached.
pub fn failure_mark(delivery_state: Option<&str>) -> (res: Result<OutboxFailureMark, StorageError>)
    ensures
        match delivery_state {
            None => res == Ok::<OutboxFailureMark, StorageError>(OutboxFailureMark::LeaseLost),
            Some(s) => if s@ == "pending"@ {
                res == Ok::<OutboxFailureMark, StorageError>(OutboxFailureMark::RetryScheduled)
            } else if s@ == "dead_letter"@ {
                res == Ok::<OutboxFailureMark, StorageError>(OutboxFailureMark::DeadLettered)
            } else {
                res matches Err(StorageError::InvalidInput { reason }) && reason@
                    == "outbox failure release returned an unknown delivery state"@
            },
        },
{
    match delivery_state {
        None => Ok(OutboxFailureMark::LeaseLost),
        Some(state) => {
            if text_equals(state, "pending") {
                Ok(OutboxFailureMark::RetryScheduled)
            } else if text_equals(state, "dead_letter") {
                Ok(OutboxFailureMark::DeadLettered)
            } else {
                Err(
                    StorageError::InvalidInput {
                        reason: "outbox failure release returned an unknown delivery state".to_owned(),
                    },
                )
            }
        },
    }
}

/// A claimed row must carry its lock owner and expiry.
pub fn claimed_lease_lock<T>(owner: Option<String>, expires_at: Option<T>) -> (res: Result<
    (String, T),
    StorageError,
>)
    ensures
        match (owner, expires_at) {
            (None, _) => res matches Err(StorageError::InvalidInput { reason }) && reason@
                == "claimed outbox row has no lock owner"@,
            (Some(_), None) => res matches Err(StorageError::InvalidInput { reason }) && reason@
                == "claimed outbox row has no lock expiry"@,
            (Some(o), Some(e)) => res matches Ok(pair) && pair.0 == o && pair.1 == e,
        },
{
    let owner = match owner {
        None => {
            return Err(
                StorageError::InvalidInput { reason: "claimed outbox row has no lock owner".to_owned() },
            );
        },
        Some(o) => o,
    };
    match expires_at {
        None => Err(
            StorageError::InvalidInput { reason: "claimed outbox row has no lock expiry".to_owned() },
        ),
        Some(e) => Ok((owner, e)),
    }
}

/// The durable v1 subject of a Project event, built only from safe
/// identifiers: the Project's UUID and the stable event vocabulary key.
pub open spec fn event_subject_text(project_id: u128, event_type: Seq<char>) -> Seq<char> {
    "forge.v1.project."@ + uuid_text(project_id) + ".event."@ + event_type
}

/// Builds the subject an outbox row is published under.
pub fn event_subject(project_id: u128, event_type: &str) -> (res: String)
    ensures
        res@ == event_subject_text(project_id, event_type@),
{
    let mut res = String::new();
    res.append("forge.v1.project.");
    let project = uuid_string(project_id);
    res.append(project.as_str());
    res.append(".event.");
    res.append(event_type);
    res
}

} // verus!
