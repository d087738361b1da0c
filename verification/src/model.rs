//! Storage vocabulary for queue and Run lifecycles, and the exact integer
//! conversions used at PostgreSQL's signed-integer boundary.
use vstd::prelude::*;

use crate::error::StorageError;
use crate::text::text_equals;

verus! {

/// Exact storage vocabulary for a queue-entry lifecycle.
#[derive(Clone, Copy, Debug, PartialEq, Eq, Structural)]
pub enum QueueState {
    /// Ready for an eligible Employee and Project execution gate.
    Queued,
    /// Claimed inside a scheduler transaction before Lease creation.
    Leased,
    /// Cancelled before execution.
    Cancelled,
    /// Finished with a terminal queue outcome.
    Completed,
    /// Retained after an unrecoverable scheduler failure.
    DeadLetter,
}

/// Exact schema vocabulary for desired Run state.
#[derive(Clone, Copy, Debug, PartialEq, Eq, Structural)]
pub enum RunDesiredState {
    /// Core has committed a provisioning request.
    ProvisionRequested,
    /// Core expects work to be running.
    Running,
    /// Core requested a graceful stop.
    StopRequested,
    /// Core requested forced termination.
    ForceStopRequested,
    /// Core recorded a final stopped result.
    Stopped,
    /// Core recorded a final failure.
    Failed,
}

/// Exact schema vocabulary for Supervisor-observed Run state.
#[derive(Clone, Copy, Debug, PartialEq, Eq, Structural)]
pub enum RunObservedState {
    /// No Supervisor observation arrived yet.
    Unknown,
    /// Supervisor is provisioning the isolated environment.
    Provisioning,
    /// Supervisor observed the executor working.
    Running,
    /// Supervisor is stopping the executor.
    Stopping,
    /// Supervisor observed a clean stop.
    Stopped,
    /// Supervisor observed an execution failure.
    Failed,
    /// Supervisor can no longer observe the Run.
    Lost,
}

/// Converts a domain counter to PostgreSQL `bigint`, rejecting values above `i64::MAX`.
pub fn u64_to_i64(value: u64, field: &'static str) -> (res: Result<i64, StorageError>)
    ensures
        value <= i64::MAX ==> res == Ok::<i64, StorageError>(value as i64),
        value > i64::MAX ==> res == Err::<i64, StorageError>(
            StorageError::IntegerOutOfRange { field },
        ),
{
    if value <= i64::MAX as u64 {
        Ok(value as i64)
    } else {
        Err(StorageError::IntegerOutOfRange { field })
    }
}

/// Converts a PostgreSQL `bigint` back to a domain counter, rejecting negatives.
pub fn i64_to_u64(value: i64, field: &'static str) -> (res: Result<u64, StorageError>)
    ensures
        value >= 0 ==> res == Ok::<u64, StorageError>(value as u64),
        value < 0 ==> res == Err::<u64, StorageError>(StorageError::IntegerOutOfRange { field }),
{
    if value >= 0 {
        Ok(value as u64)
    } else {
        Err(StorageError::IntegerOutOfRange { field })
    }
}

/// Converts a domain ordinal to PostgreSQL `integer`, rejecting values above `i32::MAX`.
pub fn u32_to_i32(value: u32, field: &'static str) -> (res: Result<i32, StorageError>)
    ensures
        value <= i32::MAX ==> res == Ok::<i32, StorageError>(value as i32),
        value > i32::MAX ==> res == Err::<i32, StorageError>(
            StorageError::IntegerOutOfRange { field },
        ),
{
    if value <= i32::MAX as u32 {
        Ok(value as i32)
    } else {
        Err(StorageError::IntegerOutOfRange { field })
    }
}

/// Converts a PostgreSQL `integer` back to a domain ordinal, rejecting negatives.
pub fn i32_to_u32(value: i32, field: &'static str) -> (res: Result<u32, StorageError>)
    ensures
        value >= 0 ==> res == Ok::<u32, StorageError>(value as u32),
        value < 0 ==> res == Err::<u32, StorageError>(StorageError::IntegerOutOfRange { field }),
{
    if value >= 0 {
        Ok(value as u32)
    } else {
        Err(StorageError::IntegerOutOfRange { field })
    }
}

/// Converting in and out of the signed column representation is lossless for
/// every value that the column accepts.
pub proof fn lemma_bigint_roundtrip(value: u64)
    requires
        value <= i64::MAX,
    ensures
        (value as i64) as u64 == value,
{
}

/// The `integer` column representation is lossless for every value it accepts.
pub proof fn lemma_integer_roundtrip(value: u32)
    requires
        value <= i32::MAX,
    ensures
        (value as i32) as u32 == value,
{
}

/// The storage text of a queue state (its snake_case schema value).
pub open spec fn queue_state_text(state: QueueState) -> Seq<char> {
    match state {
        QueueState::Queued => "queued"@,
        QueueState::Leased => "leased"@,
        QueueState::Cancelled => "cancelled"@,
        QueueState::Completed => "completed"@,
        QueueState::DeadLetter => "dead_letter"@,
    }
}

/// The storage text of a desired Run state.
pub open spec fn desired_state_text(state: RunDesiredState) -> Seq<char> {
    match state {
        RunDesiredState::ProvisionRequested => "provision_requested"@,
        RunDesiredState::Running => "running"@,
        RunDesiredState::StopRequested => "stop_requested"@,
        RunDesiredState::ForceStopRequested => "force_stop_requested"@,
        RunDesiredState::Stopped => "stopped"@,
        RunDesiredState::Failed => "failed"@,
    }
}

/// The storage text of an observed Run state.
pub open spec fn observed_state_text(state: RunObservedState) -> Seq<char> {
    match state {
        RunObservedState::Unknown => "unknown"@,
        RunObservedState::Provisioning => "provisioning"@,
        RunObservedState::Running => "running"@,
        RunObservedState::Stopping => "stopping"@,
        RunObservedState::Stopped => "stopped"@,
        RunObservedState::Failed => "failed"@,
        RunObservedState::Lost => "lost"@,
    }
}

impl QueueState {
    /// The storage text of this state.
    pub fn as_str(&self) -> (res: &'static str)
        ensures
            res@ == queue_state_text(*self),
    {
        match self {
            QueueState::Queued => "queued",
            QueueState::Leased => "leased",
            QueueState::Cancelled => "cancelled",
            QueueState::Completed => "completed",
            QueueState::DeadLetter => "dead_letter",
        }
    }

    /// Reads a stored queue state; `None` for any text outside the vocabulary.
    pub fn from_text(text: &str) -> (res: Option<Self>)
        ensures
            res matches Some(state) ==> queue_state_text(state) == text@,
            res is None ==> forall|state: QueueState| queue_state_text(state) != text@,
    {
        if text_equals(text, "queued") {
            Some(QueueState::Queued)
        } else if text_equals(text, "leased") {
            Some(QueueState::Leased)
        } else if text_equals(text, "cancelled") {
            Some(QueueState::Cancelled)
        } else if text_equals(text, "completed") {
            Some(QueueState::Completed)
        } else if text_equals(text, "dead_letter") {
            Some(QueueState::DeadLetter)
        } else {
            None
        }
    }
}

impl RunDesiredState {
    /// The storage text of this state.
    pub fn as_str(&self) -> (res: &'static str)
        ensures
            res@ == desired_state_text(*self),
    {
        match self {
            RunDesiredState::ProvisionRequested => "provision_requested",
            RunDesiredState::Running => "running",
            RunDesiredState::StopRequested => "stop_requested",
            RunDesiredState::ForceStopRequested => "force_stop_requested",
            RunDesiredState::Stopped => "stopped",
            RunDesiredState::Failed => "failed",
        }
    }

    /// Reads a stored desired state; `None` for any text outside the vocabulary.
    pub fn from_text(text: &str) -> (res: Option<Self>)
        ensures
            res matches Some(state) ==> desired_state_text(state) == text@,
            res is None ==> forall|state: RunDesiredState| desired_state_text(state) != text@,
    {
        if text_equals(text, "provision_requested") {
            Some(RunDesiredState::ProvisionRequested)
        } else if text_equals(text, "running") {
            Some(RunDesiredState::Running)
        } else if text_equals(text, "stop_requested") {
            Some(RunDesiredState::StopRequested)
        } else if text_equals(text, "force_stop_requested") {
            Some(RunDesiredState::ForceStopRequested)
        } else if text_equals(text, "stopped") {
            Some(RunDesiredState::Stopped)
        } else if text_equals(text, "failed") {
            Some(RunDesiredState::Failed)
        } else {
            None
        }
    }
}

impl RunObservedState {
    /// The storage text of this state.
    pub fn as_str(&self) -> (res: &'static str)
        ensures
            res@ == observed_state_text(*self),
    {
        match self {
            RunObservedState::Unknown => "unknown",
            RunObservedState::Provisioning => "provisioning",
            RunObservedState::Running => "running",
            RunObservedState::Stopping => "stopping",
            RunObservedState::Stopped => "stopped",
            RunObservedState::Failed => "failed",
            RunObservedState::Lost => "lost",
        }
    }

    /// Reads a stored observed state; `None` for any text outside the vocabulary.
    pub fn from_text(text: &str) -> (res: Option<Self>)
        ensures
            res matches Some(state) ==> observed_state_text(state) == text@,
            res is None ==> forall|state: RunObservedState| observed_state_text(state) != text@,
    {
        if text_equals(text, "unknown") {
            Some(RunObservedState::Unknown)
        } else if text_equals(text, "provisioning") {
            Some(RunObservedState::Provisioning)
        } else if text_equals(text, "running") {
            Some(RunObservedState::Running)
        } else if text_equals(text, "stopping") {
            Some(RunObservedState::Stopping)
        } else if text_equals(text, "stopped") {
            Some(RunObservedState::Stopped)
        } else if text_equals(text, "failed") {
            Some(RunObservedState::Failed)
        } else if text_equals(text, "lost") {
            Some(RunObservedState::Lost)
        } else {
            None
        }
    }
}

/// Length, first and second character of a storage text: enough to tell
/// every text of one vocabulary apart.
pub open spec fn text_signature(text: Seq<char>) -> (nat, char, char) {
    (text.len(), text[0], text[1])
}

proof fn lemma_queue_signature(state: QueueState)
    ensures
        text_signature(queue_state_text(state)) == match state {
            QueueState::Queued => (6nat, 'q', 'u'),
            QueueState::Leased => (6nat, 'l', 'e'),
            QueueState::Cancelled => (9nat, 'c', 'a'),
            QueueState::Completed => (9nat, 'c', 'o'),
            QueueState::DeadLetter => (11nat, 'd', 'e'),
        },
{
    reveal_strlit("queued");
    reveal_strlit("leased");
    reveal_strlit("cancelled");
    reveal_strlit("completed");
    reveal_strlit("dead_letter");
}

proof fn lemma_desired_signature(state: RunDesiredState)
    ensures
        text_signature(desired_state_text(state)) == match state {
            RunDesiredState::ProvisionRequested => (19nat, 'p', 'r'),
            RunDesiredState::Running => (7nat, 'r', 'u'),
            RunDesiredState::StopRequested => (14nat, 's', 't'),
            RunDesiredState::ForceStopRequested => (20nat, 'f', 'o'),
            RunDesiredState::Stopped => (7nat, 's', 't'),
            RunDesiredState::Failed => (6nat, 'f', 'a'),
        },
{
    reveal_strlit("provision_requested");
    reveal_strlit("running");
    reveal_strlit("stop_requested");
    reveal_strlit("force_stop_requested");
    reveal_strlit("stopped");
    reveal_strlit("failed");
}

proof fn lemma_observed_signature(state: RunObservedState)
    ensures
        text_signature(observed_state_text(state)) == match state {
            RunObservedState::Unknown => (7nat, 'u', 'n'),
            RunObservedState::Provisioning => (12nat, 'p', 'r'),
            RunObservedState::Running => (7nat, 'r', 'u'),
            RunObservedState::Stopping => (8nat, 's', 't'),
            RunObservedState::Stopped => (7nat, 's', 't'),
            RunObservedState::Failed => (6nat, 'f', 'a'),
            RunObservedState::Lost => (4nat, 'l', 'o'),
        },
{
    reveal_strlit("unknown");
    reveal_strlit("provisioning");
    reveal_strlit("running");
    reveal_strlit("stopping");
    reveal_strlit("stopped");
    reveal_strlit("failed");
    reveal_strlit("lost");
}

/// Distinct queue states have distinct storage texts, so a stored text reads
/// back as the state that wrote it.
pub proof fn lemma_queue_state_text_injective(a: QueueState, b: QueueState)
    ensures
        queue_state_text(a) == queue_state_text(b) ==> a == b,
{
    lemma_queue_signature(a);
    lemma_queue_signature(b);
}

/// Distinct desired Run states have distinct storage texts.
pub proof fn lemma_desired_state_text_injective(a: RunDesiredState, b: RunDesiredState)
    ensures
        desired_state_text(a) == desired_state_text(b) ==> a == b,
{
    lemma_desired_signature(a);
    lemma_desired_signature(b);
}

/// Distinct observed Run states have distinct storage texts.
pub proof fn lemma_observed_state_text_injective(a: RunObservedState, b: RunObservedState)
    ensures
        observed_state_text(a) == observed_state_text(b) ==> a == b,
{
    lemma_observed_signature(a);
    lemma_observed_signature(b);
}

} // verus!
