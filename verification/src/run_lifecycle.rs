//! Fenced Run message ordering and the observed/desired Run lifecycle rules.
//!
//! The database adapter reads the current Run row under a row lock, hands the
//! plain values to the decision functions here, and performs the update that
//! the decision names.
use vstd::prelude::*;

use crate::error::StorageError;
use crate::model::{RunDesiredState, RunObservedState, i64_to_u64};

verus! {

/// Outcome of a Run write guarded by Lease fencing and environment epoch.
#[derive(Clone, Copy, Debug, PartialEq, Eq, Structural)]
pub enum FencedWrite {
    /// The Run identity, fence, and exact next sequence were accepted.
    Applied,
    /// The message was stale, duplicated, belonged to another Lease epoch, or
    /// arrived after an already-terminal observed state.
    Ignored,
    /// The sequence skipped one or more Run-scoped Supervisor messages.
    SequenceGap {
        /// The only sequence value Core can accept next.
        expected: u64,
        /// The received, non-contiguous sequence value.
        received: u64,
    },
    /// The observation would regress or contradict the observed Run lifecycle.
    InvalidObservedStateTransition {
        /// Current persisted observed state.
        from: RunObservedState,
        /// State carried by the rejected observation.
        to: RunObservedState,
    },
    /// The referenced Run no longer exists.
    Missing,
}

/// Decision for one per-Run sequence value.
#[derive(Clone, Copy, Debug, PartialEq, Eq, Structural)]
pub enum SequenceDecision {
    /// The value is exactly the next one.
    Apply,
    /// The value was already accepted.
    Ignored,
    /// The value skips at least one message.
    Gap { expected: u64, received: u64 },
}

/// The sequence rule: only `last + 1` advances, earlier values are duplicates,
/// later values expose a gap carrying the one acceptable value.
pub open spec fn sequence_rule(last: u64, received: u64) -> SequenceDecision {
    if received == last + 1 {
        SequenceDecision::Apply
    } else if received < last + 1 {
        SequenceDecision::Ignored
    } else {
        SequenceDecision::Gap { expected: (last + 1) as u64, received }
    }
}

/// Decides whether a received per-Run sequence value is the exact next one.
///
/// The next value must itself be storable in PostgreSQL's `bigint`.
pub fn sequence_decision(last: u64, received: u64) -> (res: Result<
    SequenceDecision,
    StorageError,
>)
    ensures
        last + 1 > i64::MAX ==> res == Err::<SequenceDecision, StorageError>(
            StorageError::IntegerOutOfRange { field: "run.next_sequence" },
        ),
        last + 1 <= i64::MAX ==> res == Ok::<SequenceDecision, StorageError>(
            sequence_rule(last, received),
        ),
{
    if last >= i64::MAX as u64 {
        return Err(StorageError::IntegerOutOfRange { field: "run.next_sequence" });
    }
    let expected = last + 1;
    if received == expected {
        Ok(SequenceDecision::Apply)
    } else if received < expected {
        Ok(SequenceDecision::Ignored)
    } else {
        Ok(SequenceDecision::Gap { expected, received })
    }
}

/// Lifecycle phase of an observed Run state; terminal states share the last phase.
pub open spec fn phase(state: RunObservedState) -> nat {
    match state {
        RunObservedState::Unknown => 0,
        RunObservedState::Provisioning => 1,
        RunObservedState::Running => 2,
        RunObservedState::Stopping => 3,
        RunObservedState::Stopped | RunObservedState::Failed | RunObservedState::Lost => 4,
    }
}

/// Returns the lifecycle phase of an observed Run state.
pub fn observed_state_phase(state: RunObservedState) -> (res: u8)
    ensures
        res as nat == phase(state),
{
    match state {
        RunObservedState::Unknown => 0,
        RunObservedState::Provisioning => 1,
        RunObservedState::Running => 2,
        RunObservedState::Stopping => 3,
        RunObservedState::Stopped | RunObservedState::Failed | RunObservedState::Lost => 4,
    }
}

/// The observed lifecycle only moves forward; a later positive stop may
/// resolve an earlier `lost` or `failed` observation.
pub open spec fn monotonic(from: RunObservedState, to: RunObservedState) -> bool {
    ||| from == to
    ||| phase(from) < phase(to)
    ||| ((from == RunObservedState::Lost || from == RunObservedState::Failed) && to
        == RunObservedState::Stopped)
}

/// Terminal observed states.
pub open spec fn terminal(state: RunObservedState) -> bool {
    phase(state) == 4
}

/// Observed states that positively confirm the executor has stopped.
pub open spec fn confirmed_stop(state: RunObservedState) -> bool {
    state == RunObservedState::Stopped || state == RunObservedState::Failed
}

/// A message carries exactly the Run's current Lease fence and environment
/// epoch, and the sequence value right after the Run's last one.
pub open spec fn current_message(row: RunFenceRow, message: FencedMessage) -> bool {
    &&& message.lease_fencing_token == row.lease_fencing_token
    &&& message.environment_epoch == row.environment_epoch
    &&& message.sequence == row.last_sequence + 1
}

/// An Executor submission that may be recorded: a current message, an
/// enabled Project, Core wanting the Run provisioned or running, and no
/// stopped, failed or lost observation yet.
pub open spec fn live_submission(
    execution_enabled: Option<bool>,
    row: RunFenceRow,
    message: FencedMessage,
) -> bool {
    &&& current_message(row, message)
    &&& execution_enabled == Some(true)
    &&& (row.desired_state == RunDesiredState::ProvisionRequested || row.desired_state
        == RunDesiredState::Running)
    &&& row.observed_state != RunObservedState::Stopped
    &&& row.observed_state != RunObservedState::Failed
    &&& row.observed_state != RunObservedState::Lost
}

/// The order of the observed lifecycle: unknown, provisioning, running,
/// stopping, then the terminal states (stopped, failed, lost) together.
pub open spec fn lifecycle_rank(state: RunObservedState) -> int {
    match state {
        RunObservedState::Unknown => 0,
        RunObservedState::Provisioning => 1,
        RunObservedState::Running => 2,
        RunObservedState::Stopping => 3,
        _ => 4,
    }
}

/// A transition the observed lifecycle allows: staying put, moving to a
/// later rank, or a positive stop resolving an earlier lost or failed one.
pub open spec fn forward_transition(from: RunObservedState, to: RunObservedState) -> bool {
    ||| from == to
    ||| lifecycle_rank(from) < lifecycle_rank(to)
    ||| ((from == RunObservedState::Lost || from == RunObservedState::Failed) && to
        == RunObservedState::Stopped)
}

/// Checks that an observation never regresses the observed Run lifecycle.
pub fn observed_state_transition_is_monotonic(from: RunObservedState, to: RunObservedState) -> (res:
    bool)
    ensures
        res == monotonic(from, to),
        res == forward_transition(from, to),
        res ==> lifecycle_rank(from) <= lifecycle_rank(to),
{
    from == to || observed_state_phase(from) < observed_state_phase(to) || ((from
        == RunObservedState::Lost || from == RunObservedState::Failed) && to
        == RunObservedState::Stopped)
}

/// Whether an observed state ends the Run.
pub fn is_terminal_observed_state(state: RunObservedState) -> (res: bool)
    ensures
        res == terminal(state),
{
    observed_state_phase(state) == 4
}

/// Whether an observed state positively confirms a stop (`stopped` or `failed`).
pub fn is_confirmed_terminal_stop(state: RunObservedState) -> (res: bool)
    ensures
        res == confirmed_stop(state),
{
    match state {
        RunObservedState::Stopped | RunObservedState::Failed => true,
        _ => false,
    }
}

/// Desired states in which Core still wants the executor working.
pub open spec fn wants_work(desired: RunDesiredState) -> bool {
    desired == RunDesiredState::ProvisionRequested || desired == RunDesiredState::Running
}

/// Executor submissions are accepted only while the Project gate is open and
/// Core still wants the Run working.
pub fn executor_submission_is_permitted(
    execution_enabled: bool,
    desired_state: RunDesiredState,
) -> (res: bool)
    ensures
        res == (execution_enabled && wants_work(desired_state)),
{
    execution_enabled && match desired_state {
        RunDesiredState::ProvisionRequested | RunDesiredState::Running => true,
        _ => false,
    }
}

/// Core's desired state after a Supervisor observation is recorded.
pub open spec fn desired_after(current: RunDesiredState, observed: RunObservedState) -> RunDesiredState {
    match observed {
        RunObservedState::Running => if wants_work(current) {
            RunDesiredState::Running
        } else {
            current
        },
        RunObservedState::Stopped => RunDesiredState::Stopped,
        RunObservedState::Failed => RunDesiredState::Failed,
        _ => current,
    }
}

/// Computes Core's desired state after an observation. A late `running`
/// report confirms provisioning but never erases a committed stop intent; a
/// `lost` report preserves Core's last request.
pub fn desired_state_after_observation(
    current: RunDesiredState,
    observed: RunObservedState,
) -> (res: RunDesiredState)
    ensures
        res == desired_after(current, observed),
{
    match observed {
        RunObservedState::Running => match current {
            RunDesiredState::ProvisionRequested | RunDesiredState::Running => {
                RunDesiredState::Running
            },
            _ => current,
        },
        RunObservedState::Stopped => RunDesiredState::Stopped,
        RunObservedState::Failed => RunDesiredState::Failed,
        RunObservedState::Unknown
        | RunObservedState::Provisioning
        | RunObservedState::Stopping
        | RunObservedState::Lost => current,
    }
}

/// The desired state that a Core stop request records.
pub fn stop_request_desired_state(force: bool) -> (res: RunDesiredState)
    ensures
        res == (if force {
            RunDesiredState::ForceStopRequested
        } else {
            RunDesiredState::StopRequested
        }),
{
    if force {
        RunDesiredState::ForceStopRequested
    } else {
        RunDesiredState::StopRequested
    }
}

/// Whether a stop request may record its desired state over `current`: any
/// Run Core still wants working can be stopped; a force stop also escalates a
/// graceful stop, and re-stops a finished Run whose environment reservation
/// is still held.
pub open spec fn stop_rule(current: RunDesiredState, force: bool, reservation_held: bool) -> bool {
    ||| wants_work(current)
    ||| (force && current == RunDesiredState::StopRequested)
    ||| (force && reservation_held && (current == RunDesiredState::Failed || current
        == RunDesiredState::Stopped))
}

/// Decides whether a stop request applies to a Run in desired state
/// `current` whose environment reservation is (or is not) still held.
pub fn stop_request_applies(current: RunDesiredState, force: bool, reservation_held: bool) -> (res:
    bool)
    ensures
        res == stop_rule(current, force, reservation_held),
{
    match current {
        RunDesiredState::ProvisionRequested | RunDesiredState::Running => true,
        RunDesiredState::StopRequested => force,
        RunDesiredState::Failed | RunDesiredState::Stopped => force && reservation_held,
        RunDesiredState::ForceStopRequested => false,
    }
}

/// The fenced columns of a Run row read under its row lock.
#[derive(Clone, Copy, Debug, PartialEq, Eq, Structural)]
pub struct RunFenceRow {
    /// Lease fencing token copied into the Run.
    pub lease_fencing_token: u64,
    /// Environment epoch of the Run.
    pub environment_epoch: u64,
    /// Highest accepted per-Run sequence.
    pub last_sequence: u64,
    /// Core's desired lifecycle.
    pub desired_state: RunDesiredState,
    /// Supervisor's latest observed lifecycle.
    pub observed_state: RunObservedState,
}

/// A Supervisor message's fence and sequence.
#[derive(Clone, Copy, Debug, PartialEq, Eq, Structural)]
pub struct FencedMessage {
    /// Lease fencing token carried by the message.
    pub lease_fencing_token: u64,
    /// Environment epoch carried by the message.
    pub environment_epoch: u64,
    /// Exact next per-Run sequence shared by all Supervisor messages.
    pub sequence: u64,
}

/// The update an accepted observation performs on its Run row.
#[derive(Clone, Copy, Debug, PartialEq, Eq, Structural)]
pub struct ObservationUpdate {
    /// New observed state.
    pub observed_state: RunObservedState,
    /// Desired state after the observation.
    pub desired_state: RunDesiredState,
    /// The new last sequence.
    pub last_sequence: u64,
    /// Whether `started_at` is set (if still unset) by this observation.
    pub starts: bool,
    /// Whether `finished_at` is set (if still unset) by this observation.
    pub finishes: bool,
}

/// What the adapter does with a Supervisor observation.
#[derive(Clone, Copy, Debug, PartialEq, Eq, Structural)]
pub enum ObservationDecision {
    /// Answer without writing.
    Reply(FencedWrite),
    /// Perform this guarded update; its row count decides the answer.
    Update(ObservationUpdate),
}

/// Whether a message carries the Run's current fence and epoch.
pub open spec fn fence_matches(row: RunFenceRow, message: FencedMessage) -> bool {
    row.lease_fencing_token == message.lease_fencing_token && row.environment_epoch
        == message.environment_epoch
}

/// The decision for an observation, given the locked Run row (if any).
pub open spec fn observation_rule(
    row: Option<RunFenceRow>,
    message: FencedMessage,
    observed: RunObservedState,
) -> ObservationDecision {
    match row {
        None => ObservationDecision::Reply(FencedWrite::Missing),
        Some(r) => if !fence_matches(r, message) {
            ObservationDecision::Reply(FencedWrite::Ignored)
        } else {
            match sequence_rule(r.last_sequence, message.sequence) {
                SequenceDecision::Ignored => ObservationDecision::Reply(FencedWrite::Ignored),
                SequenceDecision::Gap { expected, received } => ObservationDecision::Reply(
                    FencedWrite::SequenceGap { expected, received },
                ),
                SequenceDecision::Apply => if !monotonic(r.observed_state, observed) {
                    ObservationDecision::Reply(
                        FencedWrite::InvalidObservedStateTransition {
                            from: r.observed_state,
                            to: observed,
                        },
                    )
                } else {
                    ObservationDecision::Update(
                        ObservationUpdate {
                            observed_state: observed,
                            desired_state: desired_after(r.desired_state, observed),
                            last_sequence: message.sequence,
                            starts: observed == RunObservedState::Running,
                            finishes: confirmed_stop(observed),
                        },
                    )
                },
            }
        },
    }
}

/// Decides a Supervisor observation: it is stored only when its fence, exact
/// sequence and monotonic observed-state transition are current.
pub fn decide_observed_run_event(
    row: Option<RunFenceRow>,
    message: FencedMessage,
    observed: RunObservedState,
) -> (res: Result<ObservationDecision, StorageError>)
    ensures
        match row {
            Some(r) if fence_matches(r, message) && r.last_sequence + 1 > i64::MAX => res
                == Err::<ObservationDecision, StorageError>(
                StorageError::IntegerOutOfRange { field: "run.next_sequence" },
            ),
            _ => res == Ok::<ObservationDecision, StorageError>(
                observation_rule(row, message, observed),
            ),
        },
        res matches Ok(ObservationDecision::Update(u)) ==> (row matches Some(r) && current_message(
            r,
            message,
        ) && u.last_sequence == message.sequence && u.observed_state == observed && forward_transition(r.observed_state, observed) && lifecycle_rank(
            r.observed_state,
        ) <= lifecycle_rank(observed)),
        (row matches Some(r) && !forward_transition(r.observed_state, observed)) ==> !(
        res matches Ok(ObservationDecision::Update(_))),
{
    let r = match row {
        None => return Ok(ObservationDecision::Reply(FencedWrite::Missing)),
        Some(r) => r,
    };
    if r.lease_fencing_token != message.lease_fencing_token || r.environment_epoch
        != message.environment_epoch {
        return Ok(ObservationDecision::Reply(FencedWrite::Ignored));
    }
    match sequence_decision(r.last_sequence, message.sequence)? {
        SequenceDecision::Apply => {},
        SequenceDecision::Ignored => return Ok(ObservationDecision::Reply(FencedWrite::Ignored)),
        SequenceDecision::Gap { expected, received } => {
            return Ok(
                ObservationDecision::Reply(FencedWrite::SequenceGap { expected, received }),
            );
        },
    }
    if !observed_state_transition_is_monotonic(r.observed_state, observed) {
        return Ok(
            ObservationDecision::Reply(
                FencedWrite::InvalidObservedStateTransition { from: r.observed_state, to: observed },
            ),
        );
    }
    Ok(
        ObservationDecision::Update(
            ObservationUpdate {
                observed_state: observed,
                desired_state: desired_state_after_observation(r.desired_state, observed),
                last_sequence: message.sequence,
                starts: observed == RunObservedState::Running,
                finishes: is_confirmed_terminal_stop(observed),
            },
        ),
    )
}

/// What the adapter does with an Executor submission before its Lease and
/// dedupe checks.
#[derive(Clone, Copy, Debug, PartialEq, Eq, Structural)]
pub enum SubmissionDecision {
    /// Answer without writing.
    Reply(FencedWrite),
    /// Check the active Lease and dedupe receipt, then advance the sequence.
    CheckLeaseAndRecord {
        /// The sequence the guarded update stores.
        sequence: u64,
    },
}

/// The decision for an Executor submission.
pub open spec fn submission_rule(
    execution_enabled: Option<bool>,
    row: Option<RunFenceRow>,
    message: FencedMessage,
) -> SubmissionDecision {
    match (execution_enabled, row) {
        (Some(enabled), Some(r)) => if !fence_matches(r, message) {
            SubmissionDecision::Reply(FencedWrite::Ignored)
        } else {
            match sequence_rule(r.last_sequence, message.sequence) {
                SequenceDecision::Ignored => SubmissionDecision::Reply(FencedWrite::Ignored),
                SequenceDecision::Gap { expected, received } => SubmissionDecision::Reply(
                    FencedWrite::SequenceGap { expected, received },
                ),
                SequenceDecision::Apply => if !(enabled && wants_work(r.desired_state)) || terminal(
                    r.observed_state,
                ) {
                    SubmissionDecision::Reply(FencedWrite::Ignored)
                } else {
                    SubmissionDecision::CheckLeaseAndRecord { sequence: message.sequence }
                },
            }
        },
        _ => SubmissionDecision::Reply(FencedWrite::Missing),
    }
}

/// Decides an Executor submission from the Project gate (`None` when the Run
/// or its Project is missing) and the locked task-stage Run row.
pub fn decide_executor_submission(
    execution_enabled: Option<bool>,
    row: Option<RunFenceRow>,
    message: FencedMessage,
) -> (res: Result<SubmissionDecision, StorageError>)
    ensures
        match (execution_enabled, row) {
            (Some(_), Some(r)) if fence_matches(r, message) && r.last_sequence + 1 > i64::MAX => res
                == Err::<SubmissionDecision, StorageError>(
                StorageError::IntegerOutOfRange { field: "run.next_sequence" },
            ),
            _ => res == Ok::<SubmissionDecision, StorageError>(
                submission_rule(execution_enabled, row, message),
            ),
        },
        res matches Ok(SubmissionDecision::CheckLeaseAndRecord { sequence }) ==> (row matches Some(
            r,
        ) && live_submission(execution_enabled, r, message) && sequence == message.sequence),
{
    let enabled = match execution_enabled {
        None => return Ok(SubmissionDecision::Reply(FencedWrite::Missing)),
        Some(e) => e,
    };
    let r = match row {
        None => return Ok(SubmissionDecision::Reply(FencedWrite::Missing)),
        Some(r) => r,
    };
    if r.lease_fencing_token != message.lease_fencing_token || r.environment_epoch
        != message.environment_epoch {
        return Ok(SubmissionDecision::Reply(FencedWrite::Ignored));
    }
    match sequence_decision(r.last_sequence, message.sequence)? {
        SequenceDecision::Apply => {},
        SequenceDecision::Ignored => return Ok(SubmissionDecision::Reply(FencedWrite::Ignored)),
        SequenceDecision::Gap { expected, received } => {
            return Ok(SubmissionDecision::Reply(FencedWrite::SequenceGap { expected, received }));
        },
    }
    if !executor_submission_is_permitted(enabled, r.desired_state) {
        return Ok(SubmissionDecision::Reply(FencedWrite::Ignored));
    }
    if is_terminal_observed_state(r.observed_state) {
        return Ok(SubmissionDecision::Reply(FencedWrite::Ignored));
    }
    Ok(SubmissionDecision::CheckLeaseAndRecord { sequence: message.sequence })
}

/// Outcome after an active Lease and dedupe receipt check: a submission is
/// recorded only with a current active Lease and a fresh message identity.
pub fn submission_after_lease_and_dedupe(lease_active: bool, receipt_inserted: bool) -> (res:
    Option<FencedWrite>)
    ensures
        !lease_active ==> res == Some(FencedWrite::Ignored),
        lease_active && !receipt_inserted ==> res == Some(FencedWrite::Ignored),
        lease_active && receipt_inserted ==> res.is_none(),
{
    if !lease_active || !receipt_inserted {
        Some(FencedWrite::Ignored)
    } else {
        None
    }
}

/// Classifies a guarded Run update: exactly one row means it applied; otherwise
/// the Run either changed first (ignored) or no longer exists (missing).
pub fn fenced_result(rows_affected: u64, run_exists: bool) -> (res: FencedWrite)
    ensures
        rows_affected == 1 ==> res == FencedWrite::Applied,
        rows_affected != 1 && run_exists ==> res == FencedWrite::Ignored,
        rows_affected != 1 && !run_exists ==> res == FencedWrite::Missing,
{
    if rows_affected == 1 {
        FencedWrite::Applied
    } else if run_exists {
        FencedWrite::Ignored
    } else {
        FencedWrite::Missing
    }
}

/// The observed lifecycle order is reflexive.
pub proof fn lemma_monotonic_reflexive(state: RunObservedState)
    ensures
        monotonic(state, state),
{
}

/// The observed lifecycle order is transitive: a chain of accepted
/// observations never amounts to a rejected jump.
pub proof fn lemma_monotonic_transitive(a: RunObservedState, b: RunObservedState, c: RunObservedState)
    requires
        monotonic(a, b),
        monotonic(b, c),
    ensures
        monotonic(a, c),
{
}

/// A terminal observation is never followed by a non-terminal one: a stopped,
/// failed or lost Run cannot return to running.
pub proof fn lemma_terminal_is_absorbing(from: RunObservedState, to: RunObservedState)
    requires
        terminal(from),
        monotonic(from, to),
    ensures
        terminal(to),
        from != to ==> to == RunObservedState::Stopped,
{
}

/// A committed stop intent survives every observation except a confirmed
/// stop; in particular a late `running` report never erases it.
pub proof fn lemma_stop_intent_survives(current: RunDesiredState, observed: RunObservedState)
    requires
        current == RunDesiredState::StopRequested || current == RunDesiredState::ForceStopRequested,
        !confirmed_stop(observed),
    ensures
        desired_after(current, observed) == current,
{
}

/// A confirmed stop records the matching terminal desired state whatever Core
/// wanted before.
pub proof fn lemma_confirmed_stop_is_terminal_intent(current: RunDesiredState, observed: RunObservedState)
    requires
        confirmed_stop(observed),
    ensures
        desired_after(current, observed) == (if observed == RunObservedState::Stopped {
            RunDesiredState::Stopped
        } else {
            RunDesiredState::Failed
        }),
{
}

/// Once a sequence value is applied it, and every earlier one, is ignored;
/// only its successor is accepted.
pub proof fn lemma_applied_sequence_is_not_replayed(last: u64, received: u64, replay: u64)
    requires
        sequence_rule(last, received) == SequenceDecision::Apply,
        replay <= received,
    ensures
        sequence_rule(received, replay) == SequenceDecision::Ignored,
        received < u64::MAX ==> sequence_rule(received, (received + 1) as u64)
            == SequenceDecision::Apply,
{
}

/// A gap never advances the sequence and names the single acceptable value.
pub proof fn lemma_gap_names_next_value(last: u64, received: u64)
    requires
        received > last + 1,
    ensures
        sequence_rule(last, received) == (SequenceDecision::Gap {
            expected: (last + 1) as u64,
            received,
        }),
{
}

/// A message carrying another Lease fence or environment epoch never writes:
/// observations and submissions alike are ignored.
pub proof fn lemma_stale_fence_is_ignored(
    row: RunFenceRow,
    message: FencedMessage,
    observed: RunObservedState,
    enabled: bool,
)
    requires
        !fence_matches(row, message),
    ensures
        observation_rule(Some(row), message, observed) == ObservationDecision::Reply(
            FencedWrite::Ignored,
        ),
        submission_rule(Some(enabled), Some(row), message) == SubmissionDecision::Reply(
            FencedWrite::Ignored,
        ),
{
}

/// Every accepted observation advances the sequence by exactly one, moves the
/// observed lifecycle monotonically, and records `finished_at` exactly for a
/// confirmed stop.
pub proof fn lemma_accepted_observation_is_ordered(
    row: RunFenceRow,
    message: FencedMessage,
    observed: RunObservedState,
)
    requires
        observation_rule(Some(row), message, observed) is Update,
    ensures
        ({
            let u = observation_rule(Some(row), message, observed)->Update_0;
            &&& u.last_sequence == row.last_sequence + 1
            &&& monotonic(row.observed_state, u.observed_state)
            &&& u.finishes == confirmed_stop(observed)
            &&& u.desired_state == desired_after(row.desired_state, observed)
        }),
{
}

/// An Executor submission is only recorded for a Run that Core still wants
/// working, behind an open Project gate, before any terminal observation.
pub proof fn lemma_submission_requires_open_gate(
    enabled: Option<bool>,
    row: Option<RunFenceRow>,
    message: FencedMessage,
)
    requires
        submission_rule(enabled, row, message) is CheckLeaseAndRecord,
    ensures
        enabled == Some(true),
        row matches Some(r) && wants_work(r.desired_state) && !terminal(r.observed_state)
            && fence_matches(r, message) && message.sequence == r.last_sequence + 1,
{
}

/// A graceful stop applies only while Core still wants the Run working: it
/// never downgrades a force stop, repeats itself, or reopens a finished Run.
pub proof fn lemma_stop_never_downgrades(current: RunDesiredState, reservation_held: bool)
    ensures
        !stop_rule(RunDesiredState::ForceStopRequested, false, reservation_held),
        !stop_rule(RunDesiredState::StopRequested, false, reservation_held),
        !stop_rule(current, false, reservation_held) || wants_work(current),
{
}


/// The canonical time of an observation is when Core received it; the
/// Supervisor's own report time is kept only among the observation details.
pub fn canonical_observation_time<T>(reported_at: T, received_at: T) -> (res: T)
    ensures
        res == received_at,
{
    received_at
}


/// A locked Run row as stored: signed counters and state texts that the
/// adapter could (`Some`) or could not (`None`) read back as a state.
#[derive(Clone, Copy, Debug)]
pub struct StoredFenceRow {
    pub lease_fencing_token: i64,
    pub environment_epoch: i64,
    pub last_sequence: i64,
    pub desired_state: Option<RunDesiredState>,
    pub observed_state: Option<RunObservedState>,
}

/// A state column whose stored text is outside the vocabulary.
#[derive(Clone, Copy, Debug, PartialEq, Eq, Structural)]
pub enum StateColumn {
    Desired,
    Observed,
}

/// What the adapter does with an observation read from a stored row.
#[derive(Clone, Copy, Debug, PartialEq, Eq, Structural)]
pub enum StoredObservation {
    /// Answer without writing.
    Reply(FencedWrite),
    /// Perform this guarded update on the row as read.
    Update { change: ObservationUpdate, current: RunFenceRow },
    /// A state column this decision needed does not read back; the adapter
    /// reports the column's decoding failure.
    Corrupt(StateColumn),
}

/// What the adapter does with an Executor submission read from a stored row.
#[derive(Clone, Copy, Debug, PartialEq, Eq, Structural)]
pub enum StoredSubmission {
    /// Answer without writing.
    Reply(FencedWrite),
    /// Check the active Lease and dedupe receipt, then store `sequence`.
    CheckLeaseAndRecord { sequence: u64, current: RunFenceRow },
    /// A state column this decision needed does not read back.
    Corrupt(StateColumn),
}

/// The stored row's fence is read first: a negative counter is out of range,
/// and a message under another fence is ignored before anything else of the
/// row is read. Then the last sequence is read and the message's sequence
/// decided. `None` means the caller goes on to the state columns.
pub open spec fn stored_sequence_rule(s: StoredFenceRow, message: FencedMessage) -> Option<
    Result<FencedWrite, StorageError>,
> {
    if s.lease_fencing_token < 0 {
        Some(Err(StorageError::IntegerOutOfRange { field: "run.lease_fencing_token" }))
    } else if s.environment_epoch < 0 {
        Some(Err(StorageError::IntegerOutOfRange { field: "run.environment_epoch" }))
    } else if s.lease_fencing_token != message.lease_fencing_token || s.environment_epoch
        != message.environment_epoch {
        Some(Ok(FencedWrite::Ignored))
    } else if s.last_sequence < 0 {
        Some(Err(StorageError::IntegerOutOfRange { field: "run.last_sequence" }))
    } else if s.last_sequence + 1 > i64::MAX {
        Some(Err(StorageError::IntegerOutOfRange { field: "run.next_sequence" }))
    } else {
        match sequence_rule(s.last_sequence as u64, message.sequence) {
            SequenceDecision::Apply => None,
            SequenceDecision::Ignored => Some(Ok(FencedWrite::Ignored)),
            SequenceDecision::Gap { expected, received } => Some(
                Ok(FencedWrite::SequenceGap { expected, received }),
            ),
        }
    }
}

/// The decision for an observation on a stored row, reading each column only
/// when the decision reaches it: fence, sequence, observed state (and its
/// monotonic transition), then desired state.
pub open spec fn stored_observation_rule(
    row: Option<StoredFenceRow>,
    message: FencedMessage,
    observed: RunObservedState,
) -> Result<StoredObservation, StorageError> {
    match row {
        None => Ok(StoredObservation::Reply(FencedWrite::Missing)),
        Some(s) => match stored_sequence_rule(s, message) {
            Some(Ok(w)) => Ok(StoredObservation::Reply(w)),
            Some(Err(e)) => Err(e),
            None => match s.observed_state {
                None => Ok(StoredObservation::Corrupt(StateColumn::Observed)),
                Some(cur) => if !monotonic(cur, observed) {
                    Ok(
                        StoredObservation::Reply(
                            FencedWrite::InvalidObservedStateTransition { from: cur, to: observed },
                        ),
                    )
                } else {
                    match s.desired_state {
                        None => Ok(StoredObservation::Corrupt(StateColumn::Desired)),
                        Some(d) => Ok(
                            StoredObservation::Update {
                                change: ObservationUpdate {
                                    observed_state: observed,
                                    desired_state: desired_after(d, observed),
                                    last_sequence: message.sequence,
                                    starts: observed == RunObservedState::Running,
                                    finishes: confirmed_stop(observed),
                                },
                                current: RunFenceRow {
                                    lease_fencing_token: s.lease_fencing_token as u64,
                                    environment_epoch: s.environment_epoch as u64,
                                    last_sequence: s.last_sequence as u64,
                                    desired_state: d,
                                    observed_state: cur,
                                },
                            },
                        ),
                    }
                },
            },
        },
    }
}

/// The decision for an Executor submission on a stored row: fence, sequence,
/// desired state with the Project gate, then observed state.
pub open spec fn stored_submission_rule(
    execution_enabled: Option<bool>,
    row: Option<StoredFenceRow>,
    message: FencedMessage,
) -> Result<StoredSubmission, StorageError> {
    match (execution_enabled, row) {
        (Some(enabled), Some(s)) => match stored_sequence_rule(s, message) {
            Some(Ok(w)) => Ok(StoredSubmission::Reply(w)),
            Some(Err(e)) => Err(e),
            None => match s.desired_state {
                None => Ok(StoredSubmission::Corrupt(StateColumn::Desired)),
                Some(d) => if !(enabled && wants_work(d)) {
                    Ok(StoredSubmission::Reply(FencedWrite::Ignored))
                } else {
                    match s.observed_state {
                        None => Ok(StoredSubmission::Corrupt(StateColumn::Observed)),
                        Some(o) => if terminal(o) {
                            Ok(StoredSubmission::Reply(FencedWrite::Ignored))
                        } else {
                            Ok(
                                StoredSubmission::CheckLeaseAndRecord {
                                    sequence: message.sequence,
                                    current: RunFenceRow {
                                        lease_fencing_token: s.lease_fencing_token as u64,
                                        environment_epoch: s.environment_epoch as u64,
                                        last_sequence: s.last_sequence as u64,
                                        desired_state: d,
                                        observed_state: o,
                                    },
                                },
                            )
                        },
                    }
                },
            },
        },
        _ => Ok(StoredSubmission::Reply(FencedWrite::Missing)),
    }
}

fn stored_sequence(s: &StoredFenceRow, message: FencedMessage) -> (res: Option<
    Result<FencedWrite, StorageError>,
>)
    ensures
        res == stored_sequence_rule(*s, message),
{
    let token = match i64_to_u64(s.lease_fencing_token, "run.lease_fencing_token") {
        Ok(v) => v,
        Err(e) => return Some(Err(e)),
    };
    let epoch = match i64_to_u64(s.environment_epoch, "run.environment_epoch") {
        Ok(v) => v,
        Err(e) => return Some(Err(e)),
    };
    if token != message.lease_fencing_token || epoch != message.environment_epoch {
        return Some(Ok(FencedWrite::Ignored));
    }
    let last = match i64_to_u64(s.last_sequence, "run.last_sequence") {
        Ok(v) => v,
        Err(e) => return Some(Err(e)),
    };
    match sequence_decision(last, message.sequence) {
        Err(e) => Some(Err(e)),
        Ok(SequenceDecision::Apply) => None,
        Ok(SequenceDecision::Ignored) => Some(Ok(FencedWrite::Ignored)),
        Ok(SequenceDecision::Gap { expected, received }) => Some(
            Ok(FencedWrite::SequenceGap { expected, received }),
        ),
    }
}

/// Decides a Supervisor observation on the locked row as stored, reading its
/// columns in the order the decision needs them, so that a message under a
/// stale fence or sequence is answered however the rest of the row reads.
pub fn decide_stored_observation(
    row: Option<StoredFenceRow>,
    message: FencedMessage,
    observed: RunObservedState,
) -> (res: Result<StoredObservation, StorageError>)
    ensures
        res == stored_observation_rule(row, message, observed),
        res matches Ok(StoredObservation::Update { change, current }) ==> (change.observed_state
            == observed && forward_transition(current.observed_state, observed) && lifecycle_rank(
            current.observed_state,
        ) <= lifecycle_rank(observed) && (row matches Some(s) && s.observed_state == Some(
            current.observed_state,
        ))),
{
    let s = match row {
        None => return Ok(StoredObservation::Reply(FencedWrite::Missing)),
        Some(s) => s,
    };
    match stored_sequence(&s, message) {
        Some(Ok(w)) => return Ok(StoredObservation::Reply(w)),
        Some(Err(e)) => return Err(e),
        None => {},
    }
    let cur = match s.observed_state {
        None => return Ok(StoredObservation::Corrupt(StateColumn::Observed)),
        Some(cur) => cur,
    };
    if !observed_state_transition_is_monotonic(cur, observed) {
        return Ok(
            StoredObservation::Reply(
                FencedWrite::InvalidObservedStateTransition { from: cur, to: observed },
            ),
        );
    }
    let d = match s.desired_state {
        None => return Ok(StoredObservation::Corrupt(StateColumn::Desired)),
        Some(d) => d,
    };
    Ok(
        StoredObservation::Update {
            change: ObservationUpdate {
                observed_state: observed,
                desired_state: desired_state_after_observation(d, observed),
                last_sequence: message.sequence,
                starts: observed == RunObservedState::Running,
                finishes: is_confirmed_terminal_stop(observed),
            },
            current: RunFenceRow {
                lease_fencing_token: s.lease_fencing_token as u64,
                environment_epoch: s.environment_epoch as u64,
                last_sequence: s.last_sequence as u64,
                desired_state: d,
                observed_state: cur,
            },
        },
    )
}

/// Decides an Executor submission on the locked task-stage row as stored
/// (`execution_enabled` is `None` when the Run or its Project is missing).
pub fn decide_stored_submission(
    execution_enabled: Option<bool>,
    row: Option<StoredFenceRow>,
    message: FencedMessage,
) -> (res: Result<StoredSubmission, StorageError>)
    ensures
        res == stored_submission_rule(execution_enabled, row, message),
{
    let (enabled, s) = match (execution_enabled, row) {
        (Some(enabled), Some(s)) => (enabled, s),
        _ => return Ok(StoredSubmission::Reply(FencedWrite::Missing)),
    };
    match stored_sequence(&s, message) {
        Some(Ok(w)) => return Ok(StoredSubmission::Reply(w)),
        Some(Err(e)) => return Err(e),
        None => {},
    }
    let d = match s.desired_state {
        None => return Ok(StoredSubmission::Corrupt(StateColumn::Desired)),
        Some(d) => d,
    };
    if !executor_submission_is_permitted(enabled, d) {
        return Ok(StoredSubmission::Reply(FencedWrite::Ignored));
    }
    let o = match s.observed_state {
        None => return Ok(StoredSubmission::Corrupt(StateColumn::Observed)),
        Some(o) => o,
    };
    if is_terminal_observed_state(o) {
        return Ok(StoredSubmission::Reply(FencedWrite::Ignored));
    }
    Ok(
        StoredSubmission::CheckLeaseAndRecord {
            sequence: message.sequence,
            current: RunFenceRow {
                lease_fencing_token: s.lease_fencing_token as u64,
                environment_epoch: s.environment_epoch as u64,
                last_sequence: s.last_sequence as u64,
                desired_state: d,
                observed_state: o,
            },
        },
    )
}


/// The observed lifecycle never moves backwards: an accepted transition keeps
/// or raises its rank (unknown < provisioning < running < stopping <
/// terminal), and the transitions accepted are exactly staying put, moving to
/// a later rank, and a positive stop resolving a lost or failed observation.
/// In particular a stopping Run is never observed running again.
pub proof fn lemma_observed_lifecycle_never_regresses(from: RunObservedState, to: RunObservedState)
    ensures
        monotonic(from, to) <==> forward_transition(from, to),
        monotonic(from, to) ==> lifecycle_rank(from) <= lifecycle_rank(to),
        lifecycle_rank(to) < lifecycle_rank(from) ==> !monotonic(from, to),
{
}


/// Only a current message writes: an accepted observation or a recorded
/// submission carries the Run's own fence and epoch and the very next
/// sequence value, and a submission is recorded only while the Project is
/// enabled, Core wants the Run provisioned or running, and no stop, failure
/// or loss was observed. Any other message is answered without a write.
pub proof fn lemma_only_current_messages_write(
    execution_enabled: Option<bool>,
    row: RunFenceRow,
    message: FencedMessage,
    observed: RunObservedState,
)
    ensures
        observation_rule(Some(row), message, observed) is Update ==> current_message(row, message),
        submission_rule(execution_enabled, Some(row), message) is CheckLeaseAndRecord
            ==> live_submission(execution_enabled, row, message),
        !current_message(row, message) ==> observation_rule(Some(row), message, observed) is Reply
            && submission_rule(execution_enabled, Some(row), message) is Reply,
{
}

} // verus!
