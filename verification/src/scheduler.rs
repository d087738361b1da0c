//! Dispatch gates that turn a leased queue entry into one active Lease and a
//! provision-requested Run. The adapter rechecks every gate under row locks in
//! the order given here, and stops at the first closed one.
use vstd::prelude::*;

use crate::error::StorageError;
use crate::model::{QueueState, RunDesiredState, RunObservedState};
use crate::run_lifecycle::{RunFenceRow, sequence_rule, SequenceDecision, wants_work};

verus! {

/// A gate rechecked under locks before a Lease and Run are created.
#[derive(Clone, Copy, Debug, PartialEq, Eq, Structural)]
pub enum DispatchGate {
    /// The Task is still dispatchable at the queued revision and stage.
    TaskCurrent,
    /// The Task has no unresolved Git integration.
    NoGitIntegration,
    /// A next-Run Employee constraint permits this Employee.
    AssigneePermitted,
    /// Every blocker of the Task has its required lifecycle.
    DependenciesSatisfied,
    /// The queue entry is still leased with the claimed fields.
    QueueEntryCurrent,
    /// The Employee still has a free Lease slot.
    EmployeeCapacity,
}

/// The gates in the order they are checked, after the Project gate.
pub open spec fn gate_order() -> Seq<DispatchGate> {
    seq![
        DispatchGate::TaskCurrent,
        DispatchGate::NoGitIntegration,
        DispatchGate::AssigneePermitted,
        DispatchGate::DependenciesSatisfied,
        DispatchGate::QueueEntryCurrent,
        DispatchGate::EmployeeCapacity,
    ]
}

/// The dispatch gates in checking order.
pub fn dispatch_gates() -> (res: Vec<DispatchGate>)
    ensures
        res@ == gate_order(),
{
    let res = vec![
        DispatchGate::TaskCurrent,
        DispatchGate::NoGitIntegration,
        DispatchGate::AssigneePermitted,
        DispatchGate::DependenciesSatisfied,
        DispatchGate::QueueEntryCurrent,
        DispatchGate::EmployeeCapacity,
    ];
    assert(res@ =~= gate_order());
    res
}

/// The request itself is sound: a leased queue entry and a positive
/// PostgreSQL `smallint` Run specification version.
pub open spec fn precheck_ok(queue_state: QueueState, run_spec_version: u16) -> bool {
    queue_state == QueueState::Leased && 0 < run_spec_version <= i16::MAX
}

/// The error a refused request reports: a queue entry that is not leased
/// first, then a version out of `smallint` range, then a zero version.
pub open spec fn precheck_refusal(queue_state: QueueState, run_spec_version: u16, e: StorageError) -> bool {
    if queue_state != QueueState::Leased {
        e matches StorageError::InvalidInput { reason } && reason@
            == "a run can only be created from a leased queue entry"@
    } else if run_spec_version > i16::MAX {
        e == StorageError::IntegerOutOfRange { field: "run.run_spec_version" }
    } else {
        e matches StorageError::InvalidInput { reason } && reason@
            == "run.run_spec_version must be greater than zero"@
    }
}

/// Validates the request itself: only a leased queue entry can become a Run,
/// and the Run specification version must be a positive PostgreSQL `smallint`.
/// Returns the version as stored.
pub fn lease_run_precheck(queue_state: QueueState, run_spec_version: u16) -> (res: Result<
    i16,
    StorageError,
>)
    ensures
        precheck_ok(queue_state, run_spec_version) ==> res == Ok::<i16, StorageError>(
            run_spec_version as i16,
        ),
        !precheck_ok(queue_state, run_spec_version) ==> (res matches Err(e) && precheck_refusal(
            queue_state,
            run_spec_version,
            e,
        )),
{
    if queue_state != QueueState::Leased {
        return Err(
            StorageError::InvalidInput {
                reason: "a run can only be created from a leased queue entry".to_owned(),
            },
        );
    }
    if run_spec_version > 32767 {
        return Err(StorageError::IntegerOutOfRange { field: "run.run_spec_version" });
    }
    if run_spec_version == 0 {
        return Err(
            StorageError::InvalidInput {
                reason: "run.run_spec_version must be greater than zero".to_owned(),
            },
        );
    }
    Ok(run_spec_version as i16)
}

/// The error the Project gate reports: a missing Project is not found, and a
/// stopped one refuses execution.
pub open spec fn project_refusal(execution_enabled: Option<bool>, e: StorageError) -> bool {
    if execution_enabled is None {
        e == StorageError::NotFound { aggregate: "project" }
    } else {
        e matches StorageError::InvalidInput { reason } && reason@ == "project execution is stopped"@
    }
}

/// The Project gate: the Project must exist and have execution enabled.
pub fn project_gate(execution_enabled: Option<bool>) -> (res: Result<(), StorageError>)
    ensures
        execution_enabled == Some(true) ==> res is Ok,
        execution_enabled != Some(true) ==> (res matches Err(e) && project_refusal(
            execution_enabled,
            e,
        )),
{
    match execution_enabled {
        None => Err(StorageError::NotFound { aggregate: "project" }),
        Some(false) => Err(
            StorageError::InvalidInput { reason: "project execution is stopped".to_owned() },
        ),
        Some(true) => Ok(()),
    }
}

/// The error a closed gate reports.
pub open spec fn gate_refusal(gate: DispatchGate, e: StorageError) -> bool {
    match gate {
        DispatchGate::TaskCurrent => e == StorageError::StaleRevision {
            aggregate: "task dispatch state",
        },
        DispatchGate::NoGitIntegration => e matches StorageError::InvalidInput { reason } && reason@
            == "Task has an unresolved Git integration"@,
        DispatchGate::AssigneePermitted => e matches StorageError::InvalidInput { reason } && reason@
            == "next Run Employee constraint does not permit this assignment"@,
        DispatchGate::DependenciesSatisfied => e == StorageError::StaleRevision {
            aggregate: "task dependency gate",
        },
        DispatchGate::QueueEntryCurrent => e == StorageError::StaleRevision {
            aggregate: "queue entry",
        },
        DispatchGate::EmployeeCapacity => e == StorageError::StaleRevision { aggregate: "employee" },
    }
}

/// The error a closed gate reports.
pub fn dispatch_gate(gate: DispatchGate, open: bool) -> (res: Result<(), StorageError>)
    ensures
        open ==> res is Ok,
        !open ==> (res matches Err(e) && gate_refusal(gate, e)),
{
    if open {
        return Ok(());
    }
    match gate {
        DispatchGate::TaskCurrent => Err(StorageError::StaleRevision { aggregate: "task dispatch state" }),
        DispatchGate::NoGitIntegration => Err(
            StorageError::InvalidInput { reason: "Task has an unresolved Git integration".to_owned() },
        ),
        DispatchGate::AssigneePermitted => Err(
            StorageError::InvalidInput {
                reason: "next Run Employee constraint does not permit this assignment".to_owned(),
            },
        ),
        DispatchGate::DependenciesSatisfied => Err(
            StorageError::StaleRevision { aggregate: "task dependency gate" },
        ),
        DispatchGate::QueueEntryCurrent => Err(StorageError::StaleRevision { aggregate: "queue entry" }),
        DispatchGate::EmployeeCapacity => Err(StorageError::StaleRevision { aggregate: "employee" }),
    }
}

/// Gate `i` was reported open.
pub open spec fn gate_reported_open(gates_open: Seq<bool>, i: int) -> bool {
    0 <= i < gates_open.len() && gates_open[i]
}

/// The first gate, in checking order from position `i`, that is not reported
/// open; a gate with no reported result counts as closed.
pub open spec fn first_closed_gate_from(gates_open: Seq<bool>, i: int) -> Option<int>
    decreases 6 - i,
{
    if i < 0 || i >= 6 {
        None
    } else if !gate_reported_open(gates_open, i) {
        Some(i)
    } else {
        first_closed_gate_from(gates_open, i + 1)
    }
}

/// The first closed gate in checking order, if any.
pub open spec fn first_closed_gate(gates_open: Seq<bool>) -> Option<int> {
    first_closed_gate_from(gates_open, 0)
}

proof fn lemma_first_closed_gate_from(gates_open: Seq<bool>, i: int)
    requires
        0 <= i <= 6,
    ensures
        match first_closed_gate_from(gates_open, i) {
            Some(k) => i <= k < 6 && !gate_reported_open(gates_open, k) && forall|j: int|
                i <= j < k ==> #[trigger] gate_reported_open(gates_open, j),
            None => forall|j: int| i <= j < 6 ==> #[trigger] gate_reported_open(gates_open, j),
        },
    decreases 6 - i,
{
    if i < 6 && gate_reported_open(gates_open, i) {
        lemma_first_closed_gate_from(gates_open, i + 1);
    }
}

proof fn lemma_first_closed_is(gates_open: Seq<bool>, i: int, k: int)
    requires
        0 <= i <= k < 6,
        !gate_reported_open(gates_open, k),
        forall|j: int| 0 <= j < k ==> #[trigger] gate_reported_open(gates_open, j),
    ensures
        first_closed_gate_from(gates_open, i) == Some(k),
    decreases k - i,
{
    if i < k {
        assert(gate_reported_open(gates_open, i));
        lemma_first_closed_is(gates_open, i + 1, k);
    }
}

/// Decides whether a leased queue entry becomes a Lease and a Run. The
/// request is checked first, then the Project gate, then the dispatch gates
/// in `gate_order()`, where `gates_open[i]` is the locked recheck of gate `i`
/// (the adapter stops reading at the first closed gate; an unread gate counts
/// as closed). The Run is created, with its stored specification version,
/// only when every check holds; otherwise the first failing check decides
/// the error.
pub fn decide_lease_run(
    queue_state: QueueState,
    run_spec_version: u16,
    execution_enabled: Option<bool>,
    gates_open: &Vec<bool>,
) -> (res: Result<i16, StorageError>)
    ensures
        !precheck_ok(queue_state, run_spec_version) ==> (res matches Err(e) && precheck_refusal(
            queue_state,
            run_spec_version,
            e,
        )),
        precheck_ok(queue_state, run_spec_version) && execution_enabled != Some(true) ==> (
        res matches Err(e) && project_refusal(execution_enabled, e)),
        precheck_ok(queue_state, run_spec_version) && execution_enabled == Some(true) ==> match
            first_closed_gate(gates_open@) {
            Some(k) => res matches Err(e) && gate_refusal(gate_order()[k], e),
            None => res == Ok::<i16, StorageError>(run_spec_version as i16),
        },
        res is Ok <==> (precheck_ok(queue_state, run_spec_version) && execution_enabled == Some(
            true,
        ) && first_closed_gate(gates_open@) is None),
        res is Ok ==> queue_state == QueueState::Leased && 0 < run_spec_version <= 32767
            && execution_enabled == Some(true) && gates_open@.len() >= 6 && forall|i: int|
            0 <= i < 6 ==> #[trigger] gates_open@[i],
{
    let version = match lease_run_precheck(queue_state, run_spec_version) {
        Ok(v) => v,
        Err(e) => return Err(e),
    };
    match project_gate(execution_enabled) {
        Ok(()) => {},
        Err(e) => return Err(e),
    }
    let gates = dispatch_gates();
    assert(gate_order().len() == 6);
    let mut i: usize = 0;
    while i < gates.len()
        invariant
            gates@ == gate_order(),
            gates@.len() == 6,
            i <= 6,
            precheck_ok(queue_state, run_spec_version),
            execution_enabled == Some(true),
            version == run_spec_version as i16,
            forall|j: int| 0 <= j < i ==> #[trigger] gate_reported_open(gates_open@, j),
        decreases 6 - i,
    {
        let open = i < gates_open.len() && gates_open[i];
        assert(open == gate_reported_open(gates_open@, i as int));
        match dispatch_gate(gates[i], open) {
            Ok(()) => {},
            Err(e) => {
                proof {
                    lemma_first_closed_is(gates_open@, 0, i as int);
                }
                return Err(e);
            },
        }
        i += 1;
    }
    proof {
        lemma_first_closed_gate_from(gates_open@, 0);
        assert(gate_reported_open(gates_open@, 5));
        assert forall|i: int| 0 <= i < 6 implies #[trigger] gates_open@[i] by {
            assert(gate_reported_open(gates_open@, i));
        }
        if first_closed_gate(gates_open@) is Some {
            let k = first_closed_gate(gates_open@)->0;
            assert(gate_reported_open(gates_open@, k));
        }
    }
    Ok(version)
}

/// The fenced row of a freshly provisioned Run.
pub open spec fn provisioned_row(lease_fencing_token: u64, environment_epoch: u64) -> RunFenceRow {
    RunFenceRow {
        lease_fencing_token,
        environment_epoch,
        last_sequence: 0,
        desired_state: RunDesiredState::ProvisionRequested,
        observed_state: RunObservedState::Unknown,
    }
}

/// A new Run starts provision-requested and unobserved, with no accepted
/// sequence, under the Lease's fencing token and initial epoch.
pub fn provisioned_run_row(lease_fencing_token: u64, environment_epoch: u64) -> (res: RunFenceRow)
    ensures
        res == provisioned_row(lease_fencing_token, environment_epoch),
{
    RunFenceRow {
        lease_fencing_token,
        environment_epoch,
        last_sequence: 0,
        desired_state: RunDesiredState::ProvisionRequested,
        observed_state: RunObservedState::Unknown,
    }
}

/// A freshly provisioned Run accepts exactly sequence one next, and Core
/// wants it working, so the first executor message is never refused for its
/// lifecycle.
pub proof fn lemma_provisioned_run_accepts_first_message(token: u64, epoch: u64, received: u64)
    ensures
        wants_work(provisioned_row(token, epoch).desired_state),
        sequence_rule(provisioned_row(token, epoch).last_sequence, received) == (if received == 1 {
            SequenceDecision::Apply
        } else if received == 0 {
            SequenceDecision::Ignored
        } else {
            SequenceDecision::Gap { expected: 1, received }
        }),
{
}

} // verus!
