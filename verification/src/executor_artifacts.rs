//! Executor ArtifactSubmission receipts: the exact Run fence they were sent
//! under, and the rules that bind a receipt to one immutable Artifact.
//!
//! Identities are UUIDs held as their big-endian 128-bit values; the nil UUID
//! is zero.
use vstd::prelude::*;

use crate::error::StorageError;

verus! {

/// Exact Run fence and environment epoch that scoped an executor receipt.
#[derive(Clone, Copy, Debug, PartialEq, Eq, Structural)]
pub struct ExecutorArtifactRunScope {
    run_id: u128,
    lease_fencing_token: u64,
    environment_epoch: u64,
}

/// A valid scope: a non-nil Run and positive fence fields.
pub open spec fn scope_valid(run_id: u128, lease_fencing_token: u64, environment_epoch: u64) -> bool {
    run_id != 0 && lease_fencing_token > 0 && environment_epoch > 0
}

impl ExecutorArtifactRunScope {
    /// The scoped Run identity.
    pub closed spec fn run(&self) -> u128 {
        self.run_id
    }

    /// The scoped fencing token.
    pub closed spec fn token(&self) -> u64 {
        self.lease_fencing_token
    }

    /// The scoped environment epoch.
    pub closed spec fn epoch(&self) -> u64 {
        self.environment_epoch
    }

    /// Creates a non-empty, positive Run receipt scope. The checks run in
    /// order: Run identity, fencing token, environment epoch.
    pub fn new(run_id: u128, lease_fencing_token: u64, environment_epoch: u64) -> (res: Result<
        Self,
        StorageError,
    >)
        ensures
            scope_valid(run_id, lease_fencing_token, environment_epoch) ==> (res matches Ok(s)
                && s.run() == run_id && s.token() == lease_fencing_token && s.epoch()
                == environment_epoch),
            run_id == 0 ==> (res matches Err(StorageError::InvalidInput { reason }) && reason@
                == "executor artifact run_id must not be nil"@),
            run_id != 0 && lease_fencing_token == 0 ==> (res matches Err(
                StorageError::InvalidInput { reason },
            ) && reason@ == "executor artifact lease_fencing_token must be positive"@),
            run_id != 0 && lease_fencing_token > 0 && environment_epoch == 0 ==> (res matches Err(
                StorageError::InvalidInput { reason },
            ) && reason@ == "executor artifact environment_epoch must be positive"@),
    {
        if run_id == 0 {
            return Err(
                StorageError::InvalidInput {
                    reason: "executor artifact run_id must not be nil".to_owned(),
                },
            );
        }
        if lease_fencing_token == 0 {
            return Err(
                StorageError::InvalidInput {
                    reason: "executor artifact lease_fencing_token must be positive".to_owned(),
                },
            );
        }
        if environment_epoch == 0 {
            return Err(
                StorageError::InvalidInput {
                    reason: "executor artifact environment_epoch must be positive".to_owned(),
                },
            );
        }
        Ok(ExecutorArtifactRunScope { run_id, lease_fencing_token, environment_epoch })
    }

    /// Returns the scoped Run identity.
    pub fn run_id(self) -> (res: u128)
        ensures
            res == self.run(),
    {
        self.run_id
    }

    /// Returns the Lease fencing token copied into the Run.
    pub fn lease_fencing_token(self) -> (res: u64)
        ensures
            res == self.token(),
    {
        self.lease_fencing_token
    }

    /// Returns the Run environment epoch.
    pub fn environment_epoch(self) -> (res: u64)
        ensures
            res == self.epoch(),
    {
        self.environment_epoch
    }
}

/// One immutable ExecutorSubmission transport receipt used to submit an Artifact.
#[derive(Clone, Copy, Debug, PartialEq, Eq, Structural)]
pub struct ExecutorArtifactReceipt {
    message_id: u128,
    scope: ExecutorArtifactRunScope,
}

impl ExecutorArtifactReceipt {
    /// The transport identity.
    pub closed spec fn message(&self) -> u128 {
        self.message_id
    }

    /// The Run scope.
    pub closed spec fn scope_view(&self) -> ExecutorArtifactRunScope {
        self.scope
    }

    /// Creates a receipt bound to one exact Run fence and environment epoch.
    /// A nil message identity is rejected before the scope is checked.
    pub fn new(message_id: u128, run_id: u128, lease_fencing_token: u64, environment_epoch: u64) -> (res:
        Result<Self, StorageError>)
        ensures
            message_id == 0 ==> (res matches Err(StorageError::InvalidInput { reason }) && reason@
                == "executor artifact message_id must not be nil"@),
            message_id != 0 && scope_valid(run_id, lease_fencing_token, environment_epoch) ==> (
            res matches Ok(r) && r.message() == message_id && r.scope_view().run() == run_id
                && r.scope_view().token() == lease_fencing_token && r.scope_view().epoch()
                == environment_epoch),
            message_id != 0 && run_id == 0 ==> (res matches Err(StorageError::InvalidInput { reason })
                && reason@ == "executor artifact run_id must not be nil"@),
            message_id != 0 && run_id != 0 && lease_fencing_token == 0 ==> (res matches Err(
                StorageError::InvalidInput { reason },
            ) && reason@ == "executor artifact lease_fencing_token must be positive"@),
            message_id != 0 && run_id != 0 && lease_fencing_token > 0 && environment_epoch == 0
                ==> (res matches Err(StorageError::InvalidInput { reason }) && reason@
                == "executor artifact environment_epoch must be positive"@),
    {
        if message_id == 0 {
            return Err(
                StorageError::InvalidInput {
                    reason: "executor artifact message_id must not be nil".to_owned(),
                },
            );
        }
        let scope = ExecutorArtifactRunScope::new(run_id, lease_fencing_token, environment_epoch)?;
        Ok(ExecutorArtifactReceipt { message_id, scope })
    }

    /// Returns the globally unique ExecutorSubmission transport identity.
    pub fn message_id(self) -> (res: u128)
        ensures
            res == self.message(),
    {
        self.message_id
    }

    /// Returns the exact Run scope carried by this receipt.
    pub fn scope(self) -> (res: ExecutorArtifactRunScope)
        ensures
            res == self.scope_view(),
    {
        self.scope
    }
}

/// What an executor Artifact location carries that the receipt rule reads.
#[derive(Clone, Debug)]
pub struct ExecutorLocationFacts {
    /// The producer is an Employee Run.
    pub producer_is_employee_run: bool,
    /// Producing Run, if any.
    pub run_id: Option<u128>,
    /// Owning Task, if any.
    pub task_id: Option<u128>,
    /// Whether a stage identity is present.
    pub has_stage_id: bool,
}

/// Checks that an Artifact location is a complete `EmployeeRun` context for
/// the receipt's Run. The checks run in order: producer, Run, Task, stage.
pub fn validate_executor_location(location: &ExecutorLocationFacts, receipt: ExecutorArtifactReceipt) -> (res:
    Result<(), StorageError>)
    ensures
        !location.producer_is_employee_run ==> (res matches Err(StorageError::InvalidInput { reason })
            && reason@ == "executor artifact location must use employee_run producer"@),
        location.producer_is_employee_run && location.run_id != Some(receipt.scope_view().run())
            ==> (res matches Err(StorageError::InvalidInput { reason }) && reason@
            == "executor artifact location run_id must match receipt run_id"@),
        location.producer_is_employee_run && location.run_id == Some(receipt.scope_view().run())
            && location.task_id is None ==> (res matches Err(StorageError::InvalidInput { reason })
            && reason@ == "executor artifact location requires a task_id"@),
        location.producer_is_employee_run && location.run_id == Some(receipt.scope_view().run())
            && location.task_id is Some && !location.has_stage_id ==> (res matches Err(
            StorageError::InvalidInput { reason },
        ) && reason@ == "executor artifact location requires a stage_id"@),
        location.producer_is_employee_run && location.run_id == Some(receipt.scope_view().run())
            && location.task_id is Some && location.has_stage_id ==> res is Ok,
{
    if !location.producer_is_employee_run {
        return Err(
            StorageError::InvalidInput {
                reason: "executor artifact location must use employee_run producer".to_owned(),
            },
        );
    }
    let run = receipt.scope().run_id();
    let same_run = match location.run_id {
        Some(r) => r == run,
        None => false,
    };
    if !same_run {
        return Err(
            StorageError::InvalidInput {
                reason: "executor artifact location run_id must match receipt run_id".to_owned(),
            },
        );
    }
    if location.task_id.is_none() {
        return Err(
            StorageError::InvalidInput {
                reason: "executor artifact location requires a task_id".to_owned(),
            },
        );
    }
    if !location.has_stage_id {
        return Err(
            StorageError::InvalidInput {
                reason: "executor artifact location requires a stage_id".to_owned(),
            },
        );
    }
    Ok(())
}

/// Where an Artifact is attached and who produced it, as stored beside it.
#[derive(Clone, Debug)]
pub struct ArtifactLocation {
    /// Owning Task, if any.
    pub task_id: Option<u128>,
    /// Producing Run, if any.
    pub run_id: Option<u128>,
    /// Producing Pipeline stage, if any.
    pub stage_id: Option<String>,
    /// Storage text of the producer kind (`human`, `employee_run`, ...).
    pub producer_type: String,
    /// Producer identity, if any.
    pub producer_id: Option<u128>,
}

/// What the executor receipt rule reads of a location.
pub open spec fn location_facts(location: ArtifactLocation) -> ExecutorLocationFacts {
    ExecutorLocationFacts {
        producer_is_employee_run: location.producer_type@ == "employee_run"@,
        run_id: location.run_id,
        task_id: location.task_id,
        has_stage_id: location.stage_id is Some,
    }
}

impl ArtifactLocation {
    /// The standard direct-human attachment context.
    pub fn human(task_id: Option<u128>) -> (res: Self)
        ensures
            res.task_id == task_id,
            res.run_id is None,
            res.stage_id is None,
            res.producer_type@ == "human"@,
            res.producer_id is None,
    {
        ArtifactLocation {
            task_id,
            run_id: None,
            stage_id: None,
            producer_type: "human".to_owned(),
            producer_id: None,
        }
    }

    /// What the executor receipt rule reads of this location.
    pub fn facts(&self) -> (res: ExecutorLocationFacts)
        ensures
            res == location_facts(*self),
    {
        ExecutorLocationFacts {
            producer_is_employee_run: crate::text::text_equals(
                self.producer_type.as_str(),
                "employee_run",
            ),
            run_id: self.run_id,
            task_id: self.task_id,
            has_stage_id: self.stage_id.is_some(),
        }
    }
}

/// Typed executor evidence write that cannot silently lose its transport
/// receipt: an Artifact (`A`, its body and metadata as the adapter holds
/// them) with its location and exact receipt, built only through
/// [`ExecutorArtifactWrite::new`].
pub struct ExecutorArtifactWrite<A> {
    artifact: A,
    location: ArtifactLocation,
    receipt: ExecutorArtifactReceipt,
}

/// The location is a complete `EmployeeRun` context for the receipt's Run.
pub open spec fn executor_location_ok(location: ExecutorLocationFacts, receipt: ExecutorArtifactReceipt) -> bool {
    &&& location.producer_is_employee_run
    &&& location.run_id == Some(receipt.scope_view().run())
    &&& location.task_id is Some
    &&& location.has_stage_id
}

impl<A> ExecutorArtifactWrite<A> {
    /// The Artifact that will be persisted.
    pub closed spec fn artifact_view(&self) -> A {
        self.artifact
    }

    /// The location that will be persisted.
    pub closed spec fn location_view(&self) -> ArtifactLocation {
        self.location
    }

    /// The receipt that will be mapped to the inserted Artifact.
    pub closed spec fn receipt_view(&self) -> ExecutorArtifactReceipt {
        self.receipt
    }

    /// Combines an EmployeeRun Artifact location with its exact receipt
    /// scope; refused exactly as [`validate_executor_location`] refuses the
    /// location's facts.
    pub fn new(artifact: A, location: ArtifactLocation, receipt: ExecutorArtifactReceipt) -> (res:
        Result<Self, StorageError>)
        ensures
            res is Ok <==> executor_location_ok(location_facts(location), receipt),
            res matches Ok(w) ==> w.artifact_view() == artifact && w.location_view() == location
                && w.receipt_view() == receipt,
            ({
                let facts = location_facts(location);
                &&& !facts.producer_is_employee_run ==> (res matches Err(
                    StorageError::InvalidInput { reason },
                ) && reason@ == "executor artifact location must use employee_run producer"@)
                &&& facts.producer_is_employee_run && facts.run_id != Some(
                    receipt.scope_view().run(),
                ) ==> (res matches Err(StorageError::InvalidInput { reason }) && reason@
                    == "executor artifact location run_id must match receipt run_id"@)
                &&& facts.producer_is_employee_run && facts.run_id == Some(
                    receipt.scope_view().run(),
                ) && facts.task_id is None ==> (res matches Err(
                    StorageError::InvalidInput { reason },
                ) && reason@ == "executor artifact location requires a task_id"@)
                &&& facts.producer_is_employee_run && facts.run_id == Some(
                    receipt.scope_view().run(),
                ) && facts.task_id is Some && !facts.has_stage_id ==> (res matches Err(
                    StorageError::InvalidInput { reason },
                ) && reason@ == "executor artifact location requires a stage_id"@)
            }),
    {
        let facts = location.facts();
        match validate_executor_location(&facts, receipt) {
            Ok(()) => Ok(ExecutorArtifactWrite { artifact, location, receipt }),
            Err(e) => Err(e),
        }
    }

    /// Returns the Artifact that will be persisted.
    pub fn artifact(&self) -> (res: &A)
        ensures
            *res == self.artifact_view(),
    {
        &self.artifact
    }

    /// Returns the immutable evidence location that will be persisted.
    pub fn location(&self) -> (res: &ArtifactLocation)
        ensures
            *res == self.location_view(),
    {
        &self.location
    }

    /// Returns the receipt that will be mapped to the inserted Artifact.
    pub fn receipt(&self) -> (res: ExecutorArtifactReceipt)
        ensures
            res == self.receipt_view(),
    {
        self.receipt
    }
}

/// Checks requested receipt identities before a lookup: none may be nil.
pub fn validate_lookup_ids(message_ids: &Vec<u128>) -> (res: Result<(), StorageError>)
    ensures
        (forall|i: int| 0 <= i < message_ids@.len() ==> #[trigger] message_ids@[i] != 0) ==> res is Ok,
        (exists|i: int| 0 <= i < message_ids@.len() && #[trigger] message_ids@[i] == 0) ==> (res
            matches Err(StorageError::InvalidInput { reason }) && reason@
            == "executor artifact lookup message_id must not be nil"@),
{
    let mut i: usize = 0;
    while i < message_ids.len()
        invariant
            i <= message_ids@.len(),
            forall|k: int| 0 <= k < i ==> #[trigger] message_ids@[k] != 0,
        decreases message_ids@.len() - i,
    {
        if message_ids[i] == 0 {
            return Err(
                StorageError::InvalidInput {
                    reason: "executor artifact lookup message_id must not be nil".to_owned(),
                },
            );
        }
        i += 1;
    }
    Ok(())
}

/// Outcome of reserving a receipt: a fresh reservation succeeds; a known
/// receipt is already mapped; otherwise the Run fence no longer matches.
pub fn receipt_reservation_result(inserted: bool, known_receipt: bool) -> (res: Result<
    (),
    StorageError,
>)
    ensures
        inserted ==> res is Ok,
        !inserted && known_receipt ==> res == Err::<(), StorageError>(
            StorageError::ExecutorArtifactReceiptAlreadyMapped,
        ),
        !inserted && !known_receipt ==> res == Err::<(), StorageError>(
            StorageError::StaleRevision { aggregate: "run artifact receipt fence" },
        ),
{
    if inserted {
        Ok(())
    } else if known_receipt {
        Err(StorageError::ExecutorArtifactReceiptAlreadyMapped)
    } else {
        Err(StorageError::StaleRevision { aggregate: "run artifact receipt fence" })
    }
}

/// An Artifact insert must write exactly one row.
pub fn artifact_insert_result(rows_affected: u64) -> (res: Result<(), StorageError>)
    ensures
        rows_affected == 1 ==> res is Ok,
        rows_affected != 1 ==> res == Err::<(), StorageError>(
            StorageError::StaleRevision { aggregate: "artifact" },
        ),
{
    if rows_affected == 1 {
        Ok(())
    } else {
        Err(StorageError::StaleRevision { aggregate: "artifact" })
    }
}

} // verus!
