//! Run-scoped Gateway authorization and message dedupe. The Gateway ledger is
//! ordered independently of the Supervisor observation/submission sequence:
//! nothing here consumes a Supervisor sequence value.
use vstd::prelude::*;

use crate::error::StorageError;
use crate::ids::{uuid_is_v7, uuid_version};
use crate::model::{RunDesiredState, RunObservedState};
use crate::run_lifecycle::{terminal, wants_work};
use crate::text::text_equals;

verus! {

/// The Run, fence and environment epoch that Core pinned for an invocation.
#[derive(Clone, Copy, Debug, PartialEq, Eq, Structural)]
pub struct RunScope {
    /// A version-7 Run identity.
    pub run_id: u128,
    /// The Lease fencing token the Run was admitted under.
    pub fencing_token: u64,
    /// The environment epoch the Run was admitted under.
    pub environment_epoch: u64,
}

/// A scope can name a live Run only with a version-7 Run identity and
/// positive fence fields.
pub open spec fn scope_well_formed(scope: RunScope) -> bool {
    uuid_version(scope.run_id) == 7 && scope.fencing_token > 0 && scope.environment_epoch > 0
}

/// The structural check that precedes every Gateway scope lookup.
pub fn gateway_scope_precheck(scope: &RunScope) -> (res: Result<(), StorageError>)
    ensures
        scope_well_formed(*scope) <==> res is Ok,
        !scope_well_formed(*scope) ==> (res matches Err(StorageError::InvalidInput { reason })
            && reason@ == "invalid Gateway scope"@),
{
    if !uuid_is_v7(scope.run_id) || scope.fencing_token == 0 || scope.environment_epoch == 0 {
        return Err(StorageError::InvalidInput { reason: "invalid Gateway scope".to_owned() });
    }
    Ok(())
}

/// What the locked Run row says about a Gateway scope.
#[derive(Clone, Copy, Debug)]
pub struct GatewayRunRow {
    /// The Run's current Lease fencing token.
    pub lease_fencing_token: u64,
    /// The Run's current environment epoch.
    pub environment_epoch: u64,
    /// Core's desired state for the Run.
    pub desired_state: RunDesiredState,
    /// The latest observed state of the Run.
    pub observed_state: RunObservedState,
    /// Whether the Run executes a project hook rather than Employee work.
    pub hook_run: bool,
    /// Whether the Run is bound to an Employee.
    pub has_employee: bool,
}

/// A Run row grants Gateway access to a scope when the fence and epoch are
/// current, Core still wants the Run working, the observed state is not
/// terminal, and the Run is Employee work rather than a hook.
pub open spec fn run_grants_gateway(row: GatewayRunRow, scope: RunScope) -> bool {
    &&& row.lease_fencing_token == scope.fencing_token
    &&& row.environment_epoch == scope.environment_epoch
    &&& wants_work(row.desired_state)
    &&& !terminal(row.observed_state)
    &&& !row.hook_run
    &&& row.has_employee
}

/// The grant condition spelled out state by state: current fence and epoch,
/// Core's desired state provision-requested or running, an observed state
/// that is not stopped, failed or lost, and Employee work.
pub open spec fn gateway_live(row: GatewayRunRow, scope: RunScope) -> bool {
    &&& row.lease_fencing_token == scope.fencing_token
    &&& row.environment_epoch == scope.environment_epoch
    &&& (row.desired_state == RunDesiredState::ProvisionRequested || row.desired_state
        == RunDesiredState::Running)
    &&& row.observed_state != RunObservedState::Stopped
    &&& row.observed_state != RunObservedState::Failed
    &&& row.observed_state != RunObservedState::Lost
    &&& !row.hook_run
    &&& row.has_employee
}

/// Decides whether a Gateway scope is currently authorized, from what the
/// lookups found in lock order: the Run's Project gate (`None` when the Run or
/// its Project is unknown), the Run row, and whether the Run's Lease is
/// active. A stop request revokes access before the physical stop completes.
/// Fence values that PostgreSQL cannot hold are rejected after the Project
/// gate, as the row lookup binds them.
pub fn gateway_scope_is_active(
    scope: &RunScope,
    project_enabled: Option<bool>,
    run: Option<GatewayRunRow>,
    lease_active: bool,
) -> (res: Result<bool, StorageError>)
    ensures
        !scope_well_formed(*scope) ==> (res matches Err(StorageError::InvalidInput { reason })
            && reason@ == "invalid Gateway scope"@),
        scope_well_formed(*scope) && project_enabled != Some(true) ==> res == Ok::<
            bool,
            StorageError,
        >(false),
        scope_well_formed(*scope) && project_enabled == Some(true) && scope.fencing_token
            > i64::MAX ==> res == Err::<bool, StorageError>(
            StorageError::IntegerOutOfRange { field: "gateway.fencing_token" },
        ),
        scope_well_formed(*scope) && project_enabled == Some(true) && scope.fencing_token
            <= i64::MAX && scope.environment_epoch > i64::MAX ==> res == Err::<bool, StorageError>(
            StorageError::IntegerOutOfRange { field: "gateway.environment_epoch" },
        ),
        scope_well_formed(*scope) && project_enabled == Some(true) && scope.fencing_token
            <= i64::MAX && scope.environment_epoch <= i64::MAX ==> res == Ok::<bool, StorageError>(
            match run {
                Some(row) => run_grants_gateway(row, *scope) && lease_active,
                None => false,
            },
        ),
        res == Ok::<bool, StorageError>(true) <==> (scope_well_formed(*scope) && project_enabled
            == Some(true) && scope.fencing_token <= i64::MAX && scope.environment_epoch
            <= i64::MAX && lease_active && match run {
            Some(row) => gateway_live(row, *scope),
            None => false,
        }),
{
    gateway_scope_precheck(scope)?;
    if project_enabled != Some(true) {
        return Ok(false);
    }
    if scope.fencing_token > i64::MAX as u64 {
        return Err(StorageError::IntegerOutOfRange { field: "gateway.fencing_token" });
    }
    if scope.environment_epoch > i64::MAX as u64 {
        return Err(StorageError::IntegerOutOfRange { field: "gateway.environment_epoch" });
    }
    match run {
        Some(row) => {
            let live = (match row.desired_state {
                RunDesiredState::ProvisionRequested | RunDesiredState::Running => true,
                _ => false,
            }) && (match row.observed_state {
                RunObservedState::Stopped | RunObservedState::Failed | RunObservedState::Lost => false,
                _ => true,
            });
            Ok(row.lease_fencing_token == scope.fencing_token && row.environment_epoch
                == scope.environment_epoch && live && !row.hook_run && row.has_employee
                && lease_active)
        },
        None => Ok(false),
    }
}

/// Outcome of reserving a Gateway message identity.
#[derive(Clone, Debug, PartialEq, Eq)]
pub enum GatewayWriteResult<R> {
    /// The identity is new (or was reserved by this call).
    Applied,
    /// The same scope and payload were already recorded, with this receipt.
    Replayed(R),
    /// The scope no longer grants Gateway access.
    Denied,
    /// The identity was already used with another scope or payload.
    Conflict,
}

/// A recorded Gateway submission, as stored.
#[derive(Clone, Debug)]
pub struct GatewayReceiptRow<R> {
    /// Run the submission was recorded under.
    pub run_id: u128,
    /// Fencing token as stored.
    pub fencing_token: i64,
    /// Environment epoch as stored.
    pub environment_epoch: i64,
    /// Lowercase or uppercase hex SHA-256 of the payload, as stored.
    pub payload_hash: String,
    /// The receipt returned to the first caller.
    pub receipt: R,
}

/// A stored submission matches a call when the Run, fence, epoch and payload
/// digest are all the same.
pub open spec fn receipt_matches<R>(row: GatewayReceiptRow<R>, scope: RunScope, payload_hash: Seq<
    char,
>) -> bool {
    &&& row.run_id == scope.run_id
    &&& row.fencing_token == scope.fencing_token
    &&& row.environment_epoch == scope.environment_epoch
    &&& row.payload_hash@ == payload_hash
}

/// Looks up an immutable receipt without granting current execution scope:
/// no stored row means the identity is fresh, a matching row replays its
/// receipt, and any difference is a conflict. The comparisons run in order
/// (Run, fence, epoch, digest); a fence or epoch that PostgreSQL cannot hold
/// is rejected when its comparison is reached.
pub fn gateway_submission_receipt<R>(
    row: Option<GatewayReceiptRow<R>>,
    scope: &RunScope,
    payload_hash: &str,
) -> (res: Result<GatewayWriteResult<R>, StorageError>)
    ensures
        row is None ==> res == Ok::<GatewayWriteResult<R>, StorageError>(
            GatewayWriteResult::Applied,
        ),
        row matches Some(r) && r.run_id != scope.run_id ==> res == Ok::<
            GatewayWriteResult<R>,
            StorageError,
        >(GatewayWriteResult::Conflict),
        row matches Some(r) && r.run_id == scope.run_id && scope.fencing_token > i64::MAX ==> res
            == Err::<GatewayWriteResult<R>, StorageError>(
            StorageError::IntegerOutOfRange { field: "gateway.fencing_token" },
        ),
        row matches Some(r) && r.run_id == scope.run_id && scope.fencing_token <= i64::MAX
            && r.fencing_token != scope.fencing_token ==> res == Ok::<
            GatewayWriteResult<R>,
            StorageError,
        >(GatewayWriteResult::Conflict),
        row matches Some(r) && r.run_id == scope.run_id && r.fencing_token == scope.fencing_token
            && scope.environment_epoch > i64::MAX ==> res == Err::<GatewayWriteResult<R>, StorageError>(
            StorageError::IntegerOutOfRange { field: "gateway.environment_epoch" },
        ),
        row matches Some(r) && r.run_id == scope.run_id && r.fencing_token == scope.fencing_token
            && scope.environment_epoch <= i64::MAX ==> res == Ok::<GatewayWriteResult<R>, StorageError>(
            if receipt_matches(row.unwrap(), *scope, payload_hash@) {
                GatewayWriteResult::Replayed(row.unwrap().receipt)
            } else {
                GatewayWriteResult::Conflict
            },
        ),
{
    let r = match row {
        None => return Ok(GatewayWriteResult::Applied),
        Some(r) => r,
    };
    if r.run_id != scope.run_id {
        return Ok(GatewayWriteResult::Conflict);
    }
    if scope.fencing_token > i64::MAX as u64 {
        return Err(StorageError::IntegerOutOfRange { field: "gateway.fencing_token" });
    }
    if r.fencing_token != scope.fencing_token as i64 {
        return Ok(GatewayWriteResult::Conflict);
    }
    if scope.environment_epoch > i64::MAX as u64 {
        return Err(StorageError::IntegerOutOfRange { field: "gateway.environment_epoch" });
    }
    if r.environment_epoch != scope.environment_epoch as i64 || !text_equals(
        r.payload_hash.as_str(),
        payload_hash,
    ) {
        return Ok(GatewayWriteResult::Conflict);
    }
    Ok(GatewayWriteResult::Replayed(r.receipt))
}

/// Convenience form for named Core signals: a replay gives its receipt, a
/// fresh identity gives `None`, and reuse with another scope or payload (or a
/// denied scope) fails closed.
pub fn gateway_receipt<R>(result: GatewayWriteResult<R>) -> (res: Result<Option<R>, StorageError>)
    ensures
        result matches GatewayWriteResult::Replayed(r) ==> res == Ok::<Option<R>, StorageError>(
            Some(r),
        ),
        result is Applied ==> res == Ok::<Option<R>, StorageError>(None),
        (result is Denied || result is Conflict) ==> (res matches Err(
            StorageError::InvalidInput { reason },
        ) && reason@ == "Gateway message identity was reused with different scope or payload"@),
{
    match result {
        GatewayWriteResult::Replayed(receipt) => Ok(Some(receipt)),
        GatewayWriteResult::Applied => Ok(None),
        _ => Err(
            StorageError::InvalidInput {
                reason: "Gateway message identity was reused with different scope or payload".to_owned(),
            },
        ),
    }
}

/// An ASCII hexadecimal digit (`char::is_ascii_hexdigit`).
pub open spec fn ascii_hex(c: char) -> bool {
    ('0' <= c <= '9') || ('a' <= c <= 'f') || ('A' <= c <= 'F')
}

/// A SHA-256 digest written as 64 ASCII hex digits.
pub open spec fn hex_digest(s: Seq<char>) -> bool {
    s.len() == 64 && forall|i: int| 0 <= i < s.len() ==> ascii_hex(#[trigger] s[i])
}

/// Whether a text is 64 ASCII hex digits. Every such digit is one byte, so
/// this is the byte-wise check of a 64-byte hex digest.
pub fn is_hex_digest(s: &str) -> (res: bool)
    ensures
        res == hex_digest(s@),
{
    let n = s.unicode_len();
    if n != 64 {
        return false;
    }
    let mut i: usize = 0;
    while i < n
        invariant
            n == s@.len(),
            i <= n,
            forall|k: int| 0 <= k < i ==> ascii_hex(#[trigger] s@[k]),
        decreases n - i,
    {
        let c = s.get_char(i);
        if !(('0' <= c && c <= '9') || ('a' <= c && c <= 'f') || ('A' <= c && c <= 'F')) {
            return false;
        }
        i += 1;
    }
    true
}

/// The identity of a Gateway submission: a version-7 message identity and a
/// 64-digit hex payload digest.
pub fn validate_gateway_identity(message_id: u128, payload_hash: &str) -> (res: Result<
    (),
    StorageError,
>)
    ensures
        (uuid_version(message_id) == 7 && hex_digest(payload_hash@)) <==> res is Ok,
        res is Err ==> (res matches Err(StorageError::InvalidInput { reason }) && reason@
            == "invalid Gateway receipt identity or digest"@),
{
    if !uuid_is_v7(message_id) || !is_hex_digest(payload_hash) {
        return Err(
            StorageError::InvalidInput {
                reason: "invalid Gateway receipt identity or digest".to_owned(),
            },
        );
    }
    Ok(())
}

/// A stop request revokes new Gateway access at once: whatever the Supervisor
/// last observed, a Run whose desired state is the one a stop request records
/// grants no Gateway scope.
pub proof fn lemma_stop_request_revokes_gateway(force: bool, row: GatewayRunRow, scope: RunScope)
    requires
        row.desired_state == (if force {
            RunDesiredState::ForceStopRequested
        } else {
            RunDesiredState::StopRequested
        }),
    ensures
        !run_grants_gateway(row, scope),
{
}

/// A Gateway grant is bound to the exact fence: a scope carrying any other
/// fencing token or environment epoch than the Run's current ones is refused.
pub proof fn lemma_gateway_grant_is_fenced(row: GatewayRunRow, scope: RunScope, other: RunScope)
    requires
        run_grants_gateway(row, scope),
        other.fencing_token != scope.fencing_token || other.environment_epoch
            != scope.environment_epoch,
    ensures
        !run_grants_gateway(row, other),
{
}


/// Gateway access is granted exactly to the live Employee Runs: every Run
/// whose fence and epoch are current, that Core wants provisioned or running,
/// that is not observed stopped, failed or lost, and that is Employee work, is
/// granted; no other Run is. A provision-requested Run is granted before it
/// is observed running.
pub proof fn lemma_gateway_grants_every_live_employee_run(row: GatewayRunRow, scope: RunScope)
    ensures
        run_grants_gateway(row, scope) <==> gateway_live(row, scope),
        row.lease_fencing_token == scope.fencing_token && row.environment_epoch
            == scope.environment_epoch && row.desired_state == RunDesiredState::ProvisionRequested
            && row.observed_state == RunObservedState::Provisioning && !row.hook_run
            && row.has_employee ==> run_grants_gateway(row, scope),
{
}

} // verus!
