//! Revision and generation rules of the resolution queue: resolver routes and
//! escalations are written under optimistic revisions, and an escalation's
//! generation moves forward by at most one per write.
use vstd::prelude::*;

use crate::error::StorageError;
use crate::model::u64_to_i64;

verus! {

/// The reason every refused resolution write carries.
pub open spec fn resolution_refused(res: Result<(), StorageError>) -> bool {
    res matches Err(StorageError::InvalidInput { reason }) && reason@
        == "invalid resolution scope, revision, or state"@
}

fn resolution_error() -> (res: StorageError)
    ensures
        resolution_refused(Err(res)),
{
    StorageError::InvalidInput { reason: "invalid resolution scope, revision, or state".to_owned() }
}

/// A resolver route is created at revision one and otherwise replaces the
/// expected revision by its successor.
pub open spec fn route_revision_ok(revision: u64, expected: Option<u64>) -> bool {
    match expected {
        Some(e) => e < u64::MAX && revision == e + 1,
        None => revision == 1,
    }
}

/// The bound values of a resolver-route write: its revision and, for an
/// update, the revision it replaces.
pub fn resolver_route_write(revision: u64, expected: Option<u64>) -> (res: Result<
    (i64, Option<i64>),
    StorageError,
>)
    ensures
        revision > i64::MAX ==> res == Err::<(i64, Option<i64>), StorageError>(
            StorageError::IntegerOutOfRange { field: "route.revision" },
        ),
        revision <= i64::MAX && !route_revision_ok(revision, expected) ==> (res matches Err(
            StorageError::InvalidInput { reason },
        ) && reason@ == "invalid resolution scope, revision, or state"@),
        revision <= i64::MAX && route_revision_ok(revision, expected) ==> match expected {
            None => res == Ok::<(i64, Option<i64>), StorageError>((revision as i64, None)),
            Some(e) => res == if e <= i64::MAX {
                Ok::<(i64, Option<i64>), StorageError>((revision as i64, Some(e as i64)))
            } else {
                Err(StorageError::IntegerOutOfRange { field: "route.expected" })
            },
        },
{
    let bound = match u64_to_i64(revision, "route.revision") {
        Ok(bound) => bound,
        Err(error) => return Err(error),
    };
    match expected {
        Some(e) => {
            if e == u64::MAX || revision != e + 1 {
                return Err(resolution_error());
            }
            match u64_to_i64(e, "route.expected") {
                Ok(old) => Ok((bound, Some(old))),
                Err(error) => Err(error),
            }
        },
        None => {
            if revision != 1 {
                return Err(resolution_error());
            }
            Ok((bound, None))
        },
    }
}

/// An escalation update must name the stored revision and may keep its
/// generation or advance it by exactly one.
pub open spec fn escalation_generation_ok(
    prior_revision: u64,
    prior_generation: u64,
    expected: u64,
    generation: u64,
) -> bool {
    &&& prior_revision == expected
    &&& prior_generation <= generation
    &&& prior_generation < u64::MAX
    &&& generation <= prior_generation + 1
}

/// Checks the revision and generation of an escalation update against the
/// stored escalation; the state transition itself is checked by its caller.
pub fn check_escalation_update(
    prior_revision: u64,
    prior_generation: u64,
    expected: u64,
    generation: u64,
) -> (res: Result<(), StorageError>)
    ensures
        escalation_generation_ok(prior_revision, prior_generation, expected, generation) ==> res
            is Ok,
        !escalation_generation_ok(prior_revision, prior_generation, expected, generation)
            ==> resolution_refused(res),
{
    if prior_revision != expected || generation < prior_generation {
        return Err(resolution_error());
    }
    if prior_generation == u64::MAX || generation > prior_generation + 1 {
        return Err(resolution_error());
    }
    Ok(())
}

/// A route or escalation write must change exactly one row.
pub fn resolution_write_applied(rows_affected: u64) -> (res: Result<(), StorageError>)
    ensures
        rows_affected == 1 ==> res is Ok,
        rows_affected != 1 ==> resolution_refused(res),
{
    if rows_affected != 1 {
        return Err(resolution_error());
    }
    Ok(())
}

} // verus!
