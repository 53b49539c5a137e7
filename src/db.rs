use crate::error::{fault_from_flags, store_fault, ServiceError, StoreFault};
use vstd::prelude::*;

verus! {

/// The most connections the pool holds open at once.
pub const MAX_CONNECTIONS: u32 = 5;

/// How long, in seconds, an operation waits for a free connection.
pub const ACQUIRE_TIMEOUT_SECS: u64 = 3;

#[verifier::external_type_specification]
#[verifier::external_body]
pub struct ExSqlxError(sqlx::Error);

/// Whether the driver error is the database rejecting a statement for a
/// duplicate value under a unique constraint.
pub uninterp spec fn unique_violation_of(e: sqlx::Error) -> bool;

/// Whether the driver error is the pool giving up waiting for a connection.
pub uninterp spec fn pool_timeout_of(e: sqlx::Error) -> bool;

/// Relies on `sqlx::Error::as_database_error` and
/// `DatabaseError::is_unique_violation`: whether the database rejected the
/// statement for a duplicate value under a unique constraint.
#[verifier::external_body]
fn reports_unique_violation(e: &sqlx::Error) -> (r: bool)
    ensures
        r == unique_violation_of(*e),
{
    match e.as_database_error() {
        Some(db_err) => db_err.is_unique_violation(),
        None => false,
    }
}

/// Relies on the variant `sqlx::Error::PoolTimedOut`: whether the pool gave
/// up waiting for a free connection.
#[verifier::external_body]
fn reports_pool_timeout(e: &sqlx::Error) -> (r: bool)
    ensures
        r == pool_timeout_of(*e),
{
    matches!(e, sqlx::Error::PoolTimedOut)
}

/// The fault that a driver error amounts to: `UniqueViolation` where the
/// database reported a duplicate under a unique constraint, else
/// `PoolTimedOut` where no connection became free in time, else `Other`.
pub fn classify_store_error(e: &sqlx::Error) -> (r: StoreFault)
    ensures
        r == fault_from_flags(unique_violation_of(*e), pool_timeout_of(*e)),
{
    let unique_violation = reports_unique_violation(e);
    let pool_timed_out = reports_pool_timeout(e);
    store_fault(unique_violation, pool_timed_out)
}

/// The outcome of the health probe: any failure means the store is
/// unavailable.
pub fn db_health_result(reply: Result<(), StoreFault>) -> (r: Result<(), ServiceError>)
    ensures
        r.is_ok() == reply.is_ok(),
        r.is_err() ==> r == Err::<(), ServiceError>(ServiceError::StoreUnavailable),
{
    match reply {
        Ok(()) => Ok(()),
        Err(_) => Err(ServiceError::StoreUnavailable),
    }
}

} // verus!
