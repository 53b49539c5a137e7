use vstd::prelude::*;

verus! {

/// What the store reported when a statement failed.
#[derive(Clone, Copy, Debug, PartialEq, Eq, Structural)]
pub enum StoreFault {
    /// A unique constraint rejected the statement.
    UniqueViolation,
    /// No pooled connection became free within the acquire timeout.
    PoolTimedOut,
    /// Any other failure.
    Other,
}

/// The closed set of failures that the service reports.
#[derive(Clone, Copy, Debug, PartialEq, Eq, Structural)]
pub enum ServiceError {
    /// No user has the given identifier.
    NotFound,
    /// Another user already has the email.
    Conflict,
    /// No pooled connection could be acquired in time.
    PoolExhausted,
    /// The store did not answer the health probe.
    StoreUnavailable,
    /// Any other failure of the store; its detail is not exposed.
    StorageFailure,
}

/// The failure that a store fault surfaces as.
pub open spec fn fault_error(f: StoreFault) -> ServiceError {
    match f {
        StoreFault::UniqueViolation => ServiceError::Conflict,
        StoreFault::PoolTimedOut => ServiceError::PoolExhausted,
        StoreFault::Other => ServiceError::StorageFailure,
    }
}

/// The failure that a store fault surfaces as.
pub fn error_for_fault(f: StoreFault) -> (r: ServiceError)
    ensures
        r == fault_error(f),
{
    match f {
        StoreFault::UniqueViolation => ServiceError::Conflict,
        StoreFault::PoolTimedOut => ServiceError::PoolExhausted,
        StoreFault::Other => ServiceError::StorageFailure,
    }
}

/// The fault that the store's report amounts to: a unique violation comes
/// first, then an acquire timeout, and everything else is `Other`.
pub open spec fn fault_from_flags(unique_violation: bool, pool_timed_out: bool) -> StoreFault {
    if unique_violation {
        StoreFault::UniqueViolation
    } else if pool_timed_out {
        StoreFault::PoolTimedOut
    } else {
        StoreFault::Other
    }
}

/// The fault that the store's report amounts to.
pub fn store_fault(unique_violation: bool, pool_timed_out: bool) -> (r: StoreFault)
    ensures
        r == fault_from_flags(unique_violation, pool_timed_out),
{
    if unique_violation {
        StoreFault::UniqueViolation
    } else if pool_timed_out {
        StoreFault::PoolTimedOut
    } else {
        StoreFault::Other
    }
}

impl ServiceError {
    /// The protocol status of the failure.
    pub open spec fn status_spec(self) -> u16 {
        match self {
            ServiceError::NotFound => 404,
            ServiceError::Conflict => 409,
            ServiceError::PoolExhausted => 500,
            ServiceError::StoreUnavailable => 503,
            ServiceError::StorageFailure => 500,
        }
    }

    /// The short, stable text that names the failure to a caller.
    pub open spec fn message_spec(self) -> Seq<char> {
        match self {
            ServiceError::NotFound => "User not found"@,
            ServiceError::Conflict => "Email already exists"@,
            ServiceError::PoolExhausted => "Service temporarily unavailable"@,
            ServiceError::StoreUnavailable => "Database unavailable"@,
            ServiceError::StorageFailure => "Internal server error"@,
        }
    }

    pub fn status_code(&self) -> (r: u16)
        ensures
            r == self.status_spec(),
    {
        match self {
            ServiceError::NotFound => 404,
            ServiceError::Conflict => 409,
            ServiceError::PoolExhausted => 500,
            ServiceError::StoreUnavailable => 503,
            ServiceError::StorageFailure => 500,
        }
    }

    pub fn message(&self) -> (r: String)
        ensures
            r@ == self.message_spec(),
    {
        match self {
            ServiceError::NotFound => "User not found".to_owned(),
            ServiceError::Conflict => "Email already exists".to_owned(),
            ServiceError::PoolExhausted => "Service temporarily unavailable".to_owned(),
            ServiceError::StoreUnavailable => "Database unavailable".to_owned(),
            ServiceError::StorageFailure => "Internal server error".to_owned(),
        }
    }
}

/// The body sent with a failure status.
#[derive(Clone, Debug)]
pub struct ErrorResponse {
    pub error: String,
}

impl ErrorResponse {
    pub fn from_error(e: ServiceError) -> (r: ErrorResponse)
        ensures
            r.error@ == e.message_spec(),
    {
        ErrorResponse { error: e.message() }
    }
}

} // verus!
