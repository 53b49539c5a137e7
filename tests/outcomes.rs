use rust_api_crud::db::{classify_store_error, db_health_result};
use rust_api_crud::error::{error_for_fault, store_fault, ErrorResponse, ServiceError, StoreFault};
use rust_api_crud::models::User;
use rust_api_crud::user_handlers::{
    create_user_result, delete_user_result, get_user_result, update_user_result,
};
use std::borrow::Cow;

fn alice() -> User {
    User {
        id: 7,
        name: "Alice".to_string(),
        email: "alice@example.com".to_string(),
        created_at: 1_700_000_000_000_000,
        updated_at: 1_700_000_000_000_000,
    }
}

#[derive(Debug)]
struct DuplicateKey;

impl std::fmt::Display for DuplicateKey {
    fn fmt(&self, f: &mut std::fmt::Formatter<'_>) -> std::fmt::Result {
        f.write_str("duplicate key value violates unique constraint")
    }
}

impl std::error::Error for DuplicateKey {}

impl sqlx::error::DatabaseError for DuplicateKey {
    fn message(&self) -> &str {
        "duplicate key value violates unique constraint"
    }

    fn code(&self) -> Option<Cow<'_, str>> {
        Some(Cow::Borrowed("23505"))
    }

    fn as_error(&self) -> &(dyn std::error::Error + Send + Sync + 'static) {
        self
    }

    fn as_error_mut(&mut self) -> &mut (dyn std::error::Error + Send + Sync + 'static) {
        self
    }

    fn into_error(self: Box<Self>) -> Box<dyn std::error::Error + Send + Sync + 'static> {
        self
    }

    fn kind(&self) -> sqlx::error::ErrorKind {
        sqlx::error::ErrorKind::UniqueViolation
    }
}

#[test]
fn faults_map_to_the_taxonomy() {
    assert_eq!(error_for_fault(StoreFault::UniqueViolation), ServiceError::Conflict);
    assert_eq!(error_for_fault(StoreFault::PoolTimedOut), ServiceError::PoolExhausted);
    assert_eq!(error_for_fault(StoreFault::Other), ServiceError::StorageFailure);
}

#[test]
fn unique_violation_wins_over_timeout() {
    assert_eq!(store_fault(true, true), StoreFault::UniqueViolation);
    assert_eq!(store_fault(true, false), StoreFault::UniqueViolation);
    assert_eq!(store_fault(false, true), StoreFault::PoolTimedOut);
    assert_eq!(store_fault(false, false), StoreFault::Other);
}

#[test]
fn driver_errors_are_classified() {
    let dup = sqlx::Error::Database(Box::new(DuplicateKey));
    assert_eq!(classify_store_error(&dup), StoreFault::UniqueViolation);
    assert_eq!(classify_store_error(&sqlx::Error::PoolTimedOut), StoreFault::PoolTimedOut);
    assert_eq!(classify_store_error(&sqlx::Error::RowNotFound), StoreFault::Other);
    assert_eq!(classify_store_error(&sqlx::Error::PoolClosed), StoreFault::Other);
}

#[test]
fn statuses_follow_the_error_kind() {
    assert_eq!(ServiceError::NotFound.status_code(), 404);
    assert_eq!(ServiceError::Conflict.status_code(), 409);
    assert_eq!(ServiceError::PoolExhausted.status_code(), 500);
    assert_eq!(ServiceError::StoreUnavailable.status_code(), 503);
    assert_eq!(ServiceError::StorageFailure.status_code(), 500);
}

#[test]
fn error_bodies_carry_stable_text() {
    assert_eq!(ErrorResponse::from_error(ServiceError::NotFound).error, "User not found");
    assert_eq!(ErrorResponse::from_error(ServiceError::Conflict).error, "Email already exists");
    assert_eq!(ServiceError::StoreUnavailable.message(), "Database unavailable");
    assert_eq!(ServiceError::StorageFailure.message(), "Internal server error");
    assert_eq!(ServiceError::PoolExhausted.message(), "Service temporarily unavailable");
}

#[test]
fn create_returns_the_stored_row_or_conflict() {
    assert_eq!(create_user_result(Ok(alice())), Ok(alice()));
    assert_eq!(
        create_user_result(Err(StoreFault::UniqueViolation)),
        Err(ServiceError::Conflict)
    );
    assert_eq!(create_user_result(Err(StoreFault::Other)), Err(ServiceError::StorageFailure));
}

#[test]
fn missing_row_is_not_found() {
    assert_eq!(get_user_result(Ok(Some(alice()))), Ok(alice()));
    assert_eq!(get_user_result(Ok(None)), Err(ServiceError::NotFound));
    assert_eq!(get_user_result(Err(StoreFault::PoolTimedOut)), Err(ServiceError::PoolExhausted));
    assert_eq!(update_user_result(Ok(None)), Err(ServiceError::NotFound));
    assert_eq!(
        update_user_result(Err(StoreFault::UniqueViolation)),
        Err(ServiceError::Conflict)
    );
    assert_eq!(update_user_result(Ok(Some(alice()))), Ok(alice()));
}

#[test]
fn delete_goes_by_rows_removed() {
    assert_eq!(delete_user_result(Ok(1)), Ok(()));
    assert_eq!(delete_user_result(Ok(0)), Err(ServiceError::NotFound));
    assert_eq!(delete_user_result(Err(StoreFault::Other)), Err(ServiceError::StorageFailure));
}

#[test]
fn health_failure_is_unavailable() {
    assert_eq!(db_health_result(Ok(())), Ok(()));
    assert_eq!(db_health_result(Err(StoreFault::Other)), Err(ServiceError::StoreUnavailable));
    assert_eq!(
        db_health_result(Err(StoreFault::PoolTimedOut)),
        Err(ServiceError::StoreUnavailable)
    );
}
