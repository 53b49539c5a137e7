use crate::error::{error_for_fault, fault_error, ServiceError, StoreFault};
use crate::models::{pages_for, total_pages, Pagination, User, UserListResponse, UserView};
use vstd::prelude::*;

verus! {

/// The status of a successful create.
pub const CREATED: u16 = 201;

/// The status of a successful read, list or update.
pub const OK: u16 = 200;

/// The status of a successful delete.
pub const NO_CONTENT: u16 = 204;

/// A result over users, with each user seen as its view.
pub open spec fn user_result_view<E>(r: Result<User, E>) -> Result<UserView, E> {
    match r {
        Ok(u) => Ok(u@),
        Err(e) => Err(e),
    }
}

/// A store reply of at most one user, with the user seen as its view.
pub open spec fn found_reply_view(r: Result<Option<User>, StoreFault>) -> Result<Option<UserView>, StoreFault> {
    match r {
        Ok(Some(u)) => Ok(Some(u@)),
        Ok(None) => Ok(None),
        Err(f) => Err(f),
    }
}

/// The outcome of a create, from the row that the insert returned.
pub open spec fn created_outcome(reply: Result<UserView, StoreFault>) -> Result<UserView, ServiceError> {
    match reply {
        Ok(u) => Ok(u),
        Err(f) => Err(fault_error(f)),
    }
}

/// The outcome of a read or an update, from the row that the statement
/// returned, if any.
pub open spec fn found_outcome(reply: Result<Option<UserView>, StoreFault>) -> Result<UserView, ServiceError> {
    match reply {
        Ok(Some(u)) => Ok(u),
        Ok(None) => Err(ServiceError::NotFound),
        Err(f) => Err(fault_error(f)),
    }
}

/// The outcome of a delete, from the number of rows it removed.
pub open spec fn deleted_outcome(reply: Result<u64, StoreFault>) -> Result<(), ServiceError> {
    match reply {
        Ok(n) => if n == 0 {
            Err(ServiceError::NotFound)
        } else {
            Ok(())
        },
        Err(f) => Err(fault_error(f)),
    }
}

/// Turns what the insert reported into the outcome of a create: the stored
/// row, `Conflict` for a duplicate email, or the failure of the store.
pub fn create_user_result(reply: Result<User, StoreFault>) -> (r: Result<User, ServiceError>)
    ensures
        user_result_view(r) == created_outcome(user_result_view(reply)),
{
    match reply {
        Ok(u) => Ok(u),
        Err(f) => Err(error_for_fault(f)),
    }
}

/// Turns what the lookup reported into the outcome of a read: the row, or
/// `NotFound` where no row has the identifier.
pub fn get_user_result(reply: Result<Option<User>, StoreFault>) -> (r: Result<User, ServiceError>)
    ensures
        user_result_view(r) == found_outcome(found_reply_view(reply)),
{
    match reply {
        Ok(Some(u)) => Ok(u),
        Ok(None) => Err(ServiceError::NotFound),
        Err(f) => Err(error_for_fault(f)),
    }
}

/// Turns what the update reported into its outcome: the merged row,
/// `NotFound` where no row has the identifier, `Conflict` where another user
/// holds the new email.
pub fn update_user_result(reply: Result<Option<User>, StoreFault>) -> (r: Result<User, ServiceError>)
    ensures
        user_result_view(r) == found_outcome(found_reply_view(reply)),
{
    match reply {
        Ok(Some(u)) => Ok(u),
        Ok(None) => Err(ServiceError::NotFound),
        Err(f) => Err(error_for_fault(f)),
    }
}

/// Turns the number of rows that the delete removed into its outcome: none
/// removed means the identifier did not exist.
pub fn delete_user_result(reply: Result<u64, StoreFault>) -> (r: Result<(), ServiceError>)
    ensures
        r == deleted_outcome(reply),
{
    match reply {
        Ok(n) => if n == 0 {
            Err(ServiceError::NotFound)
        } else {
            Ok(())
        },
        Err(f) => Err(error_for_fault(f)),
    }
}

/// The rows that a page query asks for: at most `limit`, after `offset`.
#[derive(Clone, Copy, Debug)]
pub struct PageWindow {
    pub limit: i64,
    pub offset: i64,
}

/// The window of the requested page.
pub fn list_users_query(p: &Pagination) -> (r: PageWindow)
    ensures
        r.limit == p.per_page_spec(),
        r.offset == p.offset_spec(),
        r.limit >= 1,
        r.offset >= 0,
{
    PageWindow { limit: p.effective_per_page(), offset: p.offset() }
}

/// Turns what the count reported into the total; a negative count is not a
/// count and is a failure of the store.
pub fn count_users_result(reply: Result<i64, StoreFault>) -> (r: Result<i64, ServiceError>)
    ensures
        match reply {
            Ok(n) => if n >= 0 {
                r == Ok::<i64, ServiceError>(n)
            } else {
                r == Err::<i64, ServiceError>(ServiceError::StorageFailure)
            },
            Err(f) => r == Err::<i64, ServiceError>(fault_error(f)),
        },
{
    match reply {
        Ok(n) => if n >= 0 {
            Ok(n)
        } else {
            Err(ServiceError::StorageFailure)
        },
        Err(f) => Err(error_for_fault(f)),
    }
}

/// Assembles the listing from the total and the rows of the page: the page
/// and page size as served, and the number of pages that the total fills.
pub fn list_users_result(p: &Pagination, total: i64, rows: Result<Vec<User>, StoreFault>) -> (r:
    Result<UserListResponse, ServiceError>)
    requires
        total >= 0,
    ensures
        match rows {
            Ok(users) => r matches Ok(resp) && resp.users == users && resp.total == total
                && resp.page == p.page_spec() && resp.per_page == p.per_page_spec()
                && resp.total_pages == pages_for(total as int, p.per_page_spec() as int),
            Err(f) => r matches Err(e) && e == fault_error(f),
        },
{
    match rows {
        Ok(users) => {
            let per_page = p.effective_per_page();
            let pages = total_pages(total, per_page);
            Ok(
                UserListResponse {
                    users,
                    total,
                    page: p.effective_page(),
                    per_page,
                    total_pages: pages,
                },
            )
        },
        Err(f) => Err(error_for_fault(f)),
    }
}

} // verus!
