use crate::error::StoreFault;
use crate::models::UserView;
use vstd::prelude::*;

verus! {

/// Inserts a user; the store assigns the identifier and both timestamps.
pub const INSERT_USER_SQL: &'static str = "INSERT INTO users (name, email) VALUES ($1, $2) RETURNING id, name, email, created_at, updated_at";

/// Reads one user by identifier.
pub const SELECT_USER_SQL: &'static str = "SELECT id, name, email, created_at, updated_at FROM users WHERE id = $1";

/// Counts all users.
pub const COUNT_USERS_SQL: &'static str = "SELECT COUNT(*) FROM users";

/// Reads one page of users, newest first.
pub const SELECT_PAGE_SQL: &'static str = "SELECT id, name, email, created_at, updated_at FROM users ORDER BY created_at DESC LIMIT $1 OFFSET $2";

/// Overwrites the fields that are given and refreshes the modification time.
pub const UPDATE_USER_SQL: &'static str = "UPDATE users SET name = COALESCE($1, name), email = COALESCE($2, email), updated_at = NOW() WHERE id = $3 RETURNING id, name, email, created_at, updated_at";

/// Removes one user by identifier.
pub const DELETE_USER_SQL: &'static str = "DELETE FROM users WHERE id = $1";

/// Checks that the store answers.
pub const PING_SQL: &'static str = "SELECT 1";

/// The users relation, keyed by identifier.
pub type Relation = Map<u128, UserView>;

/// Whether some row of `t` has the email.
pub open spec fn email_taken(t: Relation, email: Seq<char>) -> bool {
    exists|k: u128| #[trigger] t.contains_key(k) && t[k].email == email
}

/// Whether some row of `t` other than `id` has the email.
pub open spec fn email_taken_by_other(t: Relation, email: Seq<char>, id: u128) -> bool {
    exists|k: u128| #[trigger] t.contains_key(k) && k != id && t[k].email == email
}

/// The relation's constraints: finitely many rows, each stored under its own
/// identifier, and no two rows with the same email.
pub open spec fn well_formed(t: Relation) -> bool {
    &&& t.dom().finite()
    &&& forall|k: u128| #[trigger] t.contains_key(k) ==> t[k].id == k
    &&& forall|j: u128, k: u128|
        #![trigger t[j], t[k]]
        t.contains_key(j) && t.contains_key(k) && j != k ==> t[j].email != t[k].email
}

/// `INSERT_USER_SQL` with the identifier `id` drawn by the store and its clock
/// at `now`: the relation after it, and the row it returns. A duplicate
/// identifier or email violates a unique constraint and changes nothing.
pub open spec fn insert_row(t: Relation, id: u128, name: Seq<char>, email: Seq<char>, now: i64) -> (
    Relation,
    Result<UserView, StoreFault>,
) {
    if t.contains_key(id) || email_taken(t, email) {
        (t, Err(StoreFault::UniqueViolation))
    } else {
        let row = UserView { id, name, email, created_at: now, updated_at: now };
        (t.insert(id, row), Ok(row))
    }
}

/// `SELECT_USER_SQL`: the row with the identifier, if there is one.
pub open spec fn select_row(t: Relation, id: u128) -> Result<Option<UserView>, StoreFault> {
    if t.contains_key(id) {
        Ok(Some(t[id]))
    } else {
        Ok(None)
    }
}

/// The given value where there is one, else the stored one.
pub open spec fn coalesce(given: Option<Seq<char>>, stored: Seq<char>) -> Seq<char> {
    match given {
        Some(v) => v,
        None => stored,
    }
}

/// `UPDATE_USER_SQL` with the store's clock at `now`: the relation after it,
/// and the row it returns, if the identifier matched one. An email held by
/// another row violates the unique constraint and changes nothing.
pub open spec fn update_row(
    t: Relation,
    id: u128,
    name: Option<Seq<char>>,
    email: Option<Seq<char>>,
    now: i64,
) -> (Relation, Result<Option<UserView>, StoreFault>) {
    if !t.contains_key(id) {
        (t, Ok(None))
    } else {
        let stored = t[id];
        let row = UserView {
            name: coalesce(name, stored.name),
            email: coalesce(email, stored.email),
            updated_at: now,
            ..stored
        };
        if email_taken_by_other(t, row.email, id) {
            (t, Err(StoreFault::UniqueViolation))
        } else {
            (t.insert(id, row), Ok(Some(row)))
        }
    }
}

/// `DELETE_USER_SQL`: the relation after it, and how many rows it removed.
pub open spec fn delete_row(t: Relation, id: u128) -> (Relation, Result<u64, StoreFault>) {
    (t.remove(id), Ok(if t.contains_key(id) { 1 } else { 0 }))
}

/// `COUNT_USERS_SQL`: how many rows there are.
pub open spec fn count_rows(t: Relation) -> int {
    t.dom().len() as int
}

/// Whether `all` lists every row of `t` once, newest first. Rows created at
/// the same instant may come in any order.
pub open spec fn newest_first(t: Relation, all: Seq<UserView>) -> bool {
    &&& all.len() == t.dom().len()
    &&& forall|i: int| 0 <= i < all.len() ==> t.contains_key(#[trigger] all[i].id) && t[all[i].id] == all[i]
    &&& forall|i: int, j: int|
        #![trigger all[i], all[j]]
        0 <= i < j < all.len() ==> all[i].id != all[j].id && all[i].created_at >= all[j].created_at
}

/// Whether `rows` can be what `SELECT_PAGE_SQL` returns: at most `limit`
/// rows of the newest-first listing, after skipping `offset` of them.
pub open spec fn page_rows(t: Relation, limit: i64, offset: i64, rows: Seq<UserView>) -> bool {
    exists|all: Seq<UserView>|
        #![trigger newest_first(t, all)]
        newest_first(t, all) && rows == all.subrange(
            vstd::math::min(offset as int, all.len() as int),
            vstd::math::min(offset + limit, all.len() as int),
        )
}

} // verus!
