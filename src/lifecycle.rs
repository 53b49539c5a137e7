//! What holds of the service over sequences of operations, on the model of
//! the users relation: each statement's effect on the relation composed with
//! the decision that turns its reply into an outcome.
use crate::error::ServiceError;
use crate::models::{Pagination, UserView};
use crate::relation::{
    count_rows, delete_row, email_taken, email_taken_by_other, insert_row, page_rows, select_row,
    update_row, well_formed, Relation,
};
use crate::user_handlers::{created_outcome, deleted_outcome, found_outcome};
use vstd::prelude::*;

verus! {

/// Two creates with the same email, one after the other: at most one of them
/// succeeds, and each that fails does so with `Conflict`.
pub proof fn lemma_same_email_creates_conflict(
    t: Relation,
    first_id: u128,
    first_name: Seq<char>,
    second_id: u128,
    second_name: Seq<char>,
    email: Seq<char>,
    first_now: i64,
    second_now: i64,
)
    ensures
        ({
            let (after_first, first_reply) = insert_row(t, first_id, first_name, email, first_now);
            let first = created_outcome(first_reply);
            let second = created_outcome(
                insert_row(after_first, second_id, second_name, email, second_now).1,
            );
            &&& !(first is Ok && second is Ok)
            &&& first is Err ==> first == Err::<UserView, ServiceError>(ServiceError::Conflict)
            &&& second is Err ==> second == Err::<UserView, ServiceError>(ServiceError::Conflict)
        }),
{
    let (after_first, first_reply) = insert_row(t, first_id, first_name, email, first_now);
    if first_reply is Ok {
        assert(after_first.contains_key(first_id) && after_first[first_id].email == email);
        assert(email_taken(after_first, email));
    }
}

/// A create that succeeds is followed by a read of its identifier that
/// returns the same user: the name and email given, and a creation time no
/// later than the modification time.
pub proof fn lemma_create_then_get(t: Relation, id: u128, name: Seq<char>, email: Seq<char>, now: i64)
    ensures
        ({
            let (after, reply) = insert_row(t, id, name, email, now);
            let created = created_outcome(reply);
            created matches Ok(u) ==> {
                &&& found_outcome(select_row(after, u.id)) == created
                &&& u.id == id
                &&& u.name == name
                &&& u.email == email
                &&& u.created_at <= u.updated_at
            }
        }),
{
}

/// An update that gives only a name leaves the email and the creation time
/// as stored, and it succeeds whenever the user exists.
pub proof fn lemma_update_name_keeps_email(t: Relation, id: u128, name: Seq<char>, now: i64)
    requires
        well_formed(t),
    ensures
        ({
            let updated = found_outcome(update_row(t, id, Some(name), None, now).1);
            &&& t.contains_key(id) ==> updated == Ok::<UserView, ServiceError>(
                UserView { name, updated_at: now, ..t[id] },
            )
            &&& !t.contains_key(id) ==> updated == Err::<UserView, ServiceError>(
                ServiceError::NotFound,
            )
        }),
{
    if t.contains_key(id) {
        assert(!email_taken_by_other(t, t[id].email, id));
    }
}

/// An update that gives no field changes the modification time of the row
/// and nothing else; where the store's clock has not gone back since the row
/// was last modified, that time does not decrease.
pub proof fn lemma_empty_update_only_touches_modified(t: Relation, id: u128, now: i64)
    requires
        well_formed(t),
        t.contains_key(id),
    ensures
        ({
            let (after, reply) = update_row(t, id, None, None, now);
            let touched = UserView { updated_at: now, ..t[id] };
            &&& found_outcome(reply) == Ok::<UserView, ServiceError>(touched)
            &&& after == t.insert(id, touched)
            &&& now >= t[id].updated_at ==> touched.updated_at >= t[id].updated_at
        }),
{
    assert(!email_taken_by_other(t, t[id].email, id));
}

/// After a delete, a read of the identifier finds nothing, and a second
/// delete of it reports `NotFound`; the first succeeds exactly when the user
/// existed.
pub proof fn lemma_delete_is_final(t: Relation, id: u128)
    ensures
        ({
            let (after, reply) = delete_row(t, id);
            &&& found_outcome(select_row(after, id)) == Err::<UserView, ServiceError>(
                ServiceError::NotFound,
            )
            &&& deleted_outcome(delete_row(after, id).1) == Err::<(), ServiceError>(
                ServiceError::NotFound,
            )
            &&& deleted_outcome(reply) is Ok <==> t.contains_key(id)
        }),
{
}

/// A create keeps the relation's constraints: no two users share an email.
pub proof fn lemma_insert_keeps_well_formed(
    t: Relation,
    id: u128,
    name: Seq<char>,
    email: Seq<char>,
    now: i64,
)
    requires
        well_formed(t),
    ensures
        well_formed(insert_row(t, id, name, email, now).0),
{
    let after = insert_row(t, id, name, email, now).0;
    if !t.contains_key(id) && !email_taken(t, email) {
        assert forall|j: u128, k: u128|
            after.contains_key(j) && after.contains_key(k) && j != k implies #[trigger] after[j].email
            != #[trigger] after[k].email by {
            if j == id {
                assert(t.contains_key(k));
            } else if k == id {
                assert(t.contains_key(j));
            }
        }
    }
}

/// An update keeps the relation's constraints: no two users share an email.
pub proof fn lemma_update_keeps_well_formed(
    t: Relation,
    id: u128,
    name: Option<Seq<char>>,
    email: Option<Seq<char>>,
    now: i64,
)
    requires
        well_formed(t),
    ensures
        well_formed(update_row(t, id, name, email, now).0),
{
    let (after, reply) = update_row(t, id, name, email, now);
    if t.contains_key(id) && reply is Ok {
        let row = after[id];
        assert(!email_taken_by_other(t, row.email, id));
        assert forall|j: u128, k: u128|
            after.contains_key(j) && after.contains_key(k) && j != k implies #[trigger] after[j].email
            != #[trigger] after[k].email by {
            if j == id {
                assert(t.contains_key(k) && k != id);
            } else if k == id {
                assert(t.contains_key(j) && j != id);
            }
        }
    }
}

/// A delete keeps the relation's constraints.
pub proof fn lemma_delete_keeps_well_formed(t: Relation, id: u128)
    requires
        well_formed(t),
    ensures
        well_formed(delete_row(t, id).0),
{
}

/// A page that starts at or past the last row holds no rows, and no page
/// holds more rows than the page size.
pub proof fn lemma_page_bounds(t: Relation, p: Pagination, rows: Seq<UserView>)
    requires
        well_formed(t),
        page_rows(t, p.per_page_spec(), p.offset_spec(), rows),
    ensures
        rows.len() <= p.per_page_spec(),
        p.offset_spec() >= count_rows(t) ==> rows.len() == 0,
{
}

} // verus!
