use vstd::arithmetic::div_mod::{lemma_fundamental_div_mod, lemma_fundamental_div_mod_converse};
use vstd::prelude::*;

verus! {

/// A stored user. The identifier is the 128-bit value of the store's UUID;
/// both timestamps count microseconds since the Unix epoch.
#[derive(Clone, Debug, PartialEq, Eq)]
pub struct User {
    pub id: u128,
    pub name: String,
    pub email: String,
    pub created_at: i64,
    pub updated_at: i64,
}

/// What a `User` holds, as mathematical values.
pub ghost struct UserView {
    pub id: u128,
    pub name: Seq<char>,
    pub email: Seq<char>,
    pub created_at: i64,
    pub updated_at: i64,
}

impl View for User {
    type V = UserView;

    open spec fn view(&self) -> UserView {
        UserView {
            id: self.id,
            name: self.name@,
            email: self.email@,
            created_at: self.created_at,
            updated_at: self.updated_at,
        }
    }
}

/// The body of a create request: both fields are required.
#[derive(Clone, Debug)]
pub struct CreateUserRequest {
    pub name: String,
    pub email: String,
}

/// The body of an update request: a field left out keeps its stored value.
#[derive(Clone, Debug)]
pub struct UpdateUserRequest {
    pub name: Option<String>,
    pub email: Option<String>,
}

/// One page of users, with the count over all users and the page arithmetic.
#[derive(Clone, Debug)]
pub struct UserListResponse {
    pub users: Vec<User>,
    pub total: i64,
    pub page: i64,
    pub per_page: i64,
    pub total_pages: i64,
}

/// Page number (counted from 1) and page size, as the client sent them.
///
/// Neither is bounded on input. A page below 1 is read as page 1 and a page
/// size below 1 as a size of 1; there is no upper bound on either.
#[derive(Clone, Copy, Debug)]
pub struct Pagination {
    pub page: i64,
    pub per_page: i64,
}

/// `x`, raised to 1 where it is below 1.
pub open spec fn at_least_one(x: i64) -> i64 {
    if x < 1 {
        1
    } else {
        x
    }
}

/// The number of pages of `per_page` rows that `total` rows fill: the
/// quotient rounded up.
pub open spec fn pages_for(total: int, per_page: int) -> int {
    (total + per_page - 1) / per_page
}

impl Pagination {
    /// The page that is served.
    pub open spec fn page_spec(&self) -> i64 {
        at_least_one(self.page)
    }

    /// The page size that is served.
    pub open spec fn per_page_spec(&self) -> i64 {
        at_least_one(self.per_page)
    }

    /// How many rows precede the page: `(page - 1) * per_page`, held at
    /// `i64::MAX` where the product is larger.
    pub open spec fn offset_spec(&self) -> i64 {
        let o = (self.page_spec() - 1) * self.per_page_spec();
        if o > i64::MAX {
            i64::MAX
        } else {
            o as i64
        }
    }

    pub fn effective_page(&self) -> (r: i64)
        ensures
            r == self.page_spec(),
    {
        if self.page < 1 {
            1
        } else {
            self.page
        }
    }

    pub fn effective_per_page(&self) -> (r: i64)
        ensures
            r == self.per_page_spec(),
            r >= 1,
    {
        if self.per_page < 1 {
            1
        } else {
            self.per_page
        }
    }

    pub fn offset(&self) -> (r: i64)
        ensures
            r == self.offset_spec(),
            r >= 0,
    {
        let skipped = self.effective_page() - 1;
        let size = self.effective_per_page();
        let bound = i64::MAX / size;
        if skipped > bound {
            proof {
                assert(skipped >= bound + 1);
                assert((bound + 1) * size > i64::MAX) by (nonlinear_arith)
                    requires
                        bound == i64::MAX / size,
                        size >= 1,
                ;
                assert(skipped * size >= (bound + 1) * size) by (nonlinear_arith)
                    requires
                        skipped >= bound + 1,
                        size >= 1,
                ;
            }
            i64::MAX
        } else {
            proof {
                assert(skipped * size <= bound * size) by (nonlinear_arith)
                    requires
                        0 <= skipped <= bound,
                        size >= 1,
                ;
                assert(bound * size <= i64::MAX) by (nonlinear_arith)
                    requires
                        bound == i64::MAX / size,
                        size >= 1,
                ;
                assert(skipped * size >= 0) by (nonlinear_arith)
                    requires
                        skipped >= 0,
                        size >= 1,
                ;
            }
            skipped * size
        }
    }
}

/// The number of pages of `per_page` rows that `total` rows fill.
pub fn total_pages(total: i64, per_page: i64) -> (r: i64)
    requires
        total >= 0,
        per_page >= 1,
    ensures
        r == pages_for(total as int, per_page as int),
{
    let whole = total / per_page;
    let rest = total % per_page;
    proof {
        lemma_fundamental_div_mod(total as int, per_page as int);
        if rest == 0 {
            lemma_fundamental_div_mod_converse(
                total + per_page - 1,
                per_page as int,
                whole as int,
                per_page - 1,
            );
        } else {
            assert(total + per_page - 1 == (whole + 1) * per_page + (rest - 1)) by (nonlinear_arith)
                requires
                    total == per_page * whole + rest,
            ;
            assert(whole < i64::MAX) by (nonlinear_arith)
                requires
                    total == per_page * whole + rest,
                    rest > 0,
                    per_page >= 1,
                    whole >= 0,
                    total <= i64::MAX,
            ;
            lemma_fundamental_div_mod_converse(
                total + per_page - 1,
                per_page as int,
                whole + 1,
                rest - 1,
            );
        }
    }
    if rest == 0 {
        whole
    } else {
        whole + 1
    }
}

/// The page number used when the client gives none.
pub fn default_page() -> (r: i64)
    ensures
        r == 1,
{
    1
}

/// The page size used when the client gives none.
pub fn default_per_page() -> (r: i64)
    ensures
        r == 10,
{
    10
}

} // verus!
