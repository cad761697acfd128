//! The filter and page of a listing of users.
use vstd::prelude::*;

verus! {

/// Whether a listing shows active users where the query does not say.
pub const DEFAULT_ACTIVE: bool = true;
/// The page shown where the query does not say.
pub const DEFAULT_PAGE: i64 = 1;
/// The number of users on a page where the query does not say.
pub const DEFAULT_PAGE_SIZE: i64 = 10;

/// Which users a listing shows, and which page of them.
#[derive(Clone, Debug)]
pub struct UserQuery {
    pub tenant_id: Option<i32>,
    pub email: Option<String>,
    pub active: bool,
    pub page: i64,
    pub page_size: i64,
}

impl UserQuery {
    /// The number of users that come before the page: `page_size * (page - 1)`, for
    /// queries where that fits an `i64`.
    pub fn offset(&self) -> (o: i64)
        requires
            i64::MIN <= self.page_size * (self.page - 1) <= i64::MAX,
            self.page > i64::MIN,
        ensures
            o == self.page_size * (self.page - 1),
    {
        self.page_size * (self.page - 1)
    }
}

} // verus!
