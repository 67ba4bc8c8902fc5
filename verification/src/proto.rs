//! Protocol messages whose behaviour the services rely on.

use vstd::prelude::*;

verus! {

/// The pagination part of a list request.
pub struct PaginationIn {
    pub cursor: Option<String>,
    pub limit: i32,
}

/// The page size used when a request does not set one.
pub const DEFAULT_PAGE_SIZE: usize = 20;

impl PaginationIn {
    /// The page size: 20 when the request leaves the limit at zero, else the
    /// limit converted to `usize` (as `as` converts it).
    pub open spec fn spec_limit(&self) -> usize {
        if self.limit == 0 {
            20
        } else {
            self.limit as usize
        }
    }

    pub fn limit(&self) -> (n: usize)
        ensures
            n == self.spec_limit(),
    {
        if self.limit == 0 {
            DEFAULT_PAGE_SIZE
        } else {
            self.limit as usize
        }
    }

    /// The number of rows a paginated query asks for: one more than the
    /// page size, so that the presence of a next page can be told.
    pub fn paginated_query_limit(&self) -> (n: u64)
        requires
            self.spec_limit() < usize::MAX,
        ensures
            n == self.spec_limit() + 1,
    {
        (self.limit() + 1) as u64
    }
}

} // verus!
