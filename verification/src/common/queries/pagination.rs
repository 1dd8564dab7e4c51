//! The page requests of the queries that return many results.

use vstd::prelude::*;

verus! {

/// The number of items in a page, when the request does not say.
pub const DEFAULT_PAGE_SIZE: usize = 25;

/// A request for a page of results.
#[derive(Debug, PartialEq, Eq, Copy, Clone, Structural)]
pub struct PageRequest {
    /// The number of items to skip before starting to collect the result set
    pub offset: Option<usize>,
    /// The numbers of items to return
    pub limit: Option<usize>,
}

impl Default for PageRequest {
    /// The first page, of the default size.
    fn default() -> (p: Self)
        ensures
            p.offset == Some(0usize),
            p.limit == Some(DEFAULT_PAGE_SIZE),
    {
        PageRequest { offset: Some(0), limit: Some(DEFAULT_PAGE_SIZE) }
    }
}

} // verus!
