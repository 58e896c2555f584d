//! Shared request and response shapes for paged listings.

use vstd::prelude::*;

verus! {

/// Which window of a listing a caller asks for.
#[derive(Clone, Copy, Debug)]
pub struct PaginationParams {
    pub offset: u64,
    pub limit: u64,
}

impl Default for PaginationParams {
    /// The first page of ten.
    fn default() -> (r: Self)
        ensures
            r.offset == 0,
            r.limit == 10,
    {
        PaginationParams { offset: 0, limit: 10 }
    }
}

/// One window of a listing, with the total count behind it.
#[derive(Debug)]
pub struct PaginatedResponse<T> {
    pub data: Vec<T>,
    pub total: u64,
    pub offset: u64,
    pub limit: u64,
}

impl<T> PaginatedResponse<T> {
    /// Packs a window with its paging facts.
    pub fn new(data: Vec<T>, total: u64, offset: u64, limit: u64) -> (r: Self)
        ensures
            r.data == data,
            r.total == total,
            r.offset == offset,
            r.limit == limit,
    {
        PaginatedResponse { data, total, offset, limit }
    }
}

} // verus!
