//! Paging of a request for the registered mappings.

use vstd::prelude::*;

verus! {

/// How many mappings to ask for, and from which offset.
pub struct MappingRequest {
    limit: i64,
    offset: i64,
}

impl MappingRequest {
    /// The number of mappings asked for.
    pub closed spec fn spec_limit(&self) -> i64 {
        self.limit
    }

    /// The offset of the first mapping asked for.
    pub closed spec fn spec_offset(&self) -> i64 {
        self.offset
    }

    /// A paging request for `limit` mappings from `offset` on.
    pub fn new(limit: i64, offset: i64) -> (r: Self)
        ensures
            r.spec_limit() == limit,
            r.spec_offset() == offset,
    {
        MappingRequest { limit, offset }
    }

    /// The number of mappings asked for.
    pub fn limit(&self) -> (l: i64)
        ensures
            l == self.spec_limit(),
    {
        self.limit
    }

    /// The offset of the first mapping asked for.
    pub fn offset(&self) -> (o: i64)
        ensures
            o == self.spec_offset(),
    {
        self.offset
    }
}

} // verus!
