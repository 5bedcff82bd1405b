//! The shared pagination envelope: the request parameters every listing
//! query may carry and the response block every listing response carries.

use vstd::prelude::*;

verus! {

/// Inbound pagination parameters of a listing query. An absent instance
/// means "use the defaults"; this layer passes the parameters through to
/// whatever computes the page, it does not page itself.
pub struct PaginationQueryParams {
    /// Continuation key of the page to resume from.
    pub key: Option<String>,
    /// Number of records to skip.
    pub offset: Option<u64>,
    /// Maximum number of records to return.
    pub limit: Option<u64>,
}

/// The pagination block of a listing response.
pub struct PaginationInfo {
    /// Continuation key for the next page, absent on the last page.
    pub next_key: Option<String>,
    /// Total number of records across all pages.
    pub total: u64,
}

/// The default pagination block: no continuation key and a zero total.
pub open spec fn spec_pagination_default(p: PaginationInfo) -> bool {
    p.next_key is None && p.total == 0
}

impl Default for PaginationInfo {
    /// The default pagination block.
    fn default() -> (r: Self)
        ensures
            spec_pagination_default(r),
    {
        PaginationInfo { next_key: None, total: 0 }
    }
}

} // verus!
