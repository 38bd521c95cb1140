//! Paging through a user's upload history.
use vstd::prelude::*;

use crate::asset::StoredAsset;

verus! {

/// A one-based page of a given size.
#[derive(Clone, Copy, Debug, PartialEq, Eq, Structural)]
pub struct Pagination {
    pub page: u64,
    pub per_page: u64,
}

#[derive(Clone, Debug, PartialEq, Eq)]
pub struct ImageHistoryResponse {
    pub total: u64,
    pub total_pages: u64,
    pub has_next: bool,
    pub items: Vec<StoredAsset>,
}

/// The zero-based index of the requested page; `None` for page zero or an
/// empty page size, which name no page.
pub fn page_index(p: &Pagination) -> (r: Option<u64>)
    ensures
        r == if p.page == 0 || p.per_page == 0 {
            None
        } else {
            Some((p.page - 1) as u64)
        },
{
    if p.page == 0 || p.per_page == 0 {
        None
    } else {
        Some(p.page - 1)
    }
}

/// The response for a fetched page, out of `total_pages` pages holding
/// `total` assets; a later page exists when this one is not the last.
pub fn history_response(p: &Pagination, total: u64, total_pages: u64, items: Vec<StoredAsset>) -> (r:
    ImageHistoryResponse)
    ensures
        r.total == total,
        r.total_pages == total_pages,
        r.has_next == (p.page < total_pages),
        r.items == items,
{
    ImageHistoryResponse { total, total_pages, has_next: p.page < total_pages, items }
}

} // verus!
