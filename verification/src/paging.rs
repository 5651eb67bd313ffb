//! Paging and filtering of list requests.
use vstd::prelude::*;

verus! {

/// The page shown when a request names none.
pub const DEFAULT_PAGE: u64 = 1;

/// The page size used when a request names none.
pub const DEFAULT_PAGE_SIZE: u64 = 20;

/// A page of results.
#[derive(Debug)]
pub struct PagingResponse<T> {
    pub list: Vec<T>,
    /// The number of results over all pages.
    pub total: u64,
    /// The page shown (counted from 1).
    pub page: u64,
}

/// The page (counted from 1) and page size of a list request, with their
/// defaults.
pub fn page_request(page: Option<u64>, page_size: Option<u64>) -> (r: (u64, u64))
    ensures
        r.0 == match page {
            Some(p) => p,
            None => DEFAULT_PAGE,
        },
        r.1 == match page_size {
            Some(s) => s,
            None => DEFAULT_PAGE_SIZE,
        },
{
    let p = match page {
        Some(p) => p,
        None => DEFAULT_PAGE,
    };
    let s = match page_size {
        Some(s) => s,
        None => DEFAULT_PAGE_SIZE,
    };
    (p, s)
}

/// The index (counted from 0) of page `page` (counted from 1).
pub fn page_index(page: u64) -> (r: u64)
    requires
        page >= 1,
    ensures
        r == page - 1,
{
    page - 1
}

/// The text to filter a column by: only a text that is given and not empty
/// filters.
pub fn text_filter(value: Option<String>) -> (r: Option<String>)
    ensures
        match value {
            Some(v) => if v@.len() > 0 {
                r == Some(v)
            } else {
                r is None
            },
            None => r is None,
        },
{
    match value {
        Some(v) => if v.as_str().is_empty() {
            None
        } else {
            Some(v)
        },
        None => None,
    }
}

} // verus!
