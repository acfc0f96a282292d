//! Calculated field lists.

use vstd::prelude::*;
use crate::paging::{has_next_page, pages_for, page_summary, summary_fits};

verus! {

/// Default page size of the calculated field list.
pub fn default_page_size() -> (r: i64)
    ensures
        r == 10,
{
    10
}

/// Query of the calculated field list; `page_size` defaults to [`default_page_size`].
pub struct PageParams {
    pub page: i64,
    pub page_size: i64,
}

impl PageParams {
    pub fn defaults() -> (r: Self)
        ensures
            r.page == 0,
            r.page_size == 10,
    {
        PageParams { page: 0, page_size: default_page_size() }
    }
}

/// Total pages (none unless the size is positive) and whether a next page exists.
pub fn tenant_list_summary(p: &PageParams, total: i64) -> (r: (i64, bool))
    requires
        summary_fits(p.page as int, p.page_size as int, total as int),
    ensures
        r.0 == (if p.page_size > 0 { pages_for(total as int, p.page_size as int) } else { 0 }),
        r.1 == has_next_page(p.page as int, p.page_size as int, total as int),
{
    let (pages, next) = page_summary(p.page, p.page_size, total);
    if p.page_size > 0 { (pages, next) } else { (0, next) }
}

} // verus!
