//! Geofence lists, ownership and point checks.

use vstd::prelude::*;
use crate::error::ApiError;
use crate::paging::{has_next_page, pages_for, page_summary, summary_fits};

verus! {

/// Default page size of the geofence list.
pub fn default_page_size() -> (r: i64)
    ensures
        r == 20,
{
    20
}

/// Query of the geofence list.
pub struct ListParams {
    pub page_size: i64,
    pub page: i64,
}

/// The number of geofences a page holds: the requested size kept between 1 and 100.
pub open spec fn clamp_limit(page_size: i64) -> i64 {
    if page_size < 1 { 1 } else if page_size > 100 { 100 } else { page_size }
}

/// Limit and offset of a geofence page.
pub fn list_window(p: &ListParams) -> (r: (i64, i64))
    requires
        i64::MIN <= p.page * clamp_limit(p.page_size) <= i64::MAX,
    ensures
        r.0 == clamp_limit(p.page_size),
        r.1 == p.page * r.0,
{
    let limit = if p.page_size < 1 { 1 } else if p.page_size > 100 { 100 } else { p.page_size };
    (limit, p.page * limit)
}

/// Total pages and whether a next page exists, for a geofence page of `total` items.
pub fn list_summary(p: &ListParams, total: i64) -> (r: (i64, bool))
    requires
        summary_fits(p.page as int, clamp_limit(p.page_size) as int, total as int),
    ensures
        r.0 == pages_for(total as int, clamp_limit(p.page_size) as int),
        r.1 == has_next_page(p.page as int, clamp_limit(p.page_size) as int, total as int),
{
    let limit = if p.page_size < 1 { 1 } else if p.page_size > 100 { 100 } else { p.page_size };
    page_summary(p.page, limit, total)
}

/// A delete that removed nothing is a not-found answer.
pub fn delete_outcome(deleted: bool) -> (r: Result<(), ApiError>)
    ensures
        deleted <==> r is Ok,
        r matches Err(e) ==> (e matches ApiError::NotFound(m) && m@ == "Geofence not found"@),
{
    if deleted { Ok(()) } else { Err(ApiError::NotFound("Geofence not found".to_owned())) }
}

/// The answer of a point check: whether any geofence holds the point, and which.
pub struct CheckResponse {
    pub inside: bool,
    pub geofence_ids: Vec<u128>,
}

pub fn check_response(ids: Vec<u128>) -> (r: CheckResponse)
    ensures
        r.inside <==> ids@.len() > 0,
        r.geofence_ids@ == ids@,
{
    CheckResponse { inside: ids.len() > 0, geofence_ids: ids }
}

} // verus!
