//! The housekeeper's run list and trigger.

use vstd::prelude::*;
use crate::error::ApiError;
use crate::security::{require_sys_admin, SecurityContext};

verus! {

/// Default number of runs listed.
pub fn default_limit() -> (r: i64)
    ensures
        r == 50,
{
    50
}

/// Query of the run list; `limit` defaults to [`default_limit`].
pub struct ListRunsQuery {
    pub limit: i64,
}

impl ListRunsQuery {
    pub fn defaults() -> (r: Self)
        ensures
            r.limit == 50,
    {
        ListRunsQuery { limit: default_limit() }
    }
}

/// Listing runs and triggering a cycle are for system administrators only.
pub fn housekeeper_access(ctx: &SecurityContext) -> (r: Result<(), ApiError>)
    ensures
        ctx.sys_admin() <==> r is Ok,
        r matches Err(e) ==> (e matches ApiError::Forbidden(m) && m@ == "SYS_ADMIN authority required"@),
{
    require_sys_admin(ctx, "SYS_ADMIN authority required")
}

} // verus!
