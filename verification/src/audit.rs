//! Audit log queries.

use vstd::prelude::*;
use crate::error::ApiError;
use crate::paging::PageLink;
use crate::security::{require_admin, SecurityContext};

verus! {

/// Default page size of the audit log lists.
pub fn default_page_size() -> (r: i64)
    ensures
        r == 20,
{
    20
}

/// Query of the audit log lists; `page_size` defaults to [`default_page_size`].
pub struct AuditPageParams {
    pub page: i64,
    pub page_size: i64,
}

impl AuditPageParams {
    pub fn defaults() -> (r: Self)
        ensures
            r.page == 0,
            r.page_size == 20,
    {
        AuditPageParams { page: 0, page_size: default_page_size() }
    }
}

/// Which audit logs a query reads.
pub enum AuditScope {
    Tenant(u128),
    User { tenant_id: u128, user_id: u128 },
    Entity { entity_type: String, entity_id: u128 },
}

/// The audit log filter of the `customer` query: the customer's own entity logs.
pub fn customer_scope(customer_id: u128) -> (r: AuditScope)
    ensures
        r matches AuditScope::Entity { entity_type, entity_id } && entity_type@ == "CUSTOMER"@ && entity_id == customer_id,
{
    AuditScope::Entity { entity_type: "CUSTOMER".to_owned(), entity_id: customer_id }
}

/// An audit log query: administrators only; the page request of the query.
pub fn audit_query(ctx: &SecurityContext, p: AuditPageParams) -> (r: Result<PageLink, ApiError>)
    ensures
        (ctx.sys_admin() || ctx.tenant_admin()) <==> r is Ok,
        r matches Err(e) ==> (e matches ApiError::Forbidden(m) && m@ == "Admin access required"@),
        r matches Ok(l) ==> l.page == p.page && l.page_size == p.page_size && l.text_search is None,
{
    require_admin(ctx, "Admin access required")?;
    Ok(PageLink::new(p.page, p.page_size))
}

} // verus!
