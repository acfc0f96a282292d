//! Domains: ids, records, answers and the save request.

use vstd::prelude::*;
use crate::ai_model::opt_text;
use crate::common::{id_or_new, named_id, now_millis};
use crate::error::ApiError;
use crate::security::{require_admin, SecurityContext};

verus! {

/// Default page size of the domain list.
pub fn default_page_size() -> (r: i64)
    ensures
        r == 10,
{
    10
}

/// Query of the domain list; `page_size` defaults to [`default_page_size`].
pub struct PageParams {
    pub page: i64,
    pub page_size: i64,
}

impl PageParams {
    pub fn defaults() -> (r: Self)
        ensures
            r.page == 0,
            r.page_size == 10,
    {
        PageParams { page: 0, page_size: default_page_size() }
    }
}

/// The id of a domain, tagged `DOMAIN`.
pub struct DomainId {
    pub id: u128,
    pub entity_type: String,
}

impl DomainId {
    pub fn new(id: u128) -> (r: Self)
        ensures
            r.id == id,
            r.entity_type@ == "DOMAIN"@,
    {
        DomainId { id, entity_type: "DOMAIN".to_owned() }
    }
}

/// A stored domain.
pub struct DomainEntry {
    pub id: u128,
    pub created_time: i64,
    pub tenant_id: u128,
    pub name: String,
    pub oauth2_enabled: bool,
    pub propagate_to_edge: bool,
}

/// A domain as the API answers it.
pub struct DomainResponse {
    pub id: DomainId,
    pub created_time: i64,
    pub tenant_id: u128,
    pub name: String,
    pub oauth2_enabled: bool,
    pub propagate_to_edge: bool,
}

/// An OAuth2 client of a domain.
pub struct OAuth2ClientInfo {
    pub id: u128,
    pub name: String,
    pub provider_id: String,
}

impl DomainResponse {
    pub fn from_entry(d: DomainEntry) -> (r: Self)
        ensures
            r.id.id == d.id && r.id.entity_type@ == "DOMAIN"@,
            r.created_time == d.created_time,
            r.tenant_id == d.tenant_id,
            r.name == d.name,
            r.oauth2_enabled == d.oauth2_enabled,
            r.propagate_to_edge == d.propagate_to_edge,
    {
        DomainResponse {
            id: DomainId::new(d.id),
            created_time: d.created_time,
            tenant_id: d.tenant_id,
            name: d.name,
            oauth2_enabled: d.oauth2_enabled,
            propagate_to_edge: d.propagate_to_edge,
        }
    }
}

/// The fields a domain save request's JSON body carries.
pub struct DomainBody {
    pub id_text: Option<String>,
    pub name: Option<String>,
    pub oauth2_enabled: Option<bool>,
    pub propagate_to_edge: Option<bool>,
}

/// The domain a save request makes for the caller's tenant, with `id` and time `now`:
/// the name defaults to empty and the two flags to `false`.
pub fn domain_from_body(tenant_id: u128, body: DomainBody, id: u128, now: i64) -> (r: DomainEntry)
    ensures
        r.id == id,
        r.created_time == now,
        r.tenant_id == tenant_id,
        r.name@ == (match body.name { Some(n) => n@, None => Seq::<char>::empty() }),
        r.oauth2_enabled == (match body.oauth2_enabled { Some(b) => b, None => false }),
        r.propagate_to_edge == (match body.propagate_to_edge { Some(b) => b, None => false }),
{
    let name = match body.name {
        Some(n) => n,
        None => String::new(),
    };
    DomainEntry {
        id,
        created_time: now,
        tenant_id,
        name,
        oauth2_enabled: match body.oauth2_enabled { Some(b) => b, None => false },
        propagate_to_edge: match body.propagate_to_edge { Some(b) => b, None => false },
    }
}

/// A save request of a domain: administrators only; the id is the one the body
/// names when it parses as a UUID, else a fresh one.
pub fn save_domain(ctx: &SecurityContext, body: DomainBody) -> (r: Result<DomainEntry, ApiError>)
    ensures
        (ctx.sys_admin() || ctx.tenant_admin()) <==> r is Ok,
        r matches Err(e) ==> (e matches ApiError::Forbidden(m) && m@ == "Admin access required"@),
        r matches Ok(d) ==> {
            &&& (named_id(opt_text(body.id_text)) matches Some(u) ==> d.id == u)
            &&& d.tenant_id == ctx.tenant_id
            &&& d.name@ == (match body.name { Some(n) => n@, None => Seq::<char>::empty() })
            &&& d.oauth2_enabled == (match body.oauth2_enabled { Some(b) => b, None => false })
            &&& d.propagate_to_edge == (match body.propagate_to_edge { Some(b) => b, None => false })
        },
{
    require_admin(ctx, "Admin access required")?;
    let id = match &body.id_text {
        Some(t) => id_or_new(Some(t.as_str())),
        None => id_or_new(None),
    };
    let now = now_millis();
    Ok(domain_from_body(ctx.tenant_id, body, id, now))
}

} // verus!
