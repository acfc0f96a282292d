//! Customers: answers, the list query and the save request.

use vstd::prelude::*;
use crate::error::ApiError;
use crate::ids::IdResponse;
use crate::paging::{page_link_or_default, PageLink};

verus! {

/// A stored customer.
pub struct Customer {
    pub id: u128,
    pub created_time: i64,
    pub tenant_id: u128,
    pub title: String,
    pub country: Option<String>,
    pub city: Option<String>,
    pub email: Option<String>,
    pub phone: Option<String>,
    pub is_public: bool,
    pub version: i64,
}

pub struct CustomerResponse {
    pub id: IdResponse,
    pub created_time: i64,
    pub tenant_id: IdResponse,
    pub title: String,
    pub country: Option<String>,
    pub city: Option<String>,
    pub email: Option<String>,
    pub phone: Option<String>,
    pub is_public: bool,
}

impl CustomerResponse {
    pub fn from_customer(c: Customer) -> (r: Self)
        ensures
            r.id.id == c.id && r.id.entity_type@ == "CUSTOMER"@,
            r.created_time == c.created_time,
            r.tenant_id.id == c.tenant_id && r.tenant_id.entity_type@ == "TENANT"@,
            r.title == c.title && r.country == c.country && r.city == c.city,
            r.email == c.email && r.phone == c.phone && r.is_public == c.is_public,
    {
        CustomerResponse {
            id: IdResponse::customer(c.id),
            created_time: c.created_time,
            tenant_id: IdResponse::tenant(c.tenant_id),
            title: c.title,
            country: c.country,
            city: c.city,
            email: c.email,
            phone: c.phone,
            is_public: c.is_public,
        }
    }
}

/// Query of the customer list: a system administrator may name the tenant.
pub struct ListParams {
    pub tenant_id: Option<u128>,
    pub page_size: Option<i64>,
    pub page: Option<i64>,
    pub text_search: Option<String>,
}

impl ListParams {
    /// The tenant listed: the query's, else the caller's.
    pub fn tenant(&self, caller_tenant: u128) -> (r: u128)
        ensures
            r == (match self.tenant_id { Some(t) => t, None => caller_tenant }),
    {
        match self.tenant_id { Some(t) => t, None => caller_tenant }
    }

    pub fn page_link(self) -> (r: PageLink)
        ensures
            r.page == (match self.page { Some(p) => p, None => 0 }),
            r.page_size == (match self.page_size { Some(s) => s, None => 10 }),
            r.text_search == self.text_search,
    {
        page_link_or_default(self.page, self.page_size, self.text_search)
    }
}

/// A customer save request.
pub struct SaveCustomerRequest {
    pub id: Option<IdResponse>,
    pub title: String,
    pub tenant_id: Option<IdResponse>,
    pub country: Option<String>,
    pub city: Option<String>,
    pub email: Option<String>,
    pub phone: Option<String>,
}

/// The customer a save request makes: the request must name its tenant; never public.
pub fn customer_from_request(req: SaveCustomerRequest, now: i64, fresh_id: u128) -> (r: Result<Customer, ApiError>)
    ensures
        req.tenant_id is None <==> r is Err,
        r matches Err(e) ==> (e matches ApiError::BadRequest(m) && m@ == "tenantId is required"@),
        r matches Ok(c) ==> {
            &&& c.id == (match req.id { Some(i) => i.id, None => fresh_id })
            &&& c.created_time == now
            &&& c.tenant_id == req.tenant_id->0.id
            &&& c.title == req.title && c.country == req.country && c.city == req.city
            &&& c.email == req.email && c.phone == req.phone
            &&& !c.is_public && c.version == 1
        },
{
    let tenant = match &req.tenant_id {
        Some(t) => t.id,
        None => {
            return Err(ApiError::BadRequest("tenantId is required".to_owned()));
        },
    };
    Ok(Customer {
        id: match req.id { Some(i) => i.id, None => fresh_id },
        created_time: now,
        tenant_id: tenant,
        title: req.title,
        country: req.country,
        city: req.city,
        email: req.email,
        phone: req.phone,
        is_public: false,
        version: 1,
    })
}

} // verus!
