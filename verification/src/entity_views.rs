//! Entity views: records and answers, the save request, customer assignment and
//! the view lists.

use vstd::prelude::*;
use crate::error::ApiError;
use crate::ids::IdResponse;
use crate::paging::{page_link_or_default, PageLink};

verus! {

/// A stored entity view.
pub struct EntityView {
    pub id: u128,
    pub created_time: i64,
    pub tenant_id: u128,
    pub customer_id: Option<u128>,
    pub entity_id: u128,
    pub entity_type: String,
    pub name: String,
    pub entity_view_type: String,
    pub keys: Option<serde_json::Value>,
    pub start_ts: i64,
    pub end_ts: i64,
    pub additional_info: Option<serde_json::Value>,
    pub version: i64,
}

pub struct EntityViewResponse {
    pub id: IdResponse,
    pub created_time: i64,
    pub tenant_id: IdResponse,
    pub customer_id: Option<IdResponse>,
    pub entity_id: IdResponse,
    pub name: String,
    pub ev_type: String,
    pub keys: Option<serde_json::Value>,
    pub start_time_ms: i64,
    pub end_time_ms: i64,
    pub additional_info: Option<serde_json::Value>,
}

impl EntityViewResponse {
    pub fn from_view(ev: EntityView) -> (r: Self)
        ensures
            r.id.id == ev.id && r.id.entity_type@ == "ENTITY_VIEW"@,
            r.created_time == ev.created_time,
            r.tenant_id.id == ev.tenant_id && r.tenant_id.entity_type@ == "TENANT"@,
            r.customer_id is None <==> ev.customer_id is None,
            r.customer_id matches Some(c) ==> ev.customer_id == Some(c.id) && c.entity_type@ == "CUSTOMER"@,
            r.entity_id.id == ev.entity_id && r.entity_id.entity_type == ev.entity_type,
            r.name == ev.name && r.ev_type == ev.entity_view_type && r.keys == ev.keys,
            r.start_time_ms == ev.start_ts && r.end_time_ms == ev.end_ts,
            r.additional_info == ev.additional_info,
    {
        let customer = match ev.customer_id {
            Some(c) => Some(IdResponse::customer(c)),
            None => None,
        };
        EntityViewResponse {
            id: IdResponse::new(ev.id, "ENTITY_VIEW"),
            created_time: ev.created_time,
            tenant_id: IdResponse::tenant(ev.tenant_id),
            customer_id: customer,
            entity_id: IdResponse::with_type(ev.entity_id, ev.entity_type),
            name: ev.name,
            ev_type: ev.entity_view_type,
            keys: ev.keys,
            start_time_ms: ev.start_ts,
            end_time_ms: ev.end_ts,
            additional_info: ev.additional_info,
        }
    }
}

/// A view with its customer's title and whether that customer is public.
pub struct EntityViewInfoResponse {
    pub entity_view: EntityViewResponse,
    pub customer_title: Option<String>,
    pub customer_is_public: bool,
}

/// The info form of a view: with its customer's title and public flag when the view
/// has a customer that exists, none and `false` otherwise.
pub fn view_info(ev: EntityView, customer: Option<(String, bool)>) -> (r: EntityViewInfoResponse)
    ensures
        r.entity_view.id.id == ev.id,
        ev.customer_id is Some ==> (customer matches Some((t, p)) ==> r.customer_title == Some(t) && r.customer_is_public == p),
        (ev.customer_id is None || customer is None) ==> r.customer_title is None && !r.customer_is_public,
{
    let has_customer = ev.customer_id.is_some();
    let (title, public) = if has_customer {
        match customer {
            Some((t, p)) => (Some(t), p),
            None => (None, false),
        }
    } else {
        (None, false)
    };
    EntityViewInfoResponse { entity_view: EntityViewResponse::from_view(ev), customer_title: title, customer_is_public: public }
}

/// A subtype of an entity type, as the type lists answer it.
pub struct EntitySubtypeResponse {
    pub entity_type: String,
    pub subtype: String,
}

pub fn view_subtypes(types: Vec<String>) -> (r: Vec<EntitySubtypeResponse>)
    ensures
        r@.len() == types@.len(),
        forall|i: int| 0 <= i < r@.len() ==> (#[trigger] r@[i]).entity_type@ == "ENTITY_VIEW"@ && r@[i].subtype == types@[i],
{
    let mut out: Vec<EntitySubtypeResponse> = Vec::new();
    let mut i: usize = 0;
    while i < types.len()
        invariant
            i <= types@.len(),
            out@.len() == i,
            forall|k: int| 0 <= k < i ==> (#[trigger] out@[k]).entity_type@ == "ENTITY_VIEW"@ && out@[k].subtype == types@[k],
        decreases types@.len() - i,
    {
        out.push(EntitySubtypeResponse { entity_type: "ENTITY_VIEW".to_owned(), subtype: types[i].clone() });
        i = i + 1;
    }
    out
}

/// Query of the view lists: page, size, text filter and type filter.
pub struct EntityViewListParams {
    pub page_size: Option<i64>,
    pub page: Option<i64>,
    pub text_search: Option<String>,
    pub ev_type: Option<String>,
}

impl EntityViewListParams {
    pub fn to_page_link(&self) -> (r: PageLink)
        ensures
            r.page == (match self.page { Some(p) => p, None => 0 }),
            r.page_size == (match self.page_size { Some(s) => s, None => 10 }),
    {
        let text = match &self.text_search {
            Some(t) => Some(t.clone()),
            None => None,
        };
        page_link_or_default(self.page, self.page_size, text)
    }

    /// The type filter: an empty type is no filter.
    pub fn type_filter(&self) -> (r: Option<String>)
        ensures
            match self.ev_type {
                Some(t) => if t@.len() == 0 { r is None } else { r == Some(t) },
                None => r is None,
            },
    {
        match &self.ev_type {
            Some(t) => if t.unicode_len() == 0 { None } else { Some(t.clone()) },
            None => None,
        }
    }
}

/// Query of a view by name.
pub struct EntityViewNameParams {
    pub entity_view_name: String,
}

/// An entity view save request.
pub struct SaveEntityViewRequest {
    pub id: Option<IdResponse>,
    pub name: String,
    pub ev_type: Option<String>,
    pub tenant_id: Option<IdResponse>,
    pub customer_id: Option<IdResponse>,
    pub entity_id: Option<IdResponse>,
    pub keys: Option<serde_json::Value>,
    pub start_time_ms: Option<i64>,
    pub end_time_ms: Option<i64>,
    pub additional_info: Option<serde_json::Value>,
}

/// A view must name the entity it shows; this is checked before anything else.
pub fn viewed_entity(req: &SaveEntityViewRequest) -> (r: Result<(u128, String), ApiError>)
    ensures
        req.entity_id matches Some(e) ==> r == Ok::<(u128, String), ApiError>((e.id, e.entity_type)),
        req.entity_id is None ==> (r matches Err(ApiError::BadRequest(m)) && m@ == "entityId is required"@),
{
    match &req.entity_id {
        Some(e) => Ok((e.id, e.entity_type.clone())),
        None => Err(ApiError::BadRequest("entityId is required".to_owned())),
    }
}

/// Id, creation time and version of a saved view: an update keeps the stored
/// view's, which must exist; a new view gets `fresh_id`, `now` and version 1.
pub fn view_identity(req_id: Option<u128>, stored: Option<(i64, i64)>, now: i64, fresh_id: u128) -> (r: Result<(u128, i64, i64), ApiError>)
    ensures
        req_id matches Some(i) ==> (match stored {
            Some((c, v)) => r == Ok::<(u128, i64, i64), ApiError>((i, c, v)),
            None => r matches Err(ApiError::NotFound(m)) && m@ == "Entity View not found"@,
        }),
        req_id is None ==> r == Ok::<(u128, i64, i64), ApiError>((fresh_id, now, 1)),
{
    match req_id {
        Some(i) => match stored {
            Some((c, v)) => Ok((i, c, v)),
            None => Err(ApiError::NotFound("Entity View not found".to_owned())),
        },
        None => Ok((fresh_id, now, 1)),
    }
}

/// The view a save request makes for the caller's tenant: type `DEFAULT` unless
/// named, the time window from 0 to 0 unless given.
pub fn view_from_request(
    tenant_id: u128,
    req: SaveEntityViewRequest,
    entity: (u128, String),
    id: u128,
    created_time: i64,
    version: i64,
) -> (ev: EntityView)
    ensures
        ev.id == id && ev.created_time == created_time && ev.version == version,
        ev.tenant_id == tenant_id,
        ev.customer_id == (match req.customer_id { Some(c) => Some(c.id), None => None }),
        ev.entity_id == entity.0 && ev.entity_type == entity.1,
        ev.name == req.name,
        ev.entity_view_type@ == (match req.ev_type { Some(t) => t@, None => "DEFAULT"@ }),
        ev.keys == req.keys,
        ev.start_ts == (match req.start_time_ms { Some(t) => t, None => 0 }),
        ev.end_ts == (match req.end_time_ms { Some(t) => t, None => 0 }),
        ev.additional_info == req.additional_info,
{
    EntityView {
        id,
        created_time,
        tenant_id,
        customer_id: match req.customer_id { Some(c) => Some(c.id), None => None },
        entity_id: entity.0,
        entity_type: entity.1,
        name: req.name,
        entity_view_type: match req.ev_type { Some(t) => t, None => "DEFAULT".to_owned() },
        keys: req.keys,
        start_ts: match req.start_time_ms { Some(t) => t, None => 0 },
        end_ts: match req.end_time_ms { Some(t) => t, None => 0 },
        additional_info: req.additional_info,
        version,
    }
}

/// A view that has no customer cannot be unassigned.
pub fn check_view_assigned(customer_id: Option<u128>) -> (r: Result<(), ApiError>)
    ensures
        customer_id is Some <==> r is Ok,
        r matches Err(e) ==> (e matches ApiError::BadRequest(m) && m@ == "Entity View isn't assigned to any customer"@),
{
    match customer_id {
        Some(_) => Ok(()),
        None => Err(ApiError::BadRequest("Entity View isn't assigned to any customer".to_owned())),
    }
}

} // verus!
