//! Entity events: their answers, the query filter and the save request.

use vstd::prelude::*;
use crate::error::ApiError;
use crate::ids::IdResponse;
use crate::paging::{page_link_or_default, PageLink};
use crate::text::concat_str;

verus! {

/// A stored event of an entity.
pub struct Event {
    pub id: u128,
    pub created_time: i64,
    pub tenant_id: u128,
    pub entity_id: u128,
    pub entity_type: String,
    pub event_type: String,
    pub event_uid: String,
    pub body: serde_json::Value,
}

pub struct EventResponse {
    pub id: IdResponse,
    pub created_time: i64,
    pub tenant_id: IdResponse,
    pub entity_id: IdResponse,
    pub event_type: String,
    pub event_uid: String,
    pub body: serde_json::Value,
}

impl EventResponse {
    pub fn from_event(e: Event) -> (r: Self)
        ensures
            r.id.id == e.id && r.id.entity_type@ == "EVENT"@,
            r.created_time == e.created_time,
            r.tenant_id.id == e.tenant_id && r.tenant_id.entity_type@ == "TENANT"@,
            r.entity_id.id == e.entity_id && r.entity_id.entity_type == e.entity_type,
            r.event_type == e.event_type && r.event_uid == e.event_uid && r.body == e.body,
    {
        EventResponse {
            id: IdResponse::new(e.id, "EVENT"),
            created_time: e.created_time,
            tenant_id: IdResponse::new(e.tenant_id, "TENANT"),
            entity_id: IdResponse::with_type(e.entity_id, e.entity_type),
            event_type: e.event_type,
            event_uid: e.event_uid,
            body: e.body,
        }
    }
}

/// Query of the event list: page, size, event type and time window.
pub struct EventFilterParams {
    pub page_size: Option<i64>,
    pub page: Option<i64>,
    pub event_type: Option<String>,
    pub start_ts: Option<i64>,
    pub end_ts: Option<i64>,
}

impl EventFilterParams {
    pub fn to_page_link(&self) -> (r: PageLink)
        ensures
            r.page == (match self.page { Some(p) => p, None => 0 }),
            r.page_size == (match self.page_size { Some(s) => s, None => 10 }),
            r.text_search is None,
    {
        page_link_or_default(self.page, self.page_size, None)
    }
}

/// The answer to an event of a type the server does not know.
pub fn invalid_event_type(event_type: &str) -> (e: ApiError)
    ensures
        e matches ApiError::BadRequest(m) && m@ == "Invalid event type: "@ + event_type@,
{
    ApiError::BadRequest(concat_str("Invalid event type: ", event_type))
}

} // verus!
