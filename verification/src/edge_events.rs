//! Edge event lists.

use vstd::prelude::*;
use crate::paging::PageLink;

verus! {

/// Default page size of the edge event list.
pub fn default_page_size() -> (r: i64)
    ensures
        r == 20,
{
    20
}

/// Query of the edge event list.
pub struct EdgeEventParams {
    pub page: i64,
    pub page_size: i64,
    pub start_time: Option<i64>,
    pub end_time: Option<i64>,
    pub action: Option<String>,
}

impl EdgeEventParams {
    /// The query with its defaults: page 0, 20 items, no time range, no action.
    pub fn defaults() -> (r: Self)
        ensures
            r.page == 0,
            r.page_size == 20,
            r.start_time is None && r.end_time is None && r.action is None,
    {
        EdgeEventParams { page: 0, page_size: default_page_size(), start_time: None, end_time: None, action: None }
    }

    /// The page request: the size is kept between 1 and 1000.
    pub fn page_link(&self) -> (r: PageLink)
        ensures
            r.page == self.page,
            r.page_size == (if self.page_size < 1 { 1 } else if self.page_size > 1000 { 1000 } else { self.page_size }),
            r.text_search is None,
    {
        let s = if self.page_size < 1 { 1 } else if self.page_size > 1000 { 1000 } else { self.page_size };
        PageLink::new(self.page, s)
    }
}

/// An event queued for an edge.
pub struct EdgeEvent {
    pub id: u128,
    pub created_time: i64,
    pub seq_id: i64,
    pub tenant_id: u128,
    pub edge_id: u128,
    pub edge_event_type: String,
    pub edge_event_action: String,
    pub entity_id: Option<u128>,
    pub body: Option<serde_json::Value>,
    pub uid: Option<String>,
}

/// An edge event as the API answers it.
pub struct EdgeEventResponse {
    pub id: u128,
    pub created_time: i64,
    pub seq_id: i64,
    pub tenant_id: u128,
    pub edge_id: u128,
    pub edge_event_type: String,
    pub edge_event_action: String,
    pub entity_id: Option<u128>,
    pub body: Option<serde_json::Value>,
    pub uid: Option<String>,
}

impl EdgeEventResponse {
    pub fn from_event(e: EdgeEvent) -> (r: Self)
        ensures
            r.id == e.id && r.created_time == e.created_time && r.seq_id == e.seq_id,
            r.tenant_id == e.tenant_id && r.edge_id == e.edge_id,
            r.edge_event_type == e.edge_event_type && r.edge_event_action == e.edge_event_action,
            r.entity_id == e.entity_id && r.body == e.body && r.uid == e.uid,
    {
        EdgeEventResponse {
            id: e.id,
            created_time: e.created_time,
            seq_id: e.seq_id,
            tenant_id: e.tenant_id,
            edge_id: e.edge_id,
            edge_event_type: e.edge_event_type,
            edge_event_action: e.edge_event_action,
            entity_id: e.entity_id,
            body: e.body,
            uid: e.uid,
        }
    }
}

} // verus!
