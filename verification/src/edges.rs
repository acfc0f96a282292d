//! Edges: records and answers, the save request with its generated routing key and
//! secret, customer assignment, and the edge lists.

use vstd::prelude::*;
use crate::common::{uuid_text, uuid_to_string};
use crate::error::ApiError;
use crate::ids::IdResponse;
use crate::paging::{page_link_or_default, PageLink};
use crate::random::new_uuid_v4;
use crate::text::{chars_of, hex_of_u128, push_char};

verus! {

/// A stored edge.
pub struct Edge {
    pub id: u128,
    pub created_time: i64,
    pub tenant_id: u128,
    pub customer_id: Option<u128>,
    pub root_rule_chain_id: Option<u128>,
    pub name: String,
    pub edge_type: String,
    pub label: Option<String>,
    pub routing_key: String,
    pub secret: String,
    pub additional_info: Option<serde_json::Value>,
    pub version: i64,
}

pub struct EdgeResponse {
    pub id: IdResponse,
    pub created_time: i64,
    pub tenant_id: IdResponse,
    pub customer_id: Option<IdResponse>,
    pub root_rule_chain_id: Option<IdResponse>,
    pub name: String,
    pub edge_type: String,
    pub label: Option<String>,
    pub routing_key: String,
    pub secret: String,
    pub additional_info: Option<serde_json::Value>,
    pub version: i64,
}

pub open spec fn tagged_ref(r: Option<IdResponse>, id: Option<u128>, tag: Seq<char>) -> bool {
    match r {
        Some(i) => id == Some(i.id) && i.entity_type@ == tag,
        None => id is None,
    }
}

fn tag_ref(id: Option<u128>, tag: &str) -> (r: Option<IdResponse>)
    ensures
        tagged_ref(r, id, tag@),
{
    match id {
        Some(i) => Some(IdResponse::new(i, tag)),
        None => None,
    }
}

impl EdgeResponse {
    pub fn from_edge(e: Edge) -> (r: Self)
        ensures
            r.id.id == e.id && r.id.entity_type@ == "EDGE"@,
            r.created_time == e.created_time,
            r.tenant_id.id == e.tenant_id && r.tenant_id.entity_type@ == "TENANT"@,
            tagged_ref(r.customer_id, e.customer_id, "CUSTOMER"@),
            tagged_ref(r.root_rule_chain_id, e.root_rule_chain_id, "RULE_CHAIN"@),
            r.name == e.name && r.edge_type == e.edge_type && r.label == e.label,
            r.routing_key == e.routing_key && r.secret == e.secret,
            r.additional_info == e.additional_info && r.version == e.version,
    {
        EdgeResponse {
            id: IdResponse::new(e.id, "EDGE"),
            created_time: e.created_time,
            tenant_id: IdResponse::tenant(e.tenant_id),
            customer_id: tag_ref(e.customer_id, "CUSTOMER"),
            root_rule_chain_id: tag_ref(e.root_rule_chain_id, "RULE_CHAIN"),
            name: e.name,
            edge_type: e.edge_type,
            label: e.label,
            routing_key: e.routing_key,
            secret: e.secret,
            additional_info: e.additional_info,
            version: e.version,
        }
    }
}

/// An edge with its customer's title and whether that customer is public.
pub struct EdgeInfoResponse {
    pub edge: EdgeResponse,
    pub customer_title: Option<String>,
    pub customer_is_public: bool,
}

/// The info form of an edge: with its customer's title and public flag when the
/// edge has a customer that exists, none and `false` otherwise.
pub fn edge_info(e: Edge, customer: Option<(String, bool)>) -> (r: EdgeInfoResponse)
    ensures
        r.edge.id.id == e.id,
        e.customer_id is Some ==> (customer matches Some((t, p)) ==> r.customer_title == Some(t) && r.customer_is_public == p),
        (e.customer_id is None || customer is None) ==> r.customer_title is None && !r.customer_is_public,
{
    let has_customer = e.customer_id.is_some();
    let (title, public) = if has_customer {
        match customer {
            Some((t, p)) => (Some(t), p),
            None => (None, false),
        }
    } else {
        (None, false)
    };
    EdgeInfoResponse { edge: EdgeResponse::from_edge(e), customer_title: title, customer_is_public: public }
}

/// An event of an edge, as the edge pages answer it.
pub struct EdgeEventResponse {
    pub id: IdResponse,
    pub created_time: i64,
    pub seq_id: i64,
    pub tenant_id: IdResponse,
    pub edge_id: IdResponse,
    pub edge_event_type: String,
    pub action: String,
    pub entity_id: Option<u128>,
    pub body: Option<serde_json::Value>,
    pub uid: Option<String>,
}

impl EdgeEventResponse {
    pub fn from_event(e: crate::edge_events::EdgeEvent) -> (r: Self)
        ensures
            r.id.id == e.id && r.id.entity_type@ == "EDGE_EVENT"@,
            r.created_time == e.created_time && r.seq_id == e.seq_id,
            r.tenant_id.id == e.tenant_id && r.tenant_id.entity_type@ == "TENANT"@,
            r.edge_id.id == e.edge_id && r.edge_id.entity_type@ == "EDGE"@,
            r.edge_event_type == e.edge_event_type && r.action == e.edge_event_action,
            r.entity_id == e.entity_id && r.body == e.body && r.uid == e.uid,
    {
        EdgeEventResponse {
            id: IdResponse::new(e.id, "EDGE_EVENT"),
            created_time: e.created_time,
            seq_id: e.seq_id,
            tenant_id: IdResponse::tenant(e.tenant_id),
            edge_id: IdResponse::new(e.edge_id, "EDGE"),
            edge_event_type: e.edge_event_type,
            action: e.edge_event_action,
            entity_id: e.entity_id,
            body: e.body,
            uid: e.uid,
        }
    }
}

// ── Queries ─────────────────────────────────────────────────────────────────

pub struct EdgeListParams {
    pub page_size: Option<i64>,
    pub page: Option<i64>,
    pub text_search: Option<String>,
    pub edge_type: Option<String>,
}

impl EdgeListParams {
    pub fn to_page_link(&self) -> (r: PageLink)
        ensures
            r.page == (match self.page { Some(p) => p, None => 0 }),
            r.page_size == (match self.page_size { Some(s) => s, None => 10 }),
    {
        let text = match &self.text_search {
            Some(t) => Some(t.clone()),
            None => None,
        };
        page_link_or_default(self.page, self.page_size, text)
    }
}

pub struct EdgeNameParams {
    pub edge_name: String,
}

/// Whether the edge feature is on: always.
pub struct EdgeEnabledResponse {
    pub edges_enabled: bool,
}

pub fn edges_enabled() -> (r: EdgeEnabledResponse)
    ensures
        r.edges_enabled,
{
    EdgeEnabledResponse { edges_enabled: true }
}

/// An edge type of the tenant, tagged as an edge subtype.
pub struct EdgeSubtypeResponse {
    pub entity_type: String,
    pub subtype: String,
}

pub fn edge_subtypes(types: Vec<String>) -> (r: Vec<EdgeSubtypeResponse>)
    ensures
        r@.len() == types@.len(),
        forall|i: int| 0 <= i < r@.len() ==> (#[trigger] r@[i]).entity_type@ == "EDGE"@ && r@[i].subtype == types@[i],
{
    let mut out: Vec<EdgeSubtypeResponse> = Vec::new();
    let mut i: usize = 0;
    while i < types.len()
        invariant
            i <= types@.len(),
            out@.len() == i,
            forall|k: int| 0 <= k < i ==> (#[trigger] out@[k]).entity_type@ == "EDGE"@ && out@[k].subtype == types@[k],
        decreases types@.len() - i,
    {
        out.push(EdgeSubtypeResponse { entity_type: "EDGE".to_owned(), subtype: types[i].clone() });
        i = i + 1;
    }
    out
}

// ── Saving ──────────────────────────────────────────────────────────────────

pub struct SaveEdgeRequest {
    pub id: Option<IdResponse>,
    pub name: String,
    pub edge_type: Option<String>,
    pub label: Option<String>,
    pub routing_key: Option<String>,
    pub secret: Option<String>,
    pub tenant_id: Option<IdResponse>,
    pub customer_id: Option<IdResponse>,
    pub additional_info: Option<serde_json::Value>,
}

/// Id, creation time and version of a saved edge: an update keeps the stored edge's,
/// which must exist; a new edge gets `fresh_id`, `now` and version 1.
pub fn edge_identity(req_id: Option<u128>, stored: Option<(i64, i64)>, now: i64, fresh_id: u128) -> (r: Result<(u128, i64, i64), ApiError>)
    ensures
        req_id matches Some(i) ==> (match stored {
            Some((c, v)) => r == Ok::<(u128, i64, i64), ApiError>((i, c, v)),
            None => r matches Err(ApiError::NotFound(m)) && m@ == "Edge not found"@,
        }),
        req_id is None ==> r == Ok::<(u128, i64, i64), ApiError>((fresh_id, now, 1)),
{
    match req_id {
        Some(i) => match stored {
            Some((c, v)) => Ok((i, c, v)),
            None => Err(ApiError::NotFound("Edge not found".to_owned())),
        },
        None => Ok((fresh_id, now, 1)),
    }
}

/// A random key: a fresh UUID written as 32 hex digits, without hyphens.
pub fn random_key() -> (r: String)
    ensures
        exists|u: u128| r@ == #[trigger] hex_of_u128(u),
{
    let u = new_uuid_v4();
    let text = uuid_to_string(u);
    let v = chars_of(text.as_str());
    let mut r = String::new();
    let ghost t = uuid_text(u);
    let mut i: usize = 0;
    while i < v.len()
        invariant
            i <= v@.len(),
            v@ == t,
            t == uuid_text(u),
            r@ == dehyphen(t.subrange(0, i as int)),
        decreases v@.len() - i,
    {
        proof {
            assert(t.subrange(0, i + 1).drop_last() =~= t.subrange(0, i as int));
        }
        if v[i] != '-' {
            push_char(&mut r, v[i]);
        }
        i = i + 1;
    }
    proof {
        assert(t.subrange(0, t.len() as int) =~= t);
        lemma_dehyphen_uuid(u);
    }
    r
}

/// A text without its hyphens.
pub open spec fn dehyphen(s: Seq<char>) -> Seq<char>
    decreases s.len(),
{
    if s.len() == 0 {
        s
    } else if s.last() == '-' {
        dehyphen(s.drop_last())
    } else {
        dehyphen(s.drop_last()).push(s.last())
    }
}

proof fn lemma_dehyphen_concat(a: Seq<char>, b: Seq<char>)
    ensures
        dehyphen(a + b) == dehyphen(a) + dehyphen(b),
    decreases b.len(),
{
    if b.len() == 0 {
        assert(a + b =~= a);
        assert(dehyphen(a) + dehyphen(b) =~= dehyphen(a));
    } else {
        assert((a + b).drop_last() =~= a + b.drop_last());
        lemma_dehyphen_concat(a, b.drop_last());
        if b.last() != '-' {
            assert(dehyphen(a) + dehyphen(b.drop_last()).push(b.last()) =~= (dehyphen(a) + dehyphen(b.drop_last())).push(b.last()));
        }
    }
}

proof fn lemma_dehyphen_hex(s: Seq<char>)
    requires
        forall|i: int| 0 <= i < s.len() ==> #[trigger] s[i] != '-',
    ensures
        dehyphen(s) == s,
    decreases s.len(),
{
    if s.len() > 0 {
        lemma_dehyphen_hex(s.drop_last());
        assert(s.drop_last().push(s.last()) =~= s);
    }
}

proof fn lemma_dehyphen_uuid(u: u128)
    ensures
        dehyphen(uuid_text(u)) == hex_of_u128(u),
{
    let h = hex_of_u128(u);
    crate::common::lemma_uuid_text_plain(u);
    assert forall|i: int| 0 <= i < 32 implies #[trigger] h[i] != '-' by {
        let k = (4 * (31 - i)) as u128;
        let n = (u >> k) & 0xf;
        assert(n <= 15) by (bit_vector)
            requires n == (u >> k) & 0xf;
    }
    let p0 = h.subrange(0, 8);
    let p1 = h.subrange(8, 12);
    let p2 = h.subrange(12, 16);
    let p3 = h.subrange(16, 20);
    let p4 = h.subrange(20, 32);
    lemma_dehyphen_hex(p0);
    lemma_dehyphen_hex(p1);
    lemma_dehyphen_hex(p2);
    lemma_dehyphen_hex(p3);
    lemma_dehyphen_hex(p4);
    let d = seq!['-'];
    assert(dehyphen(d) == Seq::<char>::empty()) by {
        assert(d.drop_last() =~= Seq::<char>::empty());
        assert(d.last() == '-');
        assert(dehyphen(d.drop_last()) == Seq::<char>::empty());
    }
    lemma_dehyphen_concat(p0, d);
    lemma_dehyphen_concat(p0 + d, p1);
    lemma_dehyphen_concat(p0 + d + p1, d);
    lemma_dehyphen_concat(p0 + d + p1 + d, p2);
    lemma_dehyphen_concat(p0 + d + p1 + d + p2, d);
    lemma_dehyphen_concat(p0 + d + p1 + d + p2 + d, p3);
    lemma_dehyphen_concat(p0 + d + p1 + d + p2 + d + p3, d);
    lemma_dehyphen_concat(p0 + d + p1 + d + p2 + d + p3 + d, p4);
    assert(p0 + p1 + p2 + p3 + p4 =~= h);
}

/// The edge a save request makes for the caller's tenant: the given routing key and
/// secret, or random ones; type `DEFAULT` unless named; no root rule chain.
pub fn edge_from_request(tenant_id: u128, req: SaveEdgeRequest, id: u128, created_time: i64, version: i64) -> (e: Edge)
    ensures
        e.id == id && e.created_time == created_time && e.version == version,
        e.tenant_id == tenant_id,
        e.customer_id == (match req.customer_id { Some(c) => Some(c.id), None => None }),
        e.root_rule_chain_id is None,
        e.name == req.name,
        e.edge_type@ == (match req.edge_type { Some(t) => t@, None => "DEFAULT"@ }),
        e.label == req.label,
        req.routing_key matches Some(k) ==> e.routing_key == k,
        req.routing_key is None ==> exists|u: u128| e.routing_key@ == #[trigger] hex_of_u128(u),
        req.secret matches Some(k) ==> e.secret == k,
        req.secret is None ==> exists|u: u128| e.secret@ == #[trigger] hex_of_u128(u),
        e.additional_info == req.additional_info,
{
    let routing_key = match req.routing_key {
        Some(k) => k,
        None => random_key(),
    };
    let secret = match req.secret {
        Some(k) => k,
        None => random_key(),
    };
    Edge {
        id,
        created_time,
        tenant_id,
        customer_id: match req.customer_id { Some(c) => Some(c.id), None => None },
        root_rule_chain_id: None,
        name: req.name,
        edge_type: match req.edge_type { Some(t) => t, None => "DEFAULT".to_owned() },
        label: req.label,
        routing_key,
        secret,
        additional_info: req.additional_info,
        version,
    }
}

/// An edge that has no customer cannot be unassigned.
pub fn check_assigned(customer_id: Option<u128>) -> (r: Result<(), ApiError>)
    ensures
        customer_id is Some <==> r is Ok,
        r matches Err(e) ==> (e matches ApiError::BadRequest(m) && m@ == "Edge isn't assigned to any customer"@),
{
    match customer_id {
        Some(_) => Ok(()),
        None => Err(ApiError::BadRequest("Edge isn't assigned to any customer".to_owned())),
    }
}

} // verus!
