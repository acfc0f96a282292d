//! Dashboards: records and answers, the save request, the home dashboard, and the
//! list of customers a dashboard is assigned to.

use vstd::prelude::*;
use crate::common::{json_quoted, now_millis, parse_uuid, uuid_from_text, uuid_text, uuid_to_string};
use crate::error::ApiError;
use crate::ids::IdResponse;
use crate::paging::{page_link_or_default, PageLink};
use crate::text::concat_str;

verus! {

/// A stored dashboard.
pub struct Dashboard {
    pub id: u128,
    pub created_time: i64,
    pub tenant_id: u128,
    pub title: Option<String>,
    pub configuration: Option<serde_json::Value>,
    pub mobile_hide: bool,
    pub mobile_order: Option<i32>,
    pub version: i64,
}

pub struct DashboardResponse {
    pub id: IdResponse,
    pub created_time: i64,
    pub tenant_id: IdResponse,
    pub title: Option<String>,
    pub configuration: Option<serde_json::Value>,
    pub mobile_hide: bool,
    pub mobile_order: Option<i32>,
}

impl DashboardResponse {
    pub fn from_dashboard(d: Dashboard) -> (r: Self)
        ensures
            r.id.id == d.id && r.id.entity_type@ == "DASHBOARD"@,
            r.created_time == d.created_time,
            r.tenant_id.id == d.tenant_id && r.tenant_id.entity_type@ == "TENANT"@,
            r.title == d.title && r.configuration == d.configuration,
            r.mobile_hide == d.mobile_hide && r.mobile_order == d.mobile_order,
    {
        DashboardResponse {
            id: IdResponse::dashboard(d.id),
            created_time: d.created_time,
            tenant_id: IdResponse::tenant(d.tenant_id),
            title: d.title,
            configuration: d.configuration,
            mobile_hide: d.mobile_hide,
            mobile_order: d.mobile_order,
        }
    }
}

/// A dashboard save request.
pub struct SaveDashboardRequest {
    pub id: Option<IdResponse>,
    pub tenant_id: Option<IdResponse>,
    pub title: Option<String>,
    pub configuration: Option<serde_json::Value>,
    pub mobile_hide: Option<bool>,
    pub mobile_order: Option<i32>,
}

/// The dashboard a save request makes: in the request's tenant, else the caller's;
/// with the request's id, else `fresh_id`; shown on mobile unless asked otherwise.
pub fn dashboard_from_request(caller_tenant: u128, req: SaveDashboardRequest, now: i64, fresh_id: u128) -> (d: Dashboard)
    ensures
        d.id == (match req.id { Some(i) => i.id, None => fresh_id }),
        d.created_time == now,
        d.tenant_id == (match req.tenant_id { Some(t) => t.id, None => caller_tenant }),
        d.title == req.title && d.configuration == req.configuration,
        d.mobile_hide == (match req.mobile_hide { Some(b) => b, None => false }),
        d.mobile_order == req.mobile_order,
        d.version == 1,
{
    Dashboard {
        id: match req.id { Some(i) => i.id, None => fresh_id },
        created_time: now,
        tenant_id: match req.tenant_id { Some(t) => t.id, None => caller_tenant },
        title: req.title,
        configuration: req.configuration,
        mobile_hide: match req.mobile_hide { Some(b) => b, None => false },
        mobile_order: req.mobile_order,
        version: 1,
    }
}

/// The server clock, for dashboards that show server time.
pub struct ServerTimeResponse {
    pub server_time: i64,
}

pub fn server_time() -> (r: ServerTimeResponse)
{
    ServerTimeResponse { server_time: now_millis() }
}

/// Query of the dashboard list, with an optional mobile filter.
pub struct DashboardListParams {
    pub page_size: Option<i64>,
    pub page: Option<i64>,
    pub text_search: Option<String>,
    pub mobile: Option<bool>,
}

impl DashboardListParams {
    pub fn to_page_link(&self) -> (r: PageLink)
        ensures
            r.page == (match self.page { Some(p) => p, None => 0 }),
            r.page_size == (match self.page_size { Some(s) => s, None => 10 }),
    {
        let text = match &self.text_search {
            Some(t) => Some(t.clone()),
            None => None,
        };
        page_link_or_default(self.page, self.page_size, text)
    }
}

/// The home dashboard of a tenant.
pub struct HomeDashboardInfo {
    pub dashboard_id: Option<u128>,
    pub hidden_dashboard_toolbar: bool,
}

pub struct SetHomeDashboardRequest {
    pub dashboard_id: Option<IdResponse>,
    pub hidden_dashboard_toolbar: Option<bool>,
}

pub fn home_dashboard(req: SetHomeDashboardRequest) -> (h: HomeDashboardInfo)
    ensures
        h.dashboard_id == (match req.dashboard_id { Some(i) => Some(i.id), None => None }),
        h.hidden_dashboard_toolbar == (match req.hidden_dashboard_toolbar { Some(b) => b, None => false }),
{
    HomeDashboardInfo {
        dashboard_id: match req.dashboard_id { Some(i) => Some(i.id), None => None },
        hidden_dashboard_toolbar: match req.hidden_dashboard_toolbar { Some(b) => b, None => false },
    }
}

/// Unsetting the home dashboard leaves none, toolbar shown.
pub fn no_home_dashboard() -> (h: HomeDashboardInfo)
    ensures
        h.dashboard_id is None && !h.hidden_dashboard_toolbar,
{
    HomeDashboardInfo { dashboard_id: None, hidden_dashboard_toolbar: false }
}

// ── Assigned customers ──────────────────────────────────────────────────────

/// What `serde_json::from_str::<Vec<String>>` reads from a stored text: the texts of
/// a JSON array of strings, or none when the text is not one.
pub uninterp spec fn string_list_from_json(s: Seq<char>) -> Option<Seq<Seq<char>>>;

/// `serde_json::from_str::<Vec<String>>(s).ok()`. The result is named.
#[verifier::external_body]
pub(crate) fn parse_string_list(s: &str) -> (r: Option<Vec<String>>)
    ensures
        match r {
            Some(v) => string_list_from_json(s@) == Some(v@.map_values(|t: String| t@)),
            None => string_list_from_json(s@) is None,
        },
{
    match serde_json::from_str::<Vec<String>>(s) {
        Ok(v) => Some(v),
        Err(_) => None,
    }
}

/// The UUIDs of a list of texts, when every text is one.
pub open spec fn all_uuids(ts: Seq<Seq<char>>) -> Option<Seq<u128>>
    decreases ts.len(),
{
    if ts.len() == 0 {
        Some(Seq::<u128>::empty())
    } else {
        match (all_uuids(ts.drop_last()), uuid_from_text(ts.last())) {
            (Some(v), Some(u)) => Some(v.push(u)),
            _ => None,
        }
    }
}

/// The customers a dashboard is assigned to: those its stored JSON list of UUIDs
/// names, none when there is no list or it does not read as one.
pub open spec fn stored_customers(stored: Option<Seq<char>>) -> Seq<u128> {
    match stored {
        Some(s) => match string_list_from_json(s) {
            Some(ts) => match all_uuids(ts) {
                Some(v) => v,
                None => Seq::<u128>::empty(),
            },
            None => Seq::<u128>::empty(),
        },
        None => Seq::<u128>::empty(),
    }
}

fn uuids_of_texts(ts: &Vec<String>) -> (r: Option<Vec<u128>>)
    ensures
        match r {
            Some(v) => all_uuids(ts@.map_values(|t: String| t@)) == Some(v@),
            None => all_uuids(ts@.map_values(|t: String| t@)) is None,
        },
{
    let ghost tv = ts@.map_values(|t: String| t@);
    let mut out: Vec<u128> = Vec::new();
    let mut i: usize = 0;
    while i < ts.len()
        invariant
            i <= ts@.len(),
            tv == ts@.map_values(|t: String| t@),
            all_uuids(tv.subrange(0, i as int)) == Some(out@),
        decreases ts@.len() - i,
    {
        proof {
            assert(tv.subrange(0, i + 1).drop_last() =~= tv.subrange(0, i as int));
            assert(tv.subrange(0, i + 1).last() == ts@[i as int]@);
        }
        match parse_uuid(ts[i].as_str()) {
            Some(u) => out.push(u),
            None => {
                proof {
                    lemma_all_uuids_fails(tv, i as int + 1);
                }
                return None;
            },
        }
        i = i + 1;
    }
    assert(tv.subrange(0, ts@.len() as int) =~= tv);
    Some(out)
}

proof fn lemma_all_uuids_fails(ts: Seq<Seq<char>>, n: int)
    requires
        0 < n <= ts.len(),
        all_uuids(ts.subrange(0, n)) is None,
    ensures
        all_uuids(ts) is None,
    decreases ts.len() - n,
{
    if n < ts.len() {
        assert(ts.subrange(0, n + 1).drop_last() =~= ts.subrange(0, n));
        lemma_all_uuids_fails(ts, n + 1);
    } else {
        assert(ts.subrange(0, n) =~= ts);
    }
}

pub fn current_customers(stored: &Option<String>) -> (r: Vec<u128>)
    ensures
        r@ == stored_customers(match stored { Some(s) => Some(s@), None => None }),
{
    match stored {
        Some(s) => match parse_string_list(s.as_str()) {
            Some(ts) => match uuids_of_texts(&ts) {
                Some(v) => v,
                None => Vec::new(),
            },
            None => Vec::new(),
        },
        None => Vec::new(),
    }
}

/// `ids` with each of `add` appended that is not yet among them, in order.
pub open spec fn with_added(ids: Seq<u128>, add: Seq<u128>) -> Seq<u128>
    decreases add.len(),
{
    if add.len() == 0 {
        ids
    } else {
        let before = with_added(ids, add.drop_last());
        if before.contains(add.last()) { before } else { before.push(add.last()) }
    }
}

/// `ids` without those in `drop`, in order.
pub open spec fn without(ids: Seq<u128>, drop: Seq<u128>) -> Seq<u128>
    decreases ids.len(),
{
    if ids.len() == 0 {
        Seq::<u128>::empty()
    } else {
        let init = without(ids.drop_last(), drop);
        if drop.contains(ids.last()) { init } else { init.push(ids.last()) }
    }
}

fn contains_id(v: &Vec<u128>, x: u128) -> (r: bool)
    ensures
        r == v@.contains(x),
{
    let mut i: usize = 0;
    while i < v.len()
        invariant
            i <= v@.len(),
            forall|j: int| 0 <= j < i ==> v@[j] != x,
        decreases v@.len() - i,
    {
        if v[i] == x {
            return true;
        }
        i = i + 1;
    }
    false
}

pub fn add_customers(current: Vec<u128>, add: &Vec<u128>) -> (r: Vec<u128>)
    ensures
        r@ == with_added(current@, add@),
{
    let mut out = current;
    let ghost start = out@;
    let mut i: usize = 0;
    while i < add.len()
        invariant
            i <= add@.len(),
            out@ == with_added(start, add@.subrange(0, i as int)),
        decreases add@.len() - i,
    {
        proof {
            assert(add@.subrange(0, i + 1).drop_last() =~= add@.subrange(0, i as int));
        }
        let x = add[i];
        if !contains_id(&out, x) {
            out.push(x);
        }
        i = i + 1;
    }
    assert(add@.subrange(0, add@.len() as int) =~= add@);
    out
}

pub fn remove_customers(current: Vec<u128>, drop: &Vec<u128>) -> (r: Vec<u128>)
    ensures
        r@ == without(current@, drop@),
{
    let mut out: Vec<u128> = Vec::new();
    let mut i: usize = 0;
    while i < current.len()
        invariant
            i <= current@.len(),
            out@ == without(current@.subrange(0, i as int), drop@),
        decreases current@.len() - i,
    {
        proof {
            assert(current@.subrange(0, i + 1).drop_last() =~= current@.subrange(0, i as int));
        }
        let x = current[i];
        if !contains_id(drop, x) {
            out.push(x);
        }
        i = i + 1;
    }
    assert(current@.subrange(0, current@.len() as int) =~= current@);
    out
}

/// Adding customers keeps every customer already assigned, in place, and afterwards
/// every requested customer is assigned; a list without repeats keeps none.
pub proof fn lemma_add_customers(ids: Seq<u128>, add: Seq<u128>)
    ensures
        ids.is_prefix_of(with_added(ids, add)),
        forall|x: u128| #[trigger] with_added(ids, add).contains(x) <==> (ids.contains(x) || add.contains(x)),
        ids.no_duplicates() ==> with_added(ids, add).no_duplicates(),
    decreases add.len(),
{
    if add.len() > 0 {
        lemma_add_customers(ids, add.drop_last());
        let before = with_added(ids, add.drop_last());
        assert forall|x: u128| #[trigger] with_added(ids, add).contains(x) <==> (ids.contains(x) || add.contains(x)) by {
            if add.drop_last().contains(x) {
                let j = choose|j: int| 0 <= j < add.drop_last().len() && add.drop_last()[j] == x;
                assert(add[j] == x);
            }
            if add.contains(x) && x != add.last() {
                let j = choose|j: int| 0 <= j < add.len() && add[j] == x;
                assert(j != add.len() - 1);
                assert(add.drop_last()[j] == x);
            }
            if !before.contains(add.last()) {
                assert(before.push(add.last())[before.len() as int] == add.last());
                if before.contains(x) {
                    let j = choose|j: int| 0 <= j < before.len() && before[j] == x;
                    assert(before.push(add.last())[j] == x);
                }
                if before.push(add.last()).contains(x) && x != add.last() {
                    let j = choose|j: int| 0 <= j < before.len() + 1 && before.push(add.last())[j] == x;
                    assert(j < before.len());
                    assert(before[j] == x);
                }
            }
        }
        if !before.contains(add.last()) {
            assert(ids.is_prefix_of(before.push(add.last())));
        }
    } else {
        assert(ids.is_prefix_of(ids));
    }
}

/// Removing customers leaves exactly the assigned customers that were not named, in
/// their order.
pub proof fn lemma_remove_customers(ids: Seq<u128>, drop: Seq<u128>)
    ensures
        forall|x: u128| #[trigger] without(ids, drop).contains(x) <==> (ids.contains(x) && !drop.contains(x)),
        without(ids, drop).len() <= ids.len(),
    decreases ids.len(),
{
    if ids.len() > 0 {
        lemma_remove_customers(ids.drop_last(), drop);
        let init = without(ids.drop_last(), drop);
        assert forall|x: u128| #[trigger] without(ids, drop).contains(x) <==> (ids.contains(x) && !drop.contains(x)) by {
            if ids.drop_last().contains(x) {
                let j = choose|j: int| 0 <= j < ids.drop_last().len() && ids.drop_last()[j] == x;
                assert(ids[j] == x);
            }
            if ids.contains(x) && x != ids.last() {
                let j = choose|j: int| 0 <= j < ids.len() && ids[j] == x;
                assert(j != ids.len() - 1);
                assert(ids.drop_last()[j] == x);
            }
            if !drop.contains(ids.last()) {
                assert(init.push(ids.last())[init.len() as int] == ids.last());
                if init.contains(x) {
                    let j = choose|j: int| 0 <= j < init.len() && init[j] == x;
                    assert(init.push(ids.last())[j] == x);
                }
                if init.push(ids.last()).contains(x) && x != ids.last() {
                    let j = choose|j: int| 0 <= j < init.len() + 1 && init.push(ids.last())[j] == x;
                    assert(j < init.len());
                    assert(init[j] == x);
                }
            }
        }
    }
}

/// `serde_json::to_string` of a list of UUIDs: a JSON array of their hyphenated
/// forms, with no spaces.
pub open spec fn uuid_list_text(ids: Seq<u128>) -> Seq<char> {
    seq!['['] + uuid_items(ids) + seq![']']
}

pub open spec fn uuid_items(ids: Seq<u128>) -> Seq<char>
    decreases ids.len(),
{
    if ids.len() == 0 {
        Seq::<char>::empty()
    } else if ids.len() == 1 {
        json_quoted(uuid_text(ids[0]))
    } else {
        uuid_items(ids.drop_last()) + seq![','] + json_quoted(uuid_text(ids.last()))
    }
}

/// The stored form of an assignment: none for no customer, else the JSON list.
pub fn assigned_json(ids: &Vec<u128>) -> (r: Option<String>)
    ensures
        ids@.len() == 0 <==> r is None,
        r matches Some(s) ==> s@ == uuid_list_text(ids@),
{
    if ids.len() == 0 {
        return None;
    }
    let mut items = String::new();
    let mut i: usize = 0;
    while i < ids.len()
        invariant
            i <= ids@.len(),
            items@ == uuid_items(ids@.subrange(0, i as int)),
        decreases ids@.len() - i,
    {
        proof {
            assert(ids@.subrange(0, i + 1).drop_last() =~= ids@.subrange(0, i as int));
        }
        let t = uuid_to_string(ids[i]);
        let a = concat_str("\"", t.as_str());
        let quoted = concat_str(a.as_str(), "\"");
        proof {
            reveal_strlit("\"");
            crate::common::lemma_uuid_text_plain(ids@[i as int]);
            crate::common::lemma_json_quoted_plain(uuid_text(ids@[i as int]));
            assert(quoted@ =~= json_quoted(uuid_text(ids@[i as int])));
        }
        if i == 0 {
            items = quoted;
            assert(ids@.subrange(0, 1) =~= seq![ids@[0]]);
        } else {
            let b = concat_str(items.as_str(), ",");
            items = concat_str(b.as_str(), quoted.as_str());
            proof {
                reveal_strlit(",");
                assert(items@ =~= uuid_items(ids@.subrange(0, i + 1)));
            }
        }
        i = i + 1;
    }
    assert(ids@.subrange(0, ids@.len() as int) =~= ids@);
    let a = concat_str("[", items.as_str());
    let r = concat_str(a.as_str(), "]");
    proof {
        reveal_strlit("[");
        reveal_strlit("]");
        assert(r@ =~= uuid_list_text(ids@));
    }
    Some(r)
}

/// The not-found answer for a dashboard.
pub fn dashboard_not_found(id: u128) -> (e: ApiError)
    ensures
        e matches ApiError::NotFound(m) && m@ == crate::common::not_found_text("Dashboard"@, id, "is not found"@),
{
    match crate::common::found_or_not_found::<()>(None, "Dashboard", id, "is not found") {
        Err(e) => e,
        Ok(()) => ApiError::NotFound(String::new()),
    }
}

// ── Dashboard infos ─────────────────────────────────────────────────────────

/// Whether `serde_json` reads a text as a JSON document.
pub uninterp spec fn json_parses(s: Seq<char>) -> bool;

/// `serde_json::from_str::<serde_json::Value>(s).ok()`: the document, when the text
/// is one. Which document it is is not stated.
#[verifier::external_body]
pub(crate) fn parse_json(s: &str) -> (r: Option<serde_json::Value>)
    ensures
        r is Some <==> json_parses(s@),
{
    serde_json::from_str::<serde_json::Value>(s).ok()
}

/// A dashboard's summary with the stored list of assigned customers.
pub struct DashboardInfo {
    pub id: u128,
    pub created_time: i64,
    pub tenant_id: u128,
    pub title: Option<String>,
    pub assigned_customers: Option<String>,
    pub mobile_hide: bool,
    pub mobile_order: Option<i32>,
}

pub struct DashboardInfoResponse {
    pub id: IdResponse,
    pub created_time: i64,
    pub tenant_id: IdResponse,
    pub title: Option<String>,
    pub assigned_customers: Option<serde_json::Value>,
    pub mobile_hide: bool,
    pub mobile_order: Option<i32>,
}

impl DashboardInfoResponse {
    /// The answer form of a summary: the stored customer list as a JSON document,
    /// none when there is none or it does not read.
    pub fn from_info(d: DashboardInfo) -> (r: Self)
        ensures
            r.id.id == d.id && r.id.entity_type@ == "DASHBOARD"@,
            r.created_time == d.created_time,
            r.tenant_id.id == d.tenant_id && r.tenant_id.entity_type@ == "TENANT"@,
            r.title == d.title,
            r.assigned_customers is Some <==> (d.assigned_customers matches Some(s) && json_parses(s@)),
            r.mobile_hide == d.mobile_hide && r.mobile_order == d.mobile_order,
    {
        let assigned = match &d.assigned_customers {
            Some(s) => parse_json(s.as_str()),
            None => None,
        };
        DashboardInfoResponse {
            id: IdResponse::dashboard(d.id),
            created_time: d.created_time,
            tenant_id: IdResponse::tenant(d.tenant_id),
            title: d.title,
            assigned_customers: assigned,
            mobile_hide: d.mobile_hide,
            mobile_order: d.mobile_order,
        }
    }
}

} // verus!
