//! Entity versions: the version list's paging, the field-level diff of two
//! snapshots, restore messages, and the repository settings of a deployment
//! without git.

use vstd::prelude::*;
use crate::common::{uuid_text, uuid_to_string};
use crate::error::ApiError;
use crate::text::{concat_str, decimal_text, i64_text, str_eq};

verus! {

/// Query of the version list.
pub struct ListVersionsParams {
    pub page: Option<i64>,
    pub page_size: Option<i64>,
}

/// The page asked for (never below 0) and its size (10 by default, kept between 1
/// and 100).
pub open spec fn version_page(p: ListVersionsParams) -> i64 {
    let v = match p.page { Some(x) => x, None => 0 };
    if v < 0 { 0 } else { v }
}

pub open spec fn version_page_size(p: ListVersionsParams) -> i64 {
    let v = match p.page_size { Some(x) => x, None => 10 };
    if v < 1 { 1 } else if v > 100 { 100 } else { v }
}

impl ListVersionsParams {
    pub fn window(&self) -> (r: (i64, i64))
        ensures
            r.0 == version_page(*self),
            r.1 == version_page_size(*self),
    {
        let p = match self.page { Some(x) => x, None => 0 };
        let p = if p < 0 { 0 } else { p };
        let s = match self.page_size { Some(x) => x, None => 10 };
        let s = if s < 1 { 1 } else if s > 100 { 100 } else { s };
        (p, s)
    }
}

/// Total pages of the version list and whether a page follows page `page`.
pub fn version_summary(page: i64, size: i64, total: i64) -> (r: (i64, bool))
    requires
        1 <= size <= 100,
        page < i64::MAX,
        0 <= total,
        total + size <= i64::MAX,
    ensures
        r.0 == (total + size - 1) / (size as int),
        r.1 == (page + 1 < r.0),
{
    let pages = (total + size - 1) / size;
    (pages, page + 1 < pages)
}

/// A version not found by number.
pub fn version_not_found(number: i64) -> (e: ApiError)
    ensures
        e matches ApiError::NotFound(m) && m@ == "Version "@ + decimal_text(number as int) + " not found"@,
{
    let a = concat_str("Version ", i64_text(number).as_str());
    ApiError::NotFound(concat_str(a.as_str(), " not found"))
}

/// A version request not found by id.
pub fn version_request_not_found(request_id: u128) -> (e: ApiError)
    ensures
        e matches ApiError::NotFound(m) && m@ == "Version request "@ + uuid_text(request_id) + " not found"@,
{
    let a = concat_str("Version request ", uuid_to_string(request_id).as_str());
    ApiError::NotFound(concat_str(a.as_str(), " not found"))
}

/// The commit message of a restore: the one given, else `Restored to version N`.
pub fn restore_message(given: Option<String>, number: i64) -> (r: String)
    ensures
        given matches Some(m) ==> r == m,
        given is None ==> r@ == "Restored to version "@ + decimal_text(number as int),
{
    match given {
        Some(m) => m,
        None => concat_str("Restored to version ", i64_text(number).as_str()),
    }
}

// ── Repository settings ─────────────────────────────────────────────────────

/// Git repository settings of version control.
pub struct RepositorySettings {
    pub enabled: bool,
    pub repository_uri: Option<String>,
    pub default_branch: Option<String>,
    pub auth_method: Option<String>,
}

/// This deployment keeps versions in its database: git version control is off.
pub fn repository_settings() -> (r: RepositorySettings)
    ensures
        !r.enabled && r.repository_uri is None && r.default_branch is None && r.auth_method is None,
{
    RepositorySettings { enabled: false, repository_uri: None, default_branch: None, auth_method: None }
}

/// Saving git settings is refused.
pub fn save_repository_settings(_settings: RepositorySettings) -> (r: Result<RepositorySettings, ApiError>)
    ensures
        r matches Err(ApiError::BadRequest(m)) && m@ == "Git-based version control is not enabled in this deployment"@,
{
    Err(ApiError::BadRequest("Git-based version control is not enabled in this deployment".to_owned()))
}

// ── Snapshot diff ───────────────────────────────────────────────────────────

/// A member of a JSON object: its key and its value written as canonical JSON,
/// one text for each value, so that two values are equal exactly when their texts
/// are (a number is written in one form whatever its source form, `-0.0` as `0.0`).
/// The members of one object have distinct keys (`distinct_keys`).
pub struct JsonMember {
    pub key: String,
    pub value: String,
}

pub open spec fn member_view(m: JsonMember) -> (Seq<char>, Seq<char>) {
    (m.key@, m.value@)
}

pub open spec fn members_view(ms: Seq<JsonMember>) -> Seq<(Seq<char>, Seq<char>)> {
    ms.map_values(|m: JsonMember| member_view(m))
}

/// The value of a key in an object's members.
pub open spec fn lookup(obj: Seq<(Seq<char>, Seq<char>)>, k: Seq<char>) -> Option<Seq<char>>
    decreases obj.len(),
{
    if obj.len() == 0 {
        None
    } else if obj[0].0 == k {
        Some(obj[0].1)
    } else {
        lookup(obj.drop_first(), k)
    }
}

/// Members of `to` whose key `from` lacks.
pub open spec fn added_members(from: Seq<(Seq<char>, Seq<char>)>, to: Seq<(Seq<char>, Seq<char>)>) -> Seq<(Seq<char>, Seq<char>)>
    decreases to.len(),
{
    if to.len() == 0 {
        to
    } else {
        let init = added_members(from, to.drop_last());
        if lookup(from, to.last().0) is None { init.push(to.last()) } else { init }
    }
}

/// Keys in both objects whose values differ, with the old and the new value.
pub open spec fn changed_members(from: Seq<(Seq<char>, Seq<char>)>, to: Seq<(Seq<char>, Seq<char>)>) -> Seq<(Seq<char>, Seq<char>, Seq<char>)>
    decreases to.len(),
{
    if to.len() == 0 {
        Seq::empty()
    } else {
        let init = changed_members(from, to.drop_last());
        let (k, v) = to.last();
        match lookup(from, k) {
            Some(old) => if old != v { init.push((k, old, v)) } else { init },
            None => init,
        }
    }
}

/// The diff of two snapshots: what the second adds, removes and changes, each by key.
pub struct SnapshotDiff {
    pub added: Vec<JsonMember>,
    pub removed: Vec<JsonMember>,
    pub changed: Vec<(String, String, String)>,
}

fn find_member(obj: &Vec<JsonMember>, k: &str) -> (r: Option<String>)
    ensures
        match r {
            Some(v) => lookup(members_view(obj@), k@) == Some(v@),
            None => lookup(members_view(obj@), k@) is None,
        },
{
    let ghost all = members_view(obj@);
    assert(all.subrange(0, all.len() as int) =~= all);
    let mut i: usize = 0;
    while i < obj.len()
        invariant
            i <= obj@.len(),
            all == members_view(obj@),
            lookup(all, k@) == lookup(all.subrange(i as int, all.len() as int), k@),
        decreases obj@.len() - i,
    {
        proof {
            let rest = all.subrange(i as int, all.len() as int);
            assert(rest.drop_first() =~= all.subrange(i + 1, all.len() as int));
            assert(rest[0] == member_view(obj@[i as int]));
        }
        if str_eq(obj[i].key.as_str(), k) {
            return Some(obj[i].value.clone());
        }
        i = i + 1;
    }
    assert(all.subrange(i as int, all.len() as int) =~= Seq::<(Seq<char>, Seq<char>)>::empty());
    None
}

/// The field-level diff of two snapshots; a snapshot that is not an object counts as
/// an empty one.
pub fn json_diff(from: &Option<Vec<JsonMember>>, to: &Option<Vec<JsonMember>>) -> (r: SnapshotDiff)
    ensures
        members_view(r.added@) == added_members(
            match from { Some(f) => members_view(f@), None => Seq::empty() },
            match to { Some(t) => members_view(t@), None => Seq::empty() }),
        members_view(r.removed@) == added_members(
            match to { Some(t) => members_view(t@), None => Seq::empty() },
            match from { Some(f) => members_view(f@), None => Seq::empty() }),
        r.changed@.map_values(|c: (String, String, String)| (c.0@, c.1@, c.2@)) == changed_members(
            match from { Some(f) => members_view(f@), None => Seq::empty() },
            match to { Some(t) => members_view(t@), None => Seq::empty() }),
        (members_view(r.added@), members_view(r.removed@),
            r.changed@.map_values(|c: (String, String, String)| (c.0@, c.1@, c.2@))) == snapshot_diff(
            match from { Some(f) => members_view(f@), None => Seq::empty() },
            match to { Some(t) => members_view(t@), None => Seq::empty() }),
{
    let empty: Vec<JsonMember> = Vec::new();
    let f: &Vec<JsonMember> = match from { Some(x) => x, None => &empty };
    let t: &Vec<JsonMember> = match to { Some(x) => x, None => &empty };
    assert(members_view(empty@) =~= Seq::<(Seq<char>, Seq<char>)>::empty());
    let added = only_in_second(f, t);
    let removed = only_in_second(t, f);
    let changed = changed_between(f, t);
    SnapshotDiff { added, removed, changed }
}

fn only_in_second(a: &Vec<JsonMember>, b: &Vec<JsonMember>) -> (r: Vec<JsonMember>)
    ensures
        members_view(r@) == added_members(members_view(a@), members_view(b@)),
{
    let ghost bv = members_view(b@);
    let mut out: Vec<JsonMember> = Vec::new();
    let mut i: usize = 0;
    while i < b.len()
        invariant
            i <= b@.len(),
            bv == members_view(b@),
            members_view(out@) == added_members(members_view(a@), bv.subrange(0, i as int)),
        decreases b@.len() - i,
    {
        proof {
            assert(bv.subrange(0, i + 1).drop_last() =~= bv.subrange(0, i as int));
            assert(bv.subrange(0, i + 1).last() == member_view(b@[i as int]));
        }
        let m = &b[i];
        if find_member(a, m.key.as_str()).is_none() {
            out.push(JsonMember { key: m.key.clone(), value: m.value.clone() });
            proof {
                assert(members_view(out@) =~= added_members(members_view(a@), bv.subrange(0, i as int)).push(member_view(b@[i as int])));
            }
        }
        i = i + 1;
    }
    assert(bv.subrange(0, b@.len() as int) =~= bv);
    out
}

fn changed_between(a: &Vec<JsonMember>, b: &Vec<JsonMember>) -> (r: Vec<(String, String, String)>)
    ensures
        r@.map_values(|c: (String, String, String)| (c.0@, c.1@, c.2@)) == changed_members(members_view(a@), members_view(b@)),
{
    let ghost bv = members_view(b@);
    let mut out: Vec<(String, String, String)> = Vec::new();
    let mut i: usize = 0;
    while i < b.len()
        invariant
            i <= b@.len(),
            bv == members_view(b@),
            out@.map_values(|c: (String, String, String)| (c.0@, c.1@, c.2@)) == changed_members(members_view(a@), bv.subrange(0, i as int)),
        decreases b@.len() - i,
    {
        proof {
            assert(bv.subrange(0, i + 1).drop_last() =~= bv.subrange(0, i as int));
            assert(bv.subrange(0, i + 1).last() == member_view(b@[i as int]));
        }
        let m = &b[i];
        match find_member(a, m.key.as_str()) {
            Some(old) => {
                if !str_eq(old.as_str(), m.value.as_str()) {
                    let ghost before = out@.map_values(|c: (String, String, String)| (c.0@, c.1@, c.2@));
                    out.push((m.key.clone(), old, m.value.clone()));
                    proof {
                        assert(out@.map_values(|c: (String, String, String)| (c.0@, c.1@, c.2@)) =~= before.push((m.key@, old@, m.value@)));
                    }
                }
            },
            None => {},
        }
        i = i + 1;
    }
    assert(bv.subrange(0, b@.len() as int) =~= bv);
    out
}

/// An object's members with no key twice, as a JSON object read from a snapshot has.
pub open spec fn distinct_keys(obj: Seq<(Seq<char>, Seq<char>)>) -> bool {
    forall|i: int, j: int| 0 <= i < j < obj.len() ==> (#[trigger] obj[i]).0 != (#[trigger] obj[j]).0
}

proof fn lemma_lookup_found(obj: Seq<(Seq<char>, Seq<char>)>, k: Seq<char>)
    ensures
        lookup(obj, k) matches Some(v) ==> exists|i: int| 0 <= i < obj.len() && #[trigger] obj[i] == (k, v),
        lookup(obj, k) is None ==> forall|i: int| 0 <= i < obj.len() ==> (#[trigger] obj[i]).0 != k,
    decreases obj.len(),
{
    if obj.len() > 0 {
        lemma_lookup_found(obj.drop_first(), k);
        if obj[0].0 != k {
            match lookup(obj, k) {
                Some(v) => {
                    let i = choose|i: int| 0 <= i < obj.drop_first().len() && #[trigger] obj.drop_first()[i] == (k, v);
                    assert(obj[i + 1] == (k, v));
                },
                None => {},
            }
            assert forall|i: int| 0 <= i < obj.len() && lookup(obj, k) is None implies (#[trigger] obj[i]).0 != k by {
                if i > 0 {
                    assert(obj[i] == obj.drop_first()[i - 1]);
                }
            }
        }
    }
}

proof fn lemma_lookup_member(obj: Seq<(Seq<char>, Seq<char>)>, i: int)
    requires
        distinct_keys(obj),
        0 <= i < obj.len(),
    ensures
        lookup(obj, obj[i].0) == Some(obj[i].1),
    decreases obj.len(),
{
    if i > 0 {
        let rest = obj.drop_first();
        assert(obj[0].0 != obj[i].0);
        assert(rest[i - 1] == obj[i]);
        assert forall|a: int, b: int| 0 <= a < b < rest.len() implies (#[trigger] rest[a]).0 != (#[trigger] rest[b]).0 by {
            assert(rest[a] == obj[a + 1] && rest[b] == obj[b + 1]);
        }
        lemma_lookup_member(rest, i - 1);
    }
}

/// A key's value in an object with distinct keys is the one of the member that has it.
proof fn lemma_lookup_distinct(obj: Seq<(Seq<char>, Seq<char>)>, k: Seq<char>, v: Seq<char>)
    requires
        distinct_keys(obj),
    ensures
        lookup(obj, k) == Some(v) <==> exists|i: int| 0 <= i < obj.len() && #[trigger] obj[i] == (k, v),
{
    lemma_lookup_found(obj, k);
    if exists|i: int| 0 <= i < obj.len() && #[trigger] obj[i] == (k, v) {
        let i = choose|i: int| 0 <= i < obj.len() && #[trigger] obj[i] == (k, v);
        lemma_lookup_member(obj, i);
    }
}

proof fn lemma_added_of_self(from: Seq<(Seq<char>, Seq<char>)>, n: int)
    requires
        0 <= n <= from.len(),
    ensures
        added_members(from, from.subrange(0, n)) == Seq::<(Seq<char>, Seq<char>)>::empty(),
    decreases n,
{
    let to = from.subrange(0, n);
    if n > 0 {
        assert(to.drop_last() =~= from.subrange(0, n - 1));
        lemma_added_of_self(from, n - 1);
        lemma_lookup_found(from, to.last().0);
        assert(from[n - 1] == to.last());
    } else {
        assert(to =~= Seq::<(Seq<char>, Seq<char>)>::empty());
    }
}

proof fn lemma_changed_of_self(from: Seq<(Seq<char>, Seq<char>)>, n: int)
    requires
        distinct_keys(from),
        0 <= n <= from.len(),
    ensures
        changed_members(from, from.subrange(0, n)) == Seq::<(Seq<char>, Seq<char>, Seq<char>)>::empty(),
    decreases n,
{
    let to = from.subrange(0, n);
    if n > 0 {
        assert(to.drop_last() =~= from.subrange(0, n - 1));
        lemma_changed_of_self(from, n - 1);
        lemma_lookup_member(from, n - 1);
        assert(from[n - 1] == to.last());
    }
}

/// A snapshot compared with itself has nothing added, removed or changed.
pub proof fn lemma_diff_of_same_snapshot(a: Seq<(Seq<char>, Seq<char>)>)
    requires
        distinct_keys(a),
    ensures
        added_members(a, a) == Seq::<(Seq<char>, Seq<char>)>::empty(),
        changed_members(a, a) == Seq::<(Seq<char>, Seq<char>, Seq<char>)>::empty(),
{
    assert(a.subrange(0, a.len() as int) =~= a);
    lemma_added_of_self(a, a.len() as int);
    lemma_changed_of_self(a, a.len() as int);
}

proof fn lemma_changed_contains(from: Seq<(Seq<char>, Seq<char>)>, to: Seq<(Seq<char>, Seq<char>)>,
    k: Seq<char>, x: Seq<char>, y: Seq<char>)
    ensures
        changed_members(from, to).contains((k, x, y)) <==> (lookup(from, k) == Some(x) && x != y
            && exists|j: int| 0 <= j < to.len() && #[trigger] to[j] == (k, y)),
    decreases to.len(),
{
    if to.len() > 0 {
        let init = to.drop_last();
        lemma_changed_contains(from, init, k, x, y);
        if exists|j: int| 0 <= j < init.len() && #[trigger] init[j] == (k, y) {
            let j = choose|j: int| 0 <= j < init.len() && #[trigger] init[j] == (k, y);
            assert(to[j] == (k, y));
        }
        if exists|j: int| 0 <= j < to.len() && #[trigger] to[j] == (k, y) {
            let j = choose|j: int| 0 <= j < to.len() && #[trigger] to[j] == (k, y);
            if j < to.len() - 1 {
                assert(init[j] == (k, y));
            }
        }
        let c = changed_members(from, init);
        let (lk, lv) = to.last();
        match lookup(from, lk) {
            Some(o) => if o != lv {
                assert(changed_members(from, to) == c.push((lk, o, lv)));
                assert(c.push((lk, o, lv)).contains((k, x, y)) <==> (c.contains((k, x, y)) || (lk, o, lv) == (k, x, y))) by {
                    if c.push((lk, o, lv)).contains((k, x, y)) {
                        let i = choose|i: int| 0 <= i < c.len() + 1 && c.push((lk, o, lv))[i] == (k, x, y);
                        if i < c.len() {
                            assert(c[i] == (k, x, y));
                        }
                    }
                    if c.contains((k, x, y)) {
                        let i = choose|i: int| 0 <= i < c.len() && c[i] == (k, x, y);
                        assert(c.push((lk, o, lv))[i] == (k, x, y));
                    }
                    assert(c.push((lk, o, lv))[c.len() as int] == (lk, o, lv));
                }
            },
            None => {},
        }
    }
}

/// Swapping the two snapshots swaps what is added and what is removed, and every
/// changed key is changed the other way round: from the new value to the old one.
pub proof fn lemma_diff_swapped(a: Seq<(Seq<char>, Seq<char>)>, b: Seq<(Seq<char>, Seq<char>)>,
    k: Seq<char>, x: Seq<char>, y: Seq<char>)
    requires
        distinct_keys(a),
        distinct_keys(b),
    ensures
        changed_members(a, b).contains((k, x, y)) <==> changed_members(b, a).contains((k, y, x)),
{
    lemma_changed_contains(a, b, k, x, y);
    lemma_changed_contains(b, a, k, y, x);
    lemma_lookup_distinct(a, k, x);
    lemma_lookup_distinct(b, k, y);
}

/// The diff of two objects' members: what the second adds, what it removes, and
/// each key whose value changes, with the old and the new value.
pub open spec fn snapshot_diff(from: Seq<(Seq<char>, Seq<char>)>, to: Seq<(Seq<char>, Seq<char>)>)
    -> (Seq<(Seq<char>, Seq<char>)>, Seq<(Seq<char>, Seq<char>)>, Seq<(Seq<char>, Seq<char>, Seq<char>)>) {
    (added_members(from, to), added_members(to, from), changed_members(from, to))
}

/// The laws of the snapshot diff, for objects with distinct keys: an object
/// against itself has no difference; swapping the two objects swaps what is added
/// and what is removed, and turns every change around.
pub proof fn lemma_snapshot_diff_laws(a: Seq<(Seq<char>, Seq<char>)>, b: Seq<(Seq<char>, Seq<char>)>)
    requires
        distinct_keys(a),
        distinct_keys(b),
    ensures
        snapshot_diff(a, a).0.len() == 0 && snapshot_diff(a, a).1.len() == 0 && snapshot_diff(a, a).2.len() == 0,
        snapshot_diff(b, a).0 == snapshot_diff(a, b).1,
        snapshot_diff(b, a).1 == snapshot_diff(a, b).0,
        forall|k: Seq<char>, x: Seq<char>, y: Seq<char>|
            #[trigger] snapshot_diff(a, b).2.contains((k, x, y)) <==> snapshot_diff(b, a).2.contains((k, y, x)),
{
    lemma_diff_of_same_snapshot(a);
    assert forall|k: Seq<char>, x: Seq<char>, y: Seq<char>|
        #[trigger] snapshot_diff(a, b).2.contains((k, x, y)) <==> snapshot_diff(b, a).2.contains((k, y, x)) by {
        lemma_diff_swapped(a, b, k, x, y);
    }
}

// ── Versions ────────────────────────────────────────────────────────────────

/// A stored version of an entity.
pub struct EntityVersion {
    pub id: u128,
    pub tenant_id: u128,
    pub entity_id: u128,
    pub entity_type: String,
    pub version_number: i64,
    pub commit_msg: Option<String>,
    pub snapshot: serde_json::Value,
    pub diff: Option<serde_json::Value>,
    pub created_by: Option<u128>,
    pub created_time: i64,
}

pub struct EntityVersionResponse {
    pub id: u128,
    pub tenant_id: u128,
    pub entity_id: u128,
    pub entity_type: String,
    pub version_number: i64,
    pub commit_msg: Option<String>,
    pub snapshot: serde_json::Value,
    pub diff: Option<serde_json::Value>,
    pub created_by: Option<u128>,
    pub created_time: i64,
}

impl EntityVersionResponse {
    pub fn from_version(v: EntityVersion) -> (r: Self)
        ensures
            r.id == v.id && r.tenant_id == v.tenant_id && r.entity_id == v.entity_id,
            r.entity_type == v.entity_type && r.version_number == v.version_number,
            r.commit_msg == v.commit_msg && r.snapshot == v.snapshot && r.diff == v.diff,
            r.created_by == v.created_by && r.created_time == v.created_time,
    {
        EntityVersionResponse {
            id: v.id,
            tenant_id: v.tenant_id,
            entity_id: v.entity_id,
            entity_type: v.entity_type,
            version_number: v.version_number,
            commit_msg: v.commit_msg,
            snapshot: v.snapshot,
            diff: v.diff,
            created_by: v.created_by,
            created_time: v.created_time,
        }
    }
}

} // verus!
