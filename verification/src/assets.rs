//! Assets: records and answers, the save request, and the CSV export.

use vstd::prelude::*;
use crate::error::ApiError;
use crate::export::{csv_lines, export_fields, export_header, export_row, fields_view, rows_view, same_width, write_csv};
use crate::ids::IdResponse;
use crate::dashboards::{json_parses, parse_json};
use crate::text::{chars_of, eq_ignore_ascii_case, eq_ignore_case, parse_i64, parse_int};

verus! {

/// A stored asset.
pub struct Asset {
    pub id: u128,
    pub created_time: i64,
    pub tenant_id: u128,
    pub customer_id: Option<u128>,
    pub name: String,
    pub asset_type: String,
    pub label: Option<String>,
    pub asset_profile_id: u128,
    pub additional_info: Option<serde_json::Value>,
    pub version: i64,
}

pub struct AssetResponse {
    pub id: IdResponse,
    pub created_time: i64,
    pub tenant_id: IdResponse,
    pub customer_id: Option<IdResponse>,
    pub name: String,
    pub asset_type: String,
    pub label: Option<String>,
    pub asset_profile_id: IdResponse,
    pub additional_info: Option<serde_json::Value>,
}

impl AssetResponse {
    pub fn from_asset(a: Asset) -> (r: Self)
        ensures
            r.id.id == a.id && r.id.entity_type@ == "ASSET"@,
            r.created_time == a.created_time,
            r.tenant_id.id == a.tenant_id && r.tenant_id.entity_type@ == "TENANT"@,
            r.customer_id is None <==> a.customer_id is None,
            r.customer_id matches Some(c) ==> a.customer_id == Some(c.id) && c.entity_type@ == "CUSTOMER"@,
            r.name == a.name && r.asset_type == a.asset_type && r.label == a.label,
            r.asset_profile_id.id == a.asset_profile_id && r.asset_profile_id.entity_type@ == "ASSET_PROFILE"@,
            r.additional_info == a.additional_info,
    {
        let customer = match a.customer_id {
            Some(c) => Some(IdResponse::customer(c)),
            None => None,
        };
        AssetResponse {
            id: IdResponse::asset(a.id),
            created_time: a.created_time,
            tenant_id: IdResponse::tenant(a.tenant_id),
            customer_id: customer,
            name: a.name,
            asset_type: a.asset_type,
            label: a.label,
            asset_profile_id: IdResponse::new(a.asset_profile_id, "ASSET_PROFILE"),
            additional_info: a.additional_info,
        }
    }
}

/// An asset with its profile's name and its customer's title.
pub struct AssetInfoView {
    pub id: u128,
    pub created_time: i64,
    pub tenant_id: u128,
    pub customer_id: Option<u128>,
    pub name: String,
    pub asset_type: String,
    pub label: Option<String>,
    pub asset_profile_id: u128,
    pub asset_profile_name: String,
    pub customer_title: Option<String>,
}

pub struct AssetInfoResponse {
    pub id: IdResponse,
    pub created_time: i64,
    pub tenant_id: IdResponse,
    pub customer_id: Option<IdResponse>,
    pub name: String,
    pub asset_type: String,
    pub label: Option<String>,
    pub asset_profile_id: IdResponse,
    pub asset_profile_name: String,
    pub customer_title: Option<String>,
}

impl AssetInfoResponse {
    pub fn from_info(a: AssetInfoView) -> (r: Self)
        ensures
            r.id.id == a.id && r.id.entity_type@ == "ASSET"@,
            r.created_time == a.created_time,
            r.tenant_id.id == a.tenant_id,
            r.customer_id is None <==> a.customer_id is None,
            r.customer_id matches Some(c) ==> a.customer_id == Some(c.id),
            r.name == a.name && r.asset_type == a.asset_type && r.label == a.label,
            r.asset_profile_id.id == a.asset_profile_id && r.asset_profile_id.entity_type@ == "ASSET_PROFILE"@,
            r.asset_profile_name == a.asset_profile_name && r.customer_title == a.customer_title,
    {
        let customer = match a.customer_id {
            Some(c) => Some(IdResponse::customer(c)),
            None => None,
        };
        AssetInfoResponse {
            id: IdResponse::asset(a.id),
            created_time: a.created_time,
            tenant_id: IdResponse::tenant(a.tenant_id),
            customer_id: customer,
            name: a.name,
            asset_type: a.asset_type,
            label: a.label,
            asset_profile_id: IdResponse::new(a.asset_profile_id, "ASSET_PROFILE"),
            asset_profile_name: a.asset_profile_name,
            customer_title: a.customer_title,
        }
    }
}

/// An asset save request.
pub struct SaveAssetRequest {
    pub id: Option<IdResponse>,
    pub name: String,
    pub asset_type: Option<String>,
    pub label: Option<String>,
    pub tenant_id: Option<IdResponse>,
    pub customer_id: Option<IdResponse>,
    pub asset_profile_id: Option<IdResponse>,
    pub additional_info: Option<serde_json::Value>,
}

/// The tenant of a saved asset: the request's, else the caller's.
pub fn asset_tenant(req: &SaveAssetRequest, caller_tenant: u128) -> (r: u128)
    ensures
        r == (match req.tenant_id { Some(t) => t.id, None => caller_tenant }),
{
    match &req.tenant_id {
        Some(t) => t.id,
        None => caller_tenant,
    }
}

/// The asset a save request makes, with the tenant's default profile (looked up only
/// when the request names no profile): type `default` unless named; without a
/// profile of either kind the request is refused.
pub fn asset_from_request(tenant_id: u128, req: SaveAssetRequest, now: i64, fresh_id: u128, default_profile: Option<u128>)
    -> (r: Result<Asset, ApiError>)
    ensures
        (req.asset_profile_id is None && default_profile is None) <==> r is Err,
        r matches Err(e) ==> (e matches ApiError::BadRequest(m)
            && m@ == "No default asset profile. Create one or provide assetProfileId."@),
        r matches Ok(a) ==> {
            &&& a.id == (match req.id { Some(i) => i.id, None => fresh_id })
            &&& a.created_time == now && a.tenant_id == tenant_id
            &&& a.customer_id == (match req.customer_id { Some(c) => Some(c.id), None => None })
            &&& a.name == req.name
            &&& a.asset_type@ == (match req.asset_type { Some(t) => t@, None => "default"@ })
            &&& a.label == req.label
            &&& a.asset_profile_id == (match req.asset_profile_id { Some(p) => p.id, None => default_profile->0 })
            &&& a.additional_info == req.additional_info
            &&& a.version == 1
        },
{
    let profile = match &req.asset_profile_id {
        Some(p) => p.id,
        None => match default_profile {
            Some(p) => p,
            None => {
                return Err(ApiError::BadRequest("No default asset profile. Create one or provide assetProfileId.".to_owned()));
            },
        },
    };
    Ok(Asset {
        id: match req.id { Some(i) => i.id, None => fresh_id },
        created_time: now,
        tenant_id,
        customer_id: match req.customer_id { Some(c) => Some(c.id), None => None },
        name: req.name,
        asset_type: match req.asset_type { Some(t) => t, None => "default".to_owned() },
        label: req.label,
        asset_profile_id: profile,
        additional_info: req.additional_info,
        version: 1,
    })
}

/// The export records of assets: the header, then one record per asset.
pub open spec fn asset_export_rows(assets: Seq<Asset>) -> Seq<Seq<Seq<char>>> {
    seq![seq!["name"@, "type"@, "label"@, "assetProfileId"@, "createdTime"@]] + assets.map_values(|a: Asset|
        export_fields(a.name@, a.asset_type@, match a.label { Some(l) => Some(l@), None => None }, a.asset_profile_id, a.created_time))
}

/// The CSV export of assets.
pub fn export_assets_csv(assets: &Vec<Asset>) -> (r: Result<Vec<u8>, ApiError>)
    ensures
        r matches Ok(b) && b@ == csv_lines(asset_export_rows(assets@)),
{
    let mut rows: Vec<Vec<String>> = Vec::new();
    rows.push(export_header("assetProfileId"));
    let mut i: usize = 0;
    while i < assets.len()
        invariant
            i <= assets@.len(),
            rows_view(rows@) == asset_export_rows(assets@.subrange(0, i as int)),
        decreases assets@.len() - i,
    {
        let a = &assets[i];
        let row = export_row(&a.name, &a.asset_type, &a.label, a.asset_profile_id, a.created_time);
        let ghost before = rows@;
        rows.push(row);
        proof {
            let f = |a: Asset| export_fields(a.name@, a.asset_type@, match a.label { Some(l) => Some(l@), None => None }, a.asset_profile_id, a.created_time);
            let g = |r: Vec<String>| fields_view(r@);
            assert(assets@.subrange(0, i + 1) =~= assets@.subrange(0, i as int).push(assets@[i as int]));
            assert(assets@.subrange(0, i as int).push(assets@[i as int]).map_values(f)
                =~= assets@.subrange(0, i as int).map_values(f).push(f(assets@[i as int])));
            assert(rows@ == before.push(row));
            assert(before.push(row).map_values(g) =~= before.map_values(g).push(g(row)));
            assert(rows_view(rows@) =~= asset_export_rows(assets@.subrange(0, i + 1)));
        }
        i = i + 1;
    }
    assert(assets@.subrange(0, assets@.len() as int) =~= assets@);
    proof {
        let all = rows_view(rows@);
        assert forall|k: int| 0 <= k < all.len() implies (#[trigger] all[k]).len() == all[0].len() by {
            assert(all[k].len() == 5);
            assert(all[0].len() == 5);
        }
        assert(same_width(all));
    }
    write_csv(&rows)
}

// ── Key-value cells ─────────────────────────────────────────────────────────

/// What a key-value cell of an import reads as, before numbers with a fraction:
/// a boolean, a JSON object or array, an integer, or none of these.
pub enum KvValue {
    Bool(bool),
    Json(serde_json::Value),
    Int(i64),
    Other,
}

/// A text that looks like a JSON object or array: `{...}` or `[...]`.
pub open spec fn json_shaped(s: Seq<char>) -> bool {
    s.len() > 0 && ((s[0] == '{' && s.last() == '}') || (s[0] == '[' && s.last() == ']'))
}

/// `true` and `false` in any ASCII case are booleans; a JSON-shaped text that
/// parses is that document; then a text that reads as an `i64` is that integer.
pub fn parse_kv_value(s: &str) -> (r: KvValue)
    ensures
        eq_ignore_ascii_case(s@, "true"@) ==> r == KvValue::Bool(true),
        !eq_ignore_ascii_case(s@, "true"@) && eq_ignore_ascii_case(s@, "false"@) ==> r == KvValue::Bool(false),
        !eq_ignore_ascii_case(s@, "true"@) && !eq_ignore_ascii_case(s@, "false"@) ==> {
            if json_shaped(s@) && json_parses(s@) {
                r is Json
            } else {
                match parse_int(s@, true, i64::MIN as int, i64::MAX as int) {
                    Some(n) => r == KvValue::Int(n as i64),
                    None => r is Other,
                }
            }
        },
{
    let v = chars_of(s);
    let t = chars_of("true");
    let f = chars_of("false");
    if eq_ignore_case(v.as_slice(), t.as_slice()) {
        return KvValue::Bool(true);
    }
    if eq_ignore_case(v.as_slice(), f.as_slice()) {
        return KvValue::Bool(false);
    }
    let n = v.len();
    let shaped = n > 0 && ((v[0] == '{' && v[n - 1] == '}') || (v[0] == '[' && v[n - 1] == ']'));
    if shaped {
        match parse_json(s) {
            Some(j) => {
                return KvValue::Json(j);
            },
            None => {},
        }
    }
    match parse_i64(v.as_slice()) {
        Some(i) => KvValue::Int(i),
        None => KvValue::Other,
    }
}

} // verus!
