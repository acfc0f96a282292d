//! Asset profiles: answers and the save request.

use vstd::prelude::*;
use crate::error::ApiError;
use crate::ids::IdResponse;

verus! {

/// A stored asset profile.
pub struct AssetProfile {
    pub id: u128,
    pub created_time: i64,
    pub tenant_id: u128,
    pub name: String,
    pub description: Option<String>,
    pub image: Option<String>,
    pub is_default: bool,
    pub default_rule_chain_id: Option<u128>,
    pub default_dashboard_id: Option<u128>,
    pub default_queue_name: Option<String>,
    pub version: i64,
}

pub struct AssetProfileResponse {
    pub id: IdResponse,
    pub created_time: i64,
    pub tenant_id: IdResponse,
    pub name: String,
    pub description: Option<String>,
    pub image: Option<String>,
    pub is_default: bool,
    pub default_rule_chain_id: Option<IdResponse>,
    pub default_dashboard_id: Option<IdResponse>,
    pub default_queue_name: Option<String>,
}

pub open spec fn tagged_id(r: Option<IdResponse>, id: Option<u128>, tag: Seq<char>) -> bool {
    match r {
        Some(i) => id == Some(i.id) && i.entity_type@ == tag,
        None => id is None,
    }
}

fn tag_opt(id: Option<u128>, tag: &str) -> (r: Option<IdResponse>)
    ensures
        tagged_id(r, id, tag@),
{
    match id {
        Some(i) => Some(IdResponse::new(i, tag)),
        None => None,
    }
}

impl AssetProfileResponse {
    pub fn from_profile(p: AssetProfile) -> (r: Self)
        ensures
            r.id.id == p.id && r.id.entity_type@ == "ASSET_PROFILE"@,
            r.created_time == p.created_time,
            r.tenant_id.id == p.tenant_id && r.tenant_id.entity_type@ == "TENANT"@,
            r.name == p.name && r.description == p.description && r.image == p.image,
            r.is_default == p.is_default,
            tagged_id(r.default_rule_chain_id, p.default_rule_chain_id, "RULE_CHAIN"@),
            tagged_id(r.default_dashboard_id, p.default_dashboard_id, "DASHBOARD"@),
            r.default_queue_name == p.default_queue_name,
    {
        AssetProfileResponse {
            id: IdResponse::new(p.id, "ASSET_PROFILE"),
            created_time: p.created_time,
            tenant_id: IdResponse::tenant(p.tenant_id),
            name: p.name,
            description: p.description,
            image: p.image,
            is_default: p.is_default,
            default_rule_chain_id: tag_opt(p.default_rule_chain_id, "RULE_CHAIN"),
            default_dashboard_id: tag_opt(p.default_dashboard_id, "DASHBOARD"),
            default_queue_name: p.default_queue_name,
        }
    }
}

/// The short form of an asset profile.
pub struct AssetProfileInfo {
    pub id: IdResponse,
    pub name: String,
    pub is_default: bool,
}

impl AssetProfileInfo {
    pub fn from_profile(p: AssetProfile) -> (r: Self)
        ensures
            r.id.id == p.id && r.id.entity_type@ == "ASSET_PROFILE"@,
            r.name == p.name && r.is_default == p.is_default,
    {
        AssetProfileInfo { id: IdResponse::new(p.id, "ASSET_PROFILE"), name: p.name, is_default: p.is_default }
    }
}

/// An asset profile's id and name.
pub struct AssetProfileEntityInfo {
    pub id: IdResponse,
    pub name: String,
}

pub fn asset_profile_entity_info(id: u128, name: String) -> (r: AssetProfileEntityInfo)
    ensures
        r.id.id == id && r.id.entity_type@ == "ASSET_PROFILE"@ && r.name == name,
{
    AssetProfileEntityInfo { id: IdResponse::new(id, "ASSET_PROFILE"), name }
}

/// An asset profile save request.
pub struct SaveAssetProfileRequest {
    pub id: Option<IdResponse>,
    pub name: String,
    pub description: Option<String>,
    pub image: Option<String>,
    pub default_rule_chain_id: Option<IdResponse>,
    pub default_dashboard_id: Option<IdResponse>,
    pub default_queue_name: Option<String>,
}

/// The asset profile a save request makes for the caller's tenant, never the default
/// one; id, creation time and version come from `profile_identity`.
pub fn asset_profile_from_request(tenant_id: u128, req: SaveAssetProfileRequest, id: u128, created_time: i64, version: i64)
    -> (p: AssetProfile)
    ensures
        p.id == id && p.created_time == created_time && p.tenant_id == tenant_id && p.version == version,
        p.name == req.name && p.description == req.description && p.image == req.image,
        !p.is_default,
        p.default_rule_chain_id == (match req.default_rule_chain_id { Some(r) => Some(r.id), None => None }),
        p.default_dashboard_id == (match req.default_dashboard_id { Some(r) => Some(r.id), None => None }),
        p.default_queue_name == req.default_queue_name,
{
    AssetProfile {
        id,
        created_time,
        tenant_id,
        name: req.name,
        description: req.description,
        image: req.image,
        is_default: false,
        default_rule_chain_id: match req.default_rule_chain_id { Some(r) => Some(r.id), None => None },
        default_dashboard_id: match req.default_dashboard_id { Some(r) => Some(r.id), None => None },
        default_queue_name: req.default_queue_name,
        version,
    }
}

/// A profile that must exist and does not is an `Entity not found` answer.
pub fn profile_found<T>(found: Option<T>) -> (r: Result<T, ApiError>)
    ensures
        found matches Some(x) ==> r == Ok::<T, ApiError>(x),
        found is None ==> (r matches Err(ApiError::NotFound(m)) && m@ == "Entity not found"@),
{
    match found {
        Some(x) => Ok(x),
        None => Err(ApiError::NotFound("Entity not found".to_owned())),
    }
}

} // verus!
