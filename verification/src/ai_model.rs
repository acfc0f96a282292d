//! AI model configurations: their ids, records, answers and the save request.

use vstd::prelude::*;
use crate::common::{id_or_new, named_id, now_millis};
use crate::error::ApiError;
use crate::security::{require_admin, SecurityContext};

verus! {

/// Default page size of the AI model list.
pub fn default_page_size() -> (r: i64)
    ensures
        r == 10,
{
    10
}

/// Query of the AI model list; `page_size` defaults to [`default_page_size`].
pub struct PageParams {
    pub page: i64,
    pub page_size: i64,
}

impl PageParams {
    /// The query with its defaults: page 0, 10 items.
    pub fn defaults() -> (r: Self)
        ensures
            r.page == 0,
            r.page_size == 10,
    {
        PageParams { page: 0, page_size: default_page_size() }
    }
}

/// The id of an AI model, tagged `AI_MODEL`.
pub struct AiModelId {
    pub id: u128,
    pub entity_type: String,
}

impl AiModelId {
    pub fn new(id: u128) -> (r: Self)
        ensures
            r.id == id,
            r.entity_type@ == "AI_MODEL"@,
    {
        AiModelId { id, entity_type: "AI_MODEL".to_owned() }
    }
}

/// A stored AI model.
pub struct AiModel {
    pub id: u128,
    pub created_time: i64,
    pub tenant_id: Option<u128>,
    pub name: String,
    pub configuration: Option<serde_json::Value>,
    pub additional_info: Option<serde_json::Value>,
}

/// An AI model as the API answers it.
pub struct AiModelResponse {
    pub id: AiModelId,
    pub created_time: i64,
    pub tenant_id: Option<u128>,
    pub name: String,
    pub configuration: Option<serde_json::Value>,
    pub additional_info: Option<serde_json::Value>,
}

impl AiModelResponse {
    pub fn from_model(m: AiModel) -> (r: Self)
        ensures
            r.id.id == m.id && r.id.entity_type@ == "AI_MODEL"@,
            r.created_time == m.created_time,
            r.tenant_id == m.tenant_id,
            r.name == m.name,
            r.configuration == m.configuration,
            r.additional_info == m.additional_info,
    {
        AiModelResponse {
            id: AiModelId::new(m.id),
            created_time: m.created_time,
            tenant_id: m.tenant_id,
            name: m.name,
            configuration: m.configuration,
            additional_info: m.additional_info,
        }
    }
}

/// The fields a save request's JSON body carries: the text at `id.id`, the text
/// at `name`, and the `configuration` and `additionalInfo` documents.
pub struct AiModelBody {
    pub id_text: Option<String>,
    pub name: Option<String>,
    pub configuration: Option<serde_json::Value>,
    pub additional_info: Option<serde_json::Value>,
}

pub open spec fn opt_text(o: Option<String>) -> Option<Seq<char>> {
    match o { Some(s) => Some(s@), None => None }
}

/// The tenant a caller's records belong to: none for a system administrator,
/// the caller's tenant otherwise.
pub open spec fn owner_tenant(ctx: SecurityContext) -> Option<u128> {
    if ctx.sys_admin() { None } else { Some(ctx.tenant_id) }
}

pub fn tenant_scope(ctx: &SecurityContext) -> (r: Option<u128>)
    ensures
        r == owner_tenant(*ctx),
{
    if ctx.is_sys_admin() { None } else { Some(ctx.tenant_id) }
}

/// The AI model a save request makes, with `id` chosen for it and the time `now`:
/// the name defaults to `Unnamed Model`, and the owner follows the caller.
pub fn ai_model_from_body(ctx: &SecurityContext, body: AiModelBody, id: u128, now: i64) -> (r: AiModel)
    ensures
        r.id == id,
        r.created_time == now,
        r.tenant_id == owner_tenant(*ctx),
        r.name@ == (match body.name { Some(n) => n@, None => "Unnamed Model"@ }),
        r.configuration == body.configuration,
        r.additional_info == body.additional_info,
{
    let name = match body.name {
        Some(n) => n,
        None => "Unnamed Model".to_owned(),
    };
    AiModel {
        id,
        created_time: now,
        tenant_id: tenant_scope(ctx),
        name,
        configuration: body.configuration,
        additional_info: body.additional_info,
    }
}

/// A save request of an AI model: only administrators may save; the id is the one
/// the body names when it parses as a UUID, else a fresh one.
pub fn save_ai_model(ctx: &SecurityContext, body: AiModelBody) -> (r: Result<AiModel, ApiError>)
    ensures
        (ctx.sys_admin() || ctx.tenant_admin()) <==> r is Ok,
        r matches Err(e) ==> (e matches ApiError::Forbidden(m) && m@ == "Admin access required"@),
        r matches Ok(m) ==> {
            &&& (named_id(opt_text(body.id_text)) matches Some(u) ==> m.id == u)
            &&& m.tenant_id == owner_tenant(*ctx)
            &&& m.name@ == (match body.name { Some(n) => n@, None => "Unnamed Model"@ })
            &&& m.configuration == body.configuration
            &&& m.additional_info == body.additional_info
        },
{
    require_admin(ctx, "Admin access required")?;
    let id = match &body.id_text {
        Some(t) => id_or_new(Some(t.as_str())),
        None => id_or_new(None),
    };
    let now = now_millis();
    Ok(ai_model_from_body(ctx, body, id, now))
}

} // verus!
