//! Devices: records and answers, save requests, credentials, id lists, claiming,
//! provisioning status, QR claiming codes and LoRaWAN EUIs.

use vstd::prelude::*;
use crate::common::{found_or_not_found, json_quoted, json_string, not_found_text, now_millis, parse_uuid, uuid_from_text, uuid_text, uuid_to_string};
use crate::error::ApiError;
use crate::export::{csv_lines, export_fields, export_header, export_row, fields_view, rows_view, same_width, write_csv};
use crate::ids::IdResponse;
use crate::paging::{page_link_or_default, PageLink};
use crate::random::{is_token_char, new_uuid_v4, random_alphanumeric_string};
use crate::security::SecurityContext;
use crate::text::{
    chars_of, concat_str, is_ascii_hexdigit, is_hex_digit, lower_of, split, split_chars, str_eq,
    string_of, to_lower, trim, trim_chars,
};

verus! {

// ── Records and answers ─────────────────────────────────────────────────────

/// A stored device.
pub struct Device {
    pub id: u128,
    pub created_time: i64,
    pub tenant_id: u128,
    pub customer_id: Option<u128>,
    pub name: String,
    pub device_type: String,
    pub label: Option<String>,
    pub device_profile_id: u128,
    pub firmware_id: Option<u128>,
    pub software_id: Option<u128>,
    pub additional_info: Option<serde_json::Value>,
    pub version: i64,
}

/// A device as the API answers it.
pub struct DeviceResponse {
    pub id: IdResponse,
    pub created_time: i64,
    pub tenant_id: IdResponse,
    pub customer_id: Option<IdResponse>,
    pub name: String,
    pub device_type: String,
    pub label: Option<String>,
    pub device_profile_id: IdResponse,
    pub additional_info: Option<serde_json::Value>,
}

pub fn customer_ref(c: Option<u128>) -> (r: Option<IdResponse>)
    ensures
        r is None <==> c is None,
        r matches Some(i) ==> c == Some(i.id) && i.entity_type@ == "CUSTOMER"@,
{
    match c {
        Some(id) => Some(IdResponse::customer(id)),
        None => None,
    }
}

impl DeviceResponse {
    pub fn from_device(d: Device) -> (r: Self)
        ensures
            r.id.id == d.id && r.id.entity_type@ == "DEVICE"@,
            r.created_time == d.created_time,
            r.tenant_id.id == d.tenant_id && r.tenant_id.entity_type@ == "TENANT"@,
            r.customer_id is None <==> d.customer_id is None,
            r.customer_id matches Some(c) ==> d.customer_id == Some(c.id) && c.entity_type@ == "CUSTOMER"@,
            r.name == d.name && r.device_type == d.device_type && r.label == d.label,
            r.device_profile_id.id == d.device_profile_id && r.device_profile_id.entity_type@ == "DEVICE_PROFILE"@,
            r.additional_info == d.additional_info,
    {
        DeviceResponse {
            id: IdResponse::device(d.id),
            created_time: d.created_time,
            tenant_id: IdResponse::tenant(d.tenant_id),
            customer_id: customer_ref(d.customer_id),
            name: d.name,
            device_type: d.device_type,
            label: d.label,
            device_profile_id: IdResponse::profile(d.device_profile_id),
            additional_info: d.additional_info,
        }
    }
}

/// A device with its profile's name and its customer's title.
pub struct DeviceInfoView {
    pub id: u128,
    pub created_time: i64,
    pub tenant_id: u128,
    pub customer_id: Option<u128>,
    pub name: String,
    pub label: Option<String>,
    pub device_profile_id: u128,
    pub device_profile_name: String,
    pub customer_title: Option<String>,
    pub firmware_id: Option<u128>,
    pub software_id: Option<u128>,
}

pub struct DeviceInfoResponse {
    pub id: IdResponse,
    pub created_time: i64,
    pub tenant_id: IdResponse,
    pub customer_id: Option<IdResponse>,
    pub name: String,
    pub label: Option<String>,
    pub device_profile_id: IdResponse,
    pub device_profile_name: String,
    pub customer_title: Option<String>,
    pub firmware_id: Option<IdResponse>,
    pub software_id: Option<IdResponse>,
}

fn package_ref(p: Option<u128>) -> (r: Option<IdResponse>)
    ensures
        r is None <==> p is None,
        r matches Some(i) ==> p == Some(i.id) && i.entity_type@ == "OTA_PACKAGE"@,
{
    match p {
        Some(id) => Some(IdResponse::new(id, "OTA_PACKAGE")),
        None => None,
    }
}

impl DeviceInfoResponse {
    pub fn from_info(d: DeviceInfoView) -> (r: Self)
        ensures
            r.id.id == d.id && r.id.entity_type@ == "DEVICE"@,
            r.created_time == d.created_time,
            r.tenant_id.id == d.tenant_id,
            r.customer_id is None <==> d.customer_id is None,
            r.customer_id matches Some(c) ==> d.customer_id == Some(c.id),
            r.name == d.name && r.label == d.label,
            r.device_profile_id.id == d.device_profile_id,
            r.device_profile_name == d.device_profile_name,
            r.customer_title == d.customer_title,
            r.firmware_id is None <==> d.firmware_id is None,
            r.firmware_id matches Some(f) ==> d.firmware_id == Some(f.id) && f.entity_type@ == "OTA_PACKAGE"@,
            r.software_id is None <==> d.software_id is None,
            r.software_id matches Some(f) ==> d.software_id == Some(f.id) && f.entity_type@ == "OTA_PACKAGE"@,
    {
        DeviceInfoResponse {
            id: IdResponse::device(d.id),
            created_time: d.created_time,
            tenant_id: IdResponse::tenant(d.tenant_id),
            customer_id: customer_ref(d.customer_id),
            name: d.name,
            label: d.label,
            device_profile_id: IdResponse::profile(d.device_profile_id),
            device_profile_name: d.device_profile_name,
            customer_title: d.customer_title,
            firmware_id: package_ref(d.firmware_id),
            software_id: package_ref(d.software_id),
        }
    }
}

// ── Credentials ─────────────────────────────────────────────────────────────

#[derive(PartialEq, Eq, Structural, Clone, Copy, Debug)]
pub enum DeviceCredentialsType {
    AccessToken,
    X509Certificate,
    MqttBasic,
    Lwm2mCredentials,
}

pub open spec fn credentials_type_name(t: DeviceCredentialsType) -> Seq<char> {
    match t {
        DeviceCredentialsType::AccessToken => "ACCESS_TOKEN"@,
        DeviceCredentialsType::X509Certificate => "X509_CERTIFICATE"@,
        DeviceCredentialsType::MqttBasic => "MQTT_BASIC"@,
        DeviceCredentialsType::Lwm2mCredentials => "LWM2M_CREDENTIALS"@,
    }
}

/// The credentials type a request names (exactly as written); an unknown name or
/// none means an access token.
pub open spec fn credentials_type_of(name: Option<Seq<char>>) -> DeviceCredentialsType {
    match name {
        Some(n) => if n == "X509_CERTIFICATE"@ {
            DeviceCredentialsType::X509Certificate
        } else if n == "MQTT_BASIC"@ {
            DeviceCredentialsType::MqttBasic
        } else if n == "LWM2M_CREDENTIALS"@ {
            DeviceCredentialsType::Lwm2mCredentials
        } else {
            DeviceCredentialsType::AccessToken
        },
        None => DeviceCredentialsType::AccessToken,
    }
}

pub open spec fn opt_view(o: Option<String>) -> Option<Seq<char>> {
    match o { Some(s) => Some(s@), None => None }
}

pub fn credentials_type_str(t: DeviceCredentialsType) -> (r: &'static str)
    ensures
        r@ == credentials_type_name(t),
{
    match t {
        DeviceCredentialsType::AccessToken => "ACCESS_TOKEN",
        DeviceCredentialsType::X509Certificate => "X509_CERTIFICATE",
        DeviceCredentialsType::MqttBasic => "MQTT_BASIC",
        DeviceCredentialsType::Lwm2mCredentials => "LWM2M_CREDENTIALS",
    }
}

pub fn parse_credentials_type(name: &Option<String>) -> (t: DeviceCredentialsType)
    ensures
        t == credentials_type_of(opt_view(*name)),
{
    match name {
        Some(n) => {
            let n = n.as_str();
            if str_eq(n, "X509_CERTIFICATE") {
                DeviceCredentialsType::X509Certificate
            } else if str_eq(n, "MQTT_BASIC") {
                DeviceCredentialsType::MqttBasic
            } else if str_eq(n, "LWM2M_CREDENTIALS") {
                DeviceCredentialsType::Lwm2mCredentials
            } else {
                DeviceCredentialsType::AccessToken
            }
        },
        None => DeviceCredentialsType::AccessToken,
    }
}

/// The credentials of a device.
pub struct DeviceCredentials {
    pub id: u128,
    pub created_time: i64,
    pub device_id: u128,
    pub credentials_type: DeviceCredentialsType,
    pub credentials_id: String,
    pub credentials_value: Option<String>,
}

pub struct CredentialsResponse {
    pub id: IdResponse,
    pub created_time: i64,
    pub device_id: IdResponse,
    pub credentials_type: String,
    pub credentials_id: String,
    pub credentials_value: Option<String>,
}

impl CredentialsResponse {
    pub fn from_credentials(c: DeviceCredentials) -> (r: Self)
        ensures
            r.id.id == c.id && r.id.entity_type@ == "DEVICE_CREDENTIALS"@,
            r.created_time == c.created_time,
            r.device_id.id == c.device_id && r.device_id.entity_type@ == "DEVICE"@,
            r.credentials_type@ == credentials_type_name(c.credentials_type),
            r.credentials_id == c.credentials_id,
            r.credentials_value == c.credentials_value,
    {
        CredentialsResponse {
            id: IdResponse::new(c.id, "DEVICE_CREDENTIALS"),
            created_time: c.created_time,
            device_id: IdResponse::device(c.device_id),
            credentials_type: credentials_type_str(c.credentials_type).to_owned(),
            credentials_id: c.credentials_id,
            credentials_value: c.credentials_value,
        }
    }
}

/// A credentials save request.
pub struct SaveCredentialsRequest {
    pub credentials_type: Option<String>,
    pub credentials_id: String,
    pub credentials_value: Option<String>,
}

/// The credentials a request sets for device `device_id`, with `id` and time `now`.
pub fn credentials_from_request(device_id: u128, req: SaveCredentialsRequest, id: u128, now: i64) -> (c: DeviceCredentials)
    ensures
        c.id == id && c.created_time == now && c.device_id == device_id,
        c.credentials_type == credentials_type_of(opt_view(req.credentials_type)),
        c.credentials_id == req.credentials_id,
        c.credentials_value == req.credentials_value,
{
    let t = parse_credentials_type(&req.credentials_type);
    DeviceCredentials {
        id,
        created_time: now,
        device_id,
        credentials_type: t,
        credentials_id: req.credentials_id,
        credentials_value: req.credentials_value,
    }
}

/// The credentials every new device gets: an access token that is a fresh UUID
/// in its hyphenated form.
pub fn default_credentials(device_id: u128, now: i64) -> (c: DeviceCredentials)
    ensures
        c.device_id == device_id && c.created_time == now,
        c.credentials_type == DeviceCredentialsType::AccessToken,
        c.credentials_value is None,
        exists|u: u128| c.credentials_id@ == #[trigger] uuid_text(u),
{
    let token = new_uuid_v4();
    let text = uuid_to_string(token);
    assert(text@ == uuid_text(token));
    DeviceCredentials {
        id: new_uuid_v4(),
        created_time: now,
        device_id,
        credentials_type: DeviceCredentialsType::AccessToken,
        credentials_id: text,
        credentials_value: None,
    }
}

// ── Saving a device ─────────────────────────────────────────────────────────

/// A device save request.
pub struct SaveDeviceRequest {
    pub id: Option<IdResponse>,
    pub name: String,
    pub device_type: Option<String>,
    pub label: Option<String>,
    pub tenant_id: Option<IdResponse>,
    pub customer_id: Option<IdResponse>,
    pub device_profile_id: Option<IdResponse>,
    pub additional_info: Option<serde_json::Value>,
}

pub open spec fn ref_id(o: Option<IdResponse>) -> Option<u128> {
    match o { Some(i) => Some(i.id), None => None }
}

pub open spec fn type_or_default(t: Option<String>) -> Seq<char> {
    match t { Some(s) => s@, None => "default"@ }
}

/// The fields every saved device takes from its request.
pub open spec fn device_from(d: Device, req: SaveDeviceRequest, tenant_id: u128, id: u128, now: i64) -> bool {
    &&& d.id == id && d.created_time == now && d.tenant_id == tenant_id
    &&& d.customer_id == ref_id(req.customer_id)
    &&& d.name == req.name && d.device_type@ == type_or_default(req.device_type)
    &&& d.label == req.label
    &&& ref_id(req.device_profile_id) == Some(d.device_profile_id)
    &&& d.firmware_id is None && d.software_id is None
    &&& d.additional_info == req.additional_info
    &&& d.version == 1
}

fn device_of(req: SaveDeviceRequest, tenant_id: u128, profile_id: u128, id: u128, now: i64) -> (d: Device)
    requires
        ref_id(req.device_profile_id) == Some(profile_id),
    ensures
        device_from(d, req, tenant_id, id, now),
{
    let device_type = match req.device_type {
        Some(t) => t,
        None => "default".to_owned(),
    };
    let customer = match req.customer_id {
        Some(c) => Some(c.id),
        None => None,
    };
    Device {
        id,
        created_time: now,
        tenant_id,
        customer_id: customer,
        name: req.name,
        device_type,
        label: req.label,
        device_profile_id: profile_id,
        firmware_id: None,
        software_id: None,
        additional_info: req.additional_info,
        version: 1,
    }
}

/// The device a save request makes: in the request's tenant, else the caller's; with
/// the request's id, else `fresh_id`; a request without a device profile is refused.
pub fn device_from_request(caller_tenant: u128, req: SaveDeviceRequest, now: i64, fresh_id: u128) -> (r: Result<Device, ApiError>)
    ensures
        req.device_profile_id is None <==> r is Err,
        r matches Err(e) ==> (e matches ApiError::BadRequest(m) && m@ == "deviceProfileId is required"@),
        r matches Ok(d) ==> device_from(d, req, match ref_id(req.tenant_id) { Some(t) => t, None => caller_tenant },
            match ref_id(req.id) { Some(i) => i, None => fresh_id }, now),
{
    let tenant = match &req.tenant_id {
        Some(t) => t.id,
        None => caller_tenant,
    };
    let id = match &req.id {
        Some(i) => i.id,
        None => fresh_id,
    };
    let profile = match &req.device_profile_id {
        Some(p) => p.id,
        None => {
            return Err(ApiError::BadRequest("deviceProfileId is required".to_owned()));
        },
    };
    Ok(device_of(req, tenant, profile, id, now))
}

/// A device and the credentials that come with it.
pub struct DeviceWithCredentialsRequest {
    pub device: SaveDeviceRequest,
    pub credentials: SaveCredentialsRequest,
}

/// The device and credentials a combined save request makes: the request must name
/// the tenant (checked first) and the device profile.
pub fn device_with_credentials(req: DeviceWithCredentialsRequest, now: i64, fresh_id: u128, credentials_id: u128)
    -> (r: Result<(Device, DeviceCredentials), ApiError>)
    ensures
        req.device.tenant_id is None ==> (r matches Err(ApiError::BadRequest(m)) && m@ == "tenantId is required"@),
        req.device.tenant_id is Some && req.device.device_profile_id is None
            ==> (r matches Err(ApiError::BadRequest(m)) && m@ == "deviceProfileId is required"@),
        r is Ok <==> req.device.tenant_id is Some && req.device.device_profile_id is Some,
        r matches Ok((d, c)) ==> {
            &&& device_from(d, req.device, req.device.tenant_id->0.id, match ref_id(req.device.id) { Some(i) => i, None => fresh_id }, now)
            &&& c.id == credentials_id && c.created_time == now && c.device_id == d.id
            &&& c.credentials_type == credentials_type_of(opt_view(req.credentials.credentials_type))
            &&& c.credentials_id == req.credentials.credentials_id
            &&& c.credentials_value == req.credentials.credentials_value
        },
{
    let tenant = match &req.device.tenant_id {
        Some(t) => t.id,
        None => {
            return Err(ApiError::BadRequest("tenantId is required".to_owned()));
        },
    };
    let device = device_from_request(tenant, req.device, now, fresh_id)?;
    let creds = credentials_from_request(device.id, req.credentials, credentials_id, now);
    Ok((device, creds))
}

// ── Lists ───────────────────────────────────────────────────────────────────

/// Query of the device lists.
pub struct PageParams {
    pub page_size: Option<i64>,
    pub page: Option<i64>,
    pub text_search: Option<String>,
}

impl PageParams {
    /// The page request: page 0 and 10 items unless the query says otherwise.
    pub fn to_page_link(&self) -> (r: PageLink)
        ensures
            r.page == (match self.page { Some(p) => p, None => 0 }),
            r.page_size == (match self.page_size { Some(s) => s, None => 10 }),
            opt_view(r.text_search) == opt_view(self.text_search),
    {
        let text = match &self.text_search {
            Some(t) => Some(t.clone()),
            None => None,
        };
        page_link_or_default(self.page, self.page_size, text)
    }

    /// The page request of an export: the first page, 10 000 devices unless the
    /// query says otherwise.
    pub fn export_page_link(&self) -> (r: PageLink)
        ensures
            r.page == 0,
            r.page_size == (match self.page_size { Some(s) => s, None => 10000 }),
            r.text_search is None,
    {
        PageLink::new(0, match self.page_size { Some(s) => s, None => 10000 })
    }
}

/// Query of the device list by ids: `deviceIds=id1,id2,…`.
pub struct DeviceIdsParams {
    pub device_ids: Option<String>,
}

/// The ids a comma-separated list names: each non-empty piece, trimmed, that reads
/// as a UUID, in order.
pub open spec fn ids_of_pieces(pieces: Seq<Seq<char>>) -> Seq<u128>
    decreases pieces.len(),
{
    if pieces.len() == 0 {
        Seq::<u128>::empty()
    } else {
        let init = ids_of_pieces(pieces.drop_last());
        let p = pieces.last();
        if p.len() > 0 && uuid_from_text(trim(p)) is Some {
            init.push(uuid_from_text(trim(p))->0)
        } else {
            init
        }
    }
}

pub open spec fn listed_ids(text: Seq<char>) -> Seq<u128> {
    ids_of_pieces(split(text, ','))
}

pub fn device_ids(params: &DeviceIdsParams) -> (r: Vec<u128>)
    ensures
        r@ == listed_ids(match params.device_ids { Some(t) => t@, None => Seq::<char>::empty() }),
{
    let chars: Vec<char> = match &params.device_ids {
        Some(t) => chars_of(t.as_str()),
        None => Vec::new(),
    };
    let ghost text = chars@;
    assert(text == (match params.device_ids { Some(t) => t@, None => Seq::<char>::empty() }));
    let pieces = split_chars(chars.as_slice(), ',');
    let ghost ps = split(text, ',');
    let mut ids: Vec<u128> = Vec::new();
    let mut k: usize = 0;
    while k < pieces.len()
        invariant
            k <= pieces@.len(),
            pieces@.len() == ps.len(),
            forall|j: int| 0 <= j < pieces@.len() ==> #[trigger] pieces@[j]@ == ps[j],
            ids@ == ids_of_pieces(ps.subrange(0, k as int)),
        decreases pieces@.len() - k,
    {
        let piece = &pieces[k];
        assert(ps.subrange(0, k + 1).drop_last() =~= ps.subrange(0, k as int));
        if piece.len() > 0 {
            let trimmed = trim_chars(piece.as_slice());
            let s = string_of(trimmed.as_slice());
            match parse_uuid(s.as_str()) {
                Some(u) => {
                    ids.push(u);
                },
                None => {},
            }
        }
        k = k + 1;
    }
    assert(ps.subrange(0, ps.len() as int) =~= ps);
    ids
}

// ── Access ──────────────────────────────────────────────────────────────────

/// Devices of another tenant are out of reach but for a system administrator.
pub fn check_device_tenant(ctx: &SecurityContext, device_tenant: u128) -> (r: Result<(), ApiError>)
    ensures
        (device_tenant == ctx.tenant_id || ctx.sys_admin()) <==> r is Ok,
        r matches Err(e) ==> (e matches ApiError::Forbidden(m) && m@ == "Device belongs to a different tenant"@),
{
    if device_tenant != ctx.tenant_id && !ctx.is_sys_admin() {
        Err(ApiError::Forbidden("Device belongs to a different tenant".to_owned()))
    } else {
        Ok(())
    }
}

/// Tenant and system administrators only, with the given refusal message.
pub fn require_tenant_or_sys_admin(ctx: &SecurityContext, message: &str) -> (r: Result<(), ApiError>)
    ensures
        (ctx.tenant_admin() || ctx.sys_admin()) <==> r is Ok,
        r matches Err(e) ==> (e matches ApiError::Forbidden(m) && m@ == message@),
{
    if !ctx.is_tenant_admin() && !ctx.is_sys_admin() {
        Err(ApiError::Forbidden(message.to_owned()))
    } else {
        Ok(())
    }
}

// ── Claiming ────────────────────────────────────────────────────────────────

/// One day, in milliseconds: how long a claiming secret lasts by default.
pub open spec fn day_ms() -> int {
    86_400_000int
}

/// The claiming data an administrator sets: the secret (empty when the body has
/// none) and its expiry, `now` plus the requested lifetime (a day by default).
pub fn claiming_data(secret: Option<String>, ttl_ms: Option<i64>, now: i64) -> (r: (String, i64))
    requires
        i64::MIN <= now + (match ttl_ms { Some(t) => t as int, None => day_ms() }) <= i64::MAX,
    ensures
        r.0@ == (match secret { Some(s) => s@, None => Seq::<char>::empty() }),
        r.1 == now + (match ttl_ms { Some(t) => t as int, None => day_ms() }),
{
    let s = match secret { Some(s) => s, None => String::new() };
    let ttl = match ttl_ms { Some(t) => t, None => 86_400_000 };
    (s, now + ttl)
}

/// Only a customer user claims a device by name.
pub fn claiming_customer(ctx: &SecurityContext) -> (r: Result<u128, ApiError>)
    ensures
        ctx.customer_id matches Some(c) ==> r == Ok::<u128, ApiError>(c),
        ctx.customer_id is None ==> (r matches Err(ApiError::Forbidden(m)) && m@ == "Only CUSTOMER_USER can claim devices"@),
{
    match ctx.customer_id {
        Some(c) => Ok(c),
        None => Err(ApiError::Forbidden("Only CUSTOMER_USER can claim devices".to_owned())),
    }
}

/// A tenant administrator claiming a device for a customer must give the secret.
pub fn claim_for_customer_secret(ctx: &SecurityContext, secret: Option<String>) -> (r: Result<String, ApiError>)
    ensures
        !ctx.tenant_admin() ==> (r matches Err(ApiError::Forbidden(m)) && m@ == "TENANT_ADMIN required"@),
        ctx.tenant_admin() && secret is None ==> (r matches Err(ApiError::BadRequest(m)) && m@ == "secretKey required"@),
        ctx.tenant_admin() && secret is Some ==> r == Ok::<String, ApiError>(secret->0),
{
    if !ctx.is_tenant_admin() {
        return Err(ApiError::Forbidden("TENANT_ADMIN required".to_owned()));
    }
    match secret {
        Some(s) => Ok(s),
        None => Err(ApiError::BadRequest("secretKey required".to_owned())),
    }
}

// ── Provisioning status ─────────────────────────────────────────────────────

/// What the mobile app learns of a device being provisioned.
pub struct ProvisioningStatus {
    pub status: String,
    pub device_id: Option<u128>,
    pub device_name: String,
    pub credentials_type: Option<String>,
    pub access_token: Option<String>,
}

/// `NOT_FOUND` when no device has the name; else `CLAIMED` when a customer owns it,
/// `PROVISIONED` otherwise, with its id, name and access token.
pub fn provisioning_status(device_name: String, found: Option<(Device, Option<DeviceCredentials>)>) -> (r: ProvisioningStatus)
    ensures
        found is None ==> r.status@ == "NOT_FOUND"@ && r.device_id is None && r.device_name == device_name
            && r.credentials_type is None && r.access_token is None,
        found matches Some((d, c)) ==> {
            &&& r.status@ == (if d.customer_id is Some { "CLAIMED"@ } else { "PROVISIONED"@ })
            &&& r.device_id == Some(d.id)
            &&& r.device_name == d.name
            &&& r.credentials_type matches Some(t) && t@ == "ACCESS_TOKEN"@
            &&& r.access_token == (match c { Some(x) => Some(x.credentials_id), None => None })
        },
{
    match found {
        None => ProvisioningStatus {
            status: "NOT_FOUND".to_owned(),
            device_id: None,
            device_name,
            credentials_type: None,
            access_token: None,
        },
        Some((d, c)) => {
            let status = if d.customer_id.is_some() { "CLAIMED" } else { "PROVISIONED" };
            let token = match c {
                Some(x) => Some(x.credentials_id),
                None => None,
            };
            ProvisioningStatus {
                status: status.to_owned(),
                device_id: Some(d.id),
                device_name: d.name,
                credentials_type: Some("ACCESS_TOKEN".to_owned()),
                access_token: token,
            }
        },
    }
}

// ── LoRaWAN ─────────────────────────────────────────────────────────────────

pub open spec fn all_hex(s: Seq<char>) -> bool {
    forall|i: int| 0 <= i < s.len() ==> is_ascii_hexdigit(#[trigger] s[i])
}

/// A device EUI as stored: trimmed and lower-cased; it must then be 16 hex digits.
pub open spec fn normalized_eui(s: Seq<char>) -> Seq<char> {
    lower_of(trim(s))
}

pub fn normalize_dev_eui(dev_eui: &str) -> (r: Result<String, ApiError>)
    ensures
        (normalized_eui(dev_eui@).len() == 16 && all_hex(normalized_eui(dev_eui@))) <==> r is Ok,
        r matches Ok(e) ==> e@ == normalized_eui(dev_eui@),
        r matches Err(e) ==> (e matches ApiError::BadRequest(m) && m@ == "devEui must be 16 hex chars (8-byte EUI-64)"@),
{
    let trimmed = string_of(trim_chars(chars_of(dev_eui).as_slice()).as_slice());
    let eui = to_lower(trimmed.as_str());
    let v = chars_of(eui.as_str());
    let mut ok = v.len() == 16;
    let mut i: usize = 0;
    while i < v.len()
        invariant
            i <= v@.len(),
            v@ == normalized_eui(dev_eui@),
            ok == (v@.len() == 16 && forall|j: int| 0 <= j < i ==> is_ascii_hexdigit(#[trigger] v@[j])),
        decreases v@.len() - i,
    {
        ok = ok && is_hex_digit(v[i]);
        i = i + 1;
    }
    if ok {
        Ok(eui)
    } else {
        Err(ApiError::BadRequest("devEui must be 16 hex chars (8-byte EUI-64)".to_owned()))
    }
}

/// A device without a linked EUI is a not-found answer.
pub fn linked_eui(eui: Option<String>) -> (r: Result<String, ApiError>)
    ensures
        eui matches Some(e) ==> r == Ok::<String, ApiError>(e),
        eui is None ==> (r matches Err(ApiError::NotFound(m)) && m@ == "Device has no LoRaWAN dev_eui linked"@),
{
    match eui {
        Some(e) => Ok(e),
        None => Err(ApiError::NotFound("Device has no LoRaWAN dev_eui linked".to_owned())),
    }
}

// ── QR claiming codes ───────────────────────────────────────────────────────

/// Why a QR image could not be made.
pub enum QrRenderError {
    Encode(String),
    Png(String),
}

/// The PNG image that `qrcode` and `image` make of a payload: the QR code of its
/// UTF-8 bytes at the default error correction level, in grey levels, at least
/// `min_size` pixels wide and high; none when the payload does not fit a QR code or
/// the PNG cannot be written.
pub uninterp spec fn qr_png(payload: Seq<char>, min_size: u32) -> Option<Seq<u8>>;

/// `qrcode::QrCode::new(payload)` rendered with `image::Luma<u8>` at
/// `min_dimensions(min_size, min_size)` and written as PNG. The image is named,
/// not restated; the error texts are the crates' and are not stated.
#[verifier::external_body]
pub(crate) fn render_qr_png(payload: &str, min_size: u32) -> (r: Result<Vec<u8>, QrRenderError>)
    ensures
        r matches Ok(b) ==> qr_png(payload@, min_size) == Some(b@),
        r is Err ==> qr_png(payload@, min_size) is None,
{
    let code = match qrcode::QrCode::new(payload.as_bytes()) {
        Ok(c) => c,
        Err(e) => return Err(QrRenderError::Encode(e.to_string())),
    };
    let img = code.render::<image::Luma<u8>>().min_dimensions(min_size, min_size).build();
    let mut buf: Vec<u8> = Vec::new();
    match img.write_to(&mut std::io::Cursor::new(&mut buf), image::ImageFormat::Png) {
        Ok(()) => Ok(buf),
        Err(e) => Err(QrRenderError::Png(e.to_string())),
    }
}

/// The claiming data a QR code carries: the device's name and its secret, as the
/// JSON object `{"deviceName":…,"secretKey":…}`.
pub open spec fn qr_payload_text(name: Seq<char>, secret: Seq<char>) -> Seq<char> {
    "{\"deviceName\":"@ + json_quoted(name) + ",\"secretKey\":"@ + json_quoted(secret) + seq!['}']
}

pub fn qr_payload(name: &str, secret: &str) -> (r: String)
    ensures
        r@ == qr_payload_text(name@, secret@),
{
    let a = concat_str("{\"deviceName\":", json_string(name).as_str());
    let b = concat_str(a.as_str(), ",\"secretKey\":");
    let c = concat_str(b.as_str(), json_string(secret).as_str());
    let r = concat_str(c.as_str(), "}");
    proof {
        reveal_strlit("}");
        assert(r@ =~= qr_payload_text(name@, secret@));
    }
    r
}

/// What a QR claiming request sets on the device and encodes: a fresh secret of 32
/// letters and digits, valid for a day from `now`, and the payload to draw.
pub struct QrClaim {
    pub secret: String,
    pub expiry: i64,
    pub payload: String,
}

/// The QR claiming step before the secret is stored: tenant and system
/// administrators only; the device must exist and, but for a system administrator,
/// belong to the caller's tenant.
pub fn qr_claim(ctx: &SecurityContext, device: Option<Device>, device_id: u128, now: i64) -> (r: Result<QrClaim, ApiError>)
    requires
        now + day_ms() <= i64::MAX,
    ensures
        !(ctx.tenant_admin() || ctx.sys_admin()) ==> (r matches Err(ApiError::Forbidden(m)) && m@ == "TENANT_ADMIN required to generate QR code"@),
        (ctx.tenant_admin() || ctx.sys_admin()) && device is None ==> (r matches Err(ApiError::NotFound(m))
            && m@ == not_found_text("Device"@, device_id, "not found"@)),
        (ctx.tenant_admin() || ctx.sys_admin()) ==> (device matches Some(d) ==> {
            &&& (d.tenant_id == ctx.tenant_id || ctx.sys_admin()) <==> r is Ok
            &&& r matches Ok(q) ==> {
                &&& q.secret@.len() == 32
                &&& (forall|i: int| 0 <= i < 32 ==> is_token_char(#[trigger] q.secret@[i]))
                &&& q.expiry == now + day_ms()
                &&& q.payload@ == qr_payload_text(d.name@, q.secret@)
            }
        }),
{
    require_tenant_or_sys_admin(ctx, "TENANT_ADMIN required to generate QR code")?;
    let d = found_or_not_found(device, "Device", device_id, "not found")?;
    check_device_tenant(ctx, d.tenant_id)?;
    let secret = random_alphanumeric_string(32);
    let expiry = now + 86_400_000;
    let payload = qr_payload(d.name.as_str(), secret.as_str());
    Ok(QrClaim { secret, expiry, payload })
}

/// The PNG of a claiming payload, at least 200 pixels square.
pub fn qr_image(payload: &str) -> (r: Result<Vec<u8>, ApiError>)
    ensures
        qr_png(payload@, 200) matches Some(b) ==> r matches Ok(v) && v@ == b,
        qr_png(payload@, 200) is None ==> (r matches Err(ApiError::Internal(_))),
{
    match render_qr_png(payload, 200) {
        Ok(b) => Ok(b),
        Err(QrRenderError::Encode(e)) => Err(ApiError::Internal(concat_str("QR encode failed: ", e.as_str()))),
        Err(QrRenderError::Png(e)) => Err(ApiError::Internal(concat_str("PNG encode failed: ", e.as_str()))),
    }
}

// ── Export ──────────────────────────────────────────────────────────────────

/// The export records of devices: the header, then one record per device.
pub open spec fn device_export_rows(devices: Seq<Device>) -> Seq<Seq<Seq<char>>> {
    seq![seq!["name"@, "type"@, "label"@, "deviceProfileId"@, "createdTime"@]] + devices.map_values(|d: Device|
        export_fields(d.name@, d.device_type@, match d.label { Some(l) => Some(l@), None => None }, d.device_profile_id, d.created_time))
}

/// The CSV export of devices.
pub fn export_devices_csv(devices: &Vec<Device>) -> (r: Result<Vec<u8>, ApiError>)
    ensures
        r matches Ok(b) && b@ == csv_lines(device_export_rows(devices@)),
{
    let mut rows: Vec<Vec<String>> = Vec::new();
    rows.push(export_header("deviceProfileId"));
    let mut i: usize = 0;
    while i < devices.len()
        invariant
            i <= devices@.len(),
            rows_view(rows@) == device_export_rows(devices@.subrange(0, i as int)),
        decreases devices@.len() - i,
    {
        let d = &devices[i];
        let row = export_row(&d.name, &d.device_type, &d.label, d.device_profile_id, d.created_time);
        let ghost before = rows@;
        rows.push(row);
        proof {
            let f = |d: Device| export_fields(d.name@, d.device_type@, match d.label { Some(l) => Some(l@), None => None }, d.device_profile_id, d.created_time);
            let g = |r: Vec<String>| fields_view(r@);
            assert(devices@.subrange(0, i + 1) =~= devices@.subrange(0, i as int).push(devices@[i as int]));
            assert(devices@.subrange(0, i as int).push(devices@[i as int]).map_values(f)
                =~= devices@.subrange(0, i as int).map_values(f).push(f(devices@[i as int])));
            assert(before.push(row).map_values(g) =~= before.map_values(g).push(g(row)));
            assert(rows_view(rows@) =~= device_export_rows(devices@.subrange(0, i + 1)));
        }
        i = i + 1;
    }
    assert(devices@.subrange(0, devices@.len() as int) =~= devices@);
    proof {
        let all = rows_view(rows@);
        assert forall|k: int| 0 <= k < all.len() implies (#[trigger] all[k]).len() == all[0].len() by {
            assert(all[k].len() == 5);
            assert(all[0].len() == 5);
        }
        assert(same_width(all));
    }
    write_csv(&rows)
}

} // verus!
