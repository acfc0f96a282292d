//! Device profiles: their transport and provisioning kinds as the API names them,
//! answers, the save request and the list filtered by transport.

use vstd::prelude::*;
use crate::error::ApiError;
use crate::ids::IdResponse;
use crate::paging::{page_link_or_default, PageLink};
use crate::text::{
    all_ascii, ascii_lower, ascii_upper, chars_of, eq_ignore_ascii_case, eq_ignore_case, str_eq, to_upper,
    upper_of,
};

verus! {

#[derive(PartialEq, Eq, Structural, Clone, Copy, Debug)]
pub enum DeviceProfileType {
    Default,
}

#[derive(PartialEq, Eq, Structural, Clone, Copy, Debug)]
pub enum DeviceTransportType {
    Default,
    Mqtt,
    Coap,
    Lwm2m,
    Snmp,
}

#[derive(PartialEq, Eq, Structural, Clone, Copy, Debug)]
pub enum DeviceProvisionType {
    Disabled,
    AllowCreateNewDevices,
    CheckPreProvisionedDevices,
    X509CertificateChain,
}

/// The variant name of a transport type (its `Debug` form).
pub open spec fn transport_variant_name(t: DeviceTransportType) -> Seq<char> {
    match t {
        DeviceTransportType::Default => "Default"@,
        DeviceTransportType::Mqtt => "Mqtt"@,
        DeviceTransportType::Coap => "Coap"@,
        DeviceTransportType::Lwm2m => "Lwm2m"@,
        DeviceTransportType::Snmp => "Snmp"@,
    }
}

/// The name of a transport type in answers: its variant name upper-cased.
pub open spec fn transport_type_name(t: DeviceTransportType) -> Seq<char> {
    match t {
        DeviceTransportType::Default => "DEFAULT"@,
        DeviceTransportType::Mqtt => "MQTT"@,
        DeviceTransportType::Coap => "COAP"@,
        DeviceTransportType::Lwm2m => "LWM2M"@,
        DeviceTransportType::Snmp => "SNMP"@,
    }
}

pub open spec fn provision_type_name(t: DeviceProvisionType) -> Seq<char> {
    match t {
        DeviceProvisionType::Disabled => "DISABLED"@,
        DeviceProvisionType::AllowCreateNewDevices => "ALLOW_CREATE_NEW_DEVICES"@,
        DeviceProvisionType::CheckPreProvisionedDevices => "CHECK_PRE_PROVISIONED_DEVICES"@,
        DeviceProvisionType::X509CertificateChain => "X509_CERTIFICATE_CHAIN"@,
    }
}

pub open spec fn profile_type_name(t: DeviceProfileType) -> Seq<char> {
    "DEFAULT"@
}

/// The transport type an upper-cased name stands for; others are `Default`.
pub open spec fn transport_of_upper(u: Seq<char>) -> DeviceTransportType {
    if u == "MQTT"@ {
        DeviceTransportType::Mqtt
    } else if u == "COAP"@ {
        DeviceTransportType::Coap
    } else if u == "LWM2M"@ {
        DeviceTransportType::Lwm2m
    } else if u == "SNMP"@ {
        DeviceTransportType::Snmp
    } else {
        DeviceTransportType::Default
    }
}

/// The provisioning type an upper-cased name stands for; others are `Disabled`.
pub open spec fn provision_of_upper(u: Seq<char>) -> DeviceProvisionType {
    if u == "ALLOW_CREATE_NEW_DEVICES"@ {
        DeviceProvisionType::AllowCreateNewDevices
    } else if u == "CHECK_PRE_PROVISIONED_DEVICES"@ {
        DeviceProvisionType::CheckPreProvisionedDevices
    } else if u == "X509_CERTIFICATE_CHAIN"@ {
        DeviceProvisionType::X509CertificateChain
    } else {
        DeviceProvisionType::Disabled
    }
}

pub fn transport_type_str(t: DeviceTransportType) -> (r: &'static str)
    ensures
        r@ == transport_type_name(t),
{
    match t {
        DeviceTransportType::Default => "DEFAULT",
        DeviceTransportType::Mqtt => "MQTT",
        DeviceTransportType::Coap => "COAP",
        DeviceTransportType::Lwm2m => "LWM2M",
        DeviceTransportType::Snmp => "SNMP",
    }
}

fn transport_variant_str(t: DeviceTransportType) -> (r: &'static str)
    ensures
        r@ == transport_variant_name(t),
{
    match t {
        DeviceTransportType::Default => "Default",
        DeviceTransportType::Mqtt => "Mqtt",
        DeviceTransportType::Coap => "Coap",
        DeviceTransportType::Lwm2m => "Lwm2m",
        DeviceTransportType::Snmp => "Snmp",
    }
}

pub fn provision_type_str(t: DeviceProvisionType) -> (r: &'static str)
    ensures
        r@ == provision_type_name(t),
{
    match t {
        DeviceProvisionType::Disabled => "DISABLED",
        DeviceProvisionType::AllowCreateNewDevices => "ALLOW_CREATE_NEW_DEVICES",
        DeviceProvisionType::CheckPreProvisionedDevices => "CHECK_PRE_PROVISIONED_DEVICES",
        DeviceProvisionType::X509CertificateChain => "X509_CERTIFICATE_CHAIN",
    }
}

/// Reads a transport type name in any letter case.
pub fn parse_transport_type_str(s: &str) -> (r: DeviceTransportType)
    ensures
        r == transport_of_upper(upper_of(s@)),
{
    let u = to_upper(s);
    let u = u.as_str();
    if str_eq(u, "MQTT") {
        DeviceTransportType::Mqtt
    } else if str_eq(u, "COAP") {
        DeviceTransportType::Coap
    } else if str_eq(u, "LWM2M") {
        DeviceTransportType::Lwm2m
    } else if str_eq(u, "SNMP") {
        DeviceTransportType::Snmp
    } else {
        DeviceTransportType::Default
    }
}

/// Reads a provisioning type name in any letter case.
pub fn parse_provision_type_str(s: &str) -> (r: DeviceProvisionType)
    ensures
        r == provision_of_upper(upper_of(s@)),
{
    let u = to_upper(s);
    let u = u.as_str();
    if str_eq(u, "ALLOW_CREATE_NEW_DEVICES") {
        DeviceProvisionType::AllowCreateNewDevices
    } else if str_eq(u, "CHECK_PRE_PROVISIONED_DEVICES") {
        DeviceProvisionType::CheckPreProvisionedDevices
    } else if str_eq(u, "X509_CERTIFICATE_CHAIN") {
        DeviceProvisionType::X509CertificateChain
    } else {
        DeviceProvisionType::Disabled
    }
}

proof fn lemma_capitals_upper(s: Seq<char>)
    requires
        forall|i: int| 0 <= i < s.len() ==> (('A' <= #[trigger] s[i] <= 'Z') || s[i] == '_' || ('0' <= s[i] <= '9')),
    ensures
        upper_of(s) == s,
{
    assert(ascii_upper(s) =~= s);
}

/// Every transport type reads back from its name.
pub proof fn lemma_transport_name_round_trip(t: DeviceTransportType)
    ensures
        transport_of_upper(upper_of(transport_type_name(t))) == t,
{
    reveal_strlit("DEFAULT");
    reveal_strlit("MQTT");
    reveal_strlit("COAP");
    reveal_strlit("LWM2M");
    reveal_strlit("SNMP");
    lemma_capitals_upper(transport_type_name(t));
    assert("MQTT"@[0] == 'M' && "COAP"@[0] == 'C' && "SNMP"@[0] == 'S' && "LWM2M"@[0] == 'L' && "DEFAULT"@[0] == 'D');
}

/// Every provisioning type reads back from its name.
pub proof fn lemma_provision_name_round_trip(t: DeviceProvisionType)
    ensures
        provision_of_upper(upper_of(provision_type_name(t))) == t,
{
    reveal_strlit("DISABLED");
    reveal_strlit("ALLOW_CREATE_NEW_DEVICES");
    reveal_strlit("CHECK_PRE_PROVISIONED_DEVICES");
    reveal_strlit("X509_CERTIFICATE_CHAIN");
    lemma_capitals_upper(provision_type_name(t));
    assert("DISABLED"@[0] == 'D' && "ALLOW_CREATE_NEW_DEVICES"@[0] == 'A' && "CHECK_PRE_PROVISIONED_DEVICES"@[0] == 'C'
        && "X509_CERTIFICATE_CHAIN"@[0] == 'X');
}

/// The upper-cased variant name of a transport type is its answer name.
pub proof fn lemma_transport_variant_upper(t: DeviceTransportType)
    ensures
        ascii_upper(transport_variant_name(t)) == transport_type_name(t),
        all_ascii(transport_variant_name(t)),
{
    reveal_strlit("Default");
    reveal_strlit("Mqtt");
    reveal_strlit("Coap");
    reveal_strlit("Lwm2m");
    reveal_strlit("Snmp");
    reveal_strlit("DEFAULT");
    reveal_strlit("MQTT");
    reveal_strlit("COAP");
    reveal_strlit("LWM2M");
    reveal_strlit("SNMP");
    assert(ascii_upper(transport_variant_name(t)) =~= transport_type_name(t));
}

// ── Profiles and answers ────────────────────────────────────────────────────

/// A stored device profile.
pub struct DeviceProfile {
    pub id: u128,
    pub created_time: i64,
    pub tenant_id: u128,
    pub name: String,
    pub description: Option<String>,
    pub image: Option<String>,
    pub is_default: bool,
    pub device_profile_type: DeviceProfileType,
    pub transport_type: DeviceTransportType,
    pub provision_type: DeviceProvisionType,
    pub profile_data: Option<serde_json::Value>,
    pub default_rule_chain_id: Option<u128>,
    pub default_dashboard_id: Option<u128>,
    pub default_queue_name: Option<String>,
    pub firmware_id: Option<u128>,
    pub software_id: Option<u128>,
    pub version: i64,
}

pub struct DeviceProfileResponse {
    pub id: IdResponse,
    pub created_time: i64,
    pub tenant_id: IdResponse,
    pub name: String,
    pub description: Option<String>,
    pub image: Option<String>,
    pub is_default: bool,
    pub profile_type: String,
    pub transport_type: String,
    pub provision_type: String,
    pub profile_data: Option<serde_json::Value>,
    pub default_rule_chain_id: Option<IdResponse>,
    pub default_dashboard_id: Option<IdResponse>,
    pub default_queue_name: Option<String>,
    pub firmware_id: Option<IdResponse>,
    pub software_id: Option<IdResponse>,
}

pub open spec fn tagged(r: Option<IdResponse>, id: Option<u128>, tag: Seq<char>) -> bool {
    match r {
        Some(i) => id == Some(i.id) && i.entity_type@ == tag,
        None => id is None,
    }
}

fn tag_id(id: Option<u128>, tag: &str) -> (r: Option<IdResponse>)
    ensures
        tagged(r, id, tag@),
{
    match id {
        Some(i) => Some(IdResponse::new(i, tag)),
        None => None,
    }
}

impl DeviceProfileResponse {
    pub fn from_profile(p: DeviceProfile) -> (r: Self)
        ensures
            r.id.id == p.id && r.id.entity_type@ == "DEVICE_PROFILE"@,
            r.created_time == p.created_time,
            r.tenant_id.id == p.tenant_id && r.tenant_id.entity_type@ == "TENANT"@,
            r.name == p.name && r.description == p.description && r.image == p.image,
            r.is_default == p.is_default,
            r.profile_type@ == profile_type_name(p.device_profile_type),
            r.transport_type@ == transport_type_name(p.transport_type),
            r.provision_type@ == provision_type_name(p.provision_type),
            r.profile_data == p.profile_data,
            tagged(r.default_rule_chain_id, p.default_rule_chain_id, "RULE_CHAIN"@),
            tagged(r.default_dashboard_id, p.default_dashboard_id, "DASHBOARD"@),
            r.default_queue_name == p.default_queue_name,
            tagged(r.firmware_id, p.firmware_id, "OTA_PACKAGE"@),
            tagged(r.software_id, p.software_id, "OTA_PACKAGE"@),
    {
        DeviceProfileResponse {
            id: IdResponse::new(p.id, "DEVICE_PROFILE"),
            created_time: p.created_time,
            tenant_id: IdResponse::tenant(p.tenant_id),
            name: p.name,
            description: p.description,
            image: p.image,
            is_default: p.is_default,
            profile_type: "DEFAULT".to_owned(),
            transport_type: transport_type_str(p.transport_type).to_owned(),
            provision_type: provision_type_str(p.provision_type).to_owned(),
            profile_data: p.profile_data,
            default_rule_chain_id: tag_id(p.default_rule_chain_id, "RULE_CHAIN"),
            default_dashboard_id: tag_id(p.default_dashboard_id, "DASHBOARD"),
            default_queue_name: p.default_queue_name,
            firmware_id: tag_id(p.firmware_id, "OTA_PACKAGE"),
            software_id: tag_id(p.software_id, "OTA_PACKAGE"),
        }
    }
}

/// The short form of a device profile: id, name, whether default, transport.
pub struct DeviceProfileInfo {
    pub id: IdResponse,
    pub name: String,
    pub is_default: bool,
    pub transport_type: String,
}

impl DeviceProfileInfo {
    pub fn from_profile(p: DeviceProfile) -> (r: Self)
        ensures
            r.id.id == p.id && r.id.entity_type@ == "DEVICE_PROFILE"@,
            r.name == p.name,
            r.is_default == p.is_default,
            r.transport_type@ == transport_type_name(p.transport_type),
    {
        DeviceProfileInfo {
            id: IdResponse::new(p.id, "DEVICE_PROFILE"),
            name: p.name,
            is_default: p.is_default,
            transport_type: transport_type_str(p.transport_type).to_owned(),
        }
    }
}

/// A profile's id and name.
pub struct ProfileEntityInfo {
    pub id: IdResponse,
    pub name: String,
}

pub fn profile_entity_info(id: u128, name: String) -> (r: ProfileEntityInfo)
    ensures
        r.id.id == id && r.id.entity_type@ == "DEVICE_PROFILE"@ && r.name == name,
{
    ProfileEntityInfo { id: IdResponse::new(id, "DEVICE_PROFILE"), name }
}

// ── Lists ───────────────────────────────────────────────────────────────────

/// Query of the profile short-form list, with an optional transport filter.
pub struct DeviceProfileInfosParams {
    pub page_size: Option<i64>,
    pub page: Option<i64>,
    pub text_search: Option<String>,
    pub transport_type: Option<String>,
}

impl DeviceProfileInfosParams {
    pub fn page_link(&self) -> (r: PageLink)
        ensures
            r.page == (match self.page { Some(p) => p, None => 0 }),
            r.page_size == (match self.page_size { Some(s) => s, None => 10 }),
    {
        let text = match &self.text_search {
            Some(t) => Some(t.clone()),
            None => None,
        };
        page_link_or_default(self.page, self.page_size, text)
    }
}

/// A profile passes the transport filter when there is none, or when its transport's
/// variant name equals the filter ignoring ASCII case.
pub open spec fn passes_transport(p: DeviceProfile, filter: Option<Seq<char>>) -> bool {
    match filter {
        Some(f) => eq_ignore_ascii_case(transport_variant_name(p.transport_type), f),
        None => true,
    }
}

pub open spec fn filtered_infos(ps: Seq<DeviceProfile>, filter: Option<Seq<char>>) -> Seq<DeviceProfile>
    decreases ps.len(),
{
    if ps.len() == 0 {
        Seq::<DeviceProfile>::empty()
    } else {
        let init = filtered_infos(ps.drop_last(), filter);
        if passes_transport(ps.last(), filter) { init.push(ps.last()) } else { init }
    }
}

pub open spec fn info_of(p: DeviceProfile, i: DeviceProfileInfo) -> bool {
    &&& i.id.id == p.id && i.id.entity_type@ == "DEVICE_PROFILE"@
    &&& i.name == p.name && i.is_default == p.is_default
    &&& i.transport_type@ == transport_type_name(p.transport_type)
}

/// The short form of a profile read in place.
pub fn info_of_ref(p: &DeviceProfile) -> (r: DeviceProfileInfo)
    ensures
        info_of(*p, r),
{
    DeviceProfileInfo {
        id: IdResponse::new(p.id, "DEVICE_PROFILE"),
        name: p.name.clone(),
        is_default: p.is_default,
        transport_type: transport_type_str(p.transport_type).to_owned(),
    }
}

/// The short forms of the profiles that pass the transport filter, in order.
pub fn filter_by_transport(profiles: &Vec<DeviceProfile>, filter: &Option<String>) -> (r: Vec<DeviceProfileInfo>)
    ensures
        r@.len() == filtered_infos(profiles@, match filter { Some(f) => Some(f@), None => None }).len(),
        forall|k: int| 0 <= k < r@.len() ==> info_of(filtered_infos(profiles@,
            match filter { Some(f) => Some(f@), None => None })[k], #[trigger] r@[k]),
{
    let ghost f = match filter { Some(x) => Some(x@), None => None::<Seq<char>> };
    let ghost all = profiles@;
    let filter_chars: Option<Vec<char>> = match filter {
        Some(x) => Some(chars_of(x.as_str())),
        None => None,
    };
    let mut out: Vec<DeviceProfileInfo> = Vec::new();
    let mut i: usize = 0;
    while i < profiles.len()
        invariant
            i <= all.len(),
            all == profiles@,
            out@.len() == filtered_infos(all.subrange(0, i as int), f).len(),
            forall|k: int| 0 <= k < out@.len() ==> info_of(filtered_infos(all.subrange(0, i as int), f)[k], #[trigger] out@[k]),
            filter_chars matches Some(v) ==> f == Some(v@),
            filter_chars is None ==> f is None,
        decreases all.len() - i,
    {
        let p = &profiles[i];
        proof {
            assert(all.subrange(0, i + 1).drop_last() =~= all.subrange(0, i as int));
        }
        let pass = match &filter_chars {
            Some(v) => {
                let name = chars_of(transport_variant_str(p.transport_type));
                eq_ignore_case(name.as_slice(), v.as_slice())
            },
            None => true,
        };
        if pass {
            out.push(info_of_ref(p));
        }
        i = i + 1;
    }
    assert(all.subrange(0, all.len() as int) =~= all);
    out
}

// ── Saving ──────────────────────────────────────────────────────────────────

/// A device profile save request.
pub struct SaveDeviceProfileRequest {
    pub id: Option<IdResponse>,
    pub name: String,
    pub description: Option<String>,
    pub image: Option<String>,
    pub profile_type: Option<String>,
    pub transport_type: Option<String>,
    pub provision_type: Option<String>,
    pub profile_data: Option<serde_json::Value>,
    pub default_rule_chain_id: Option<IdResponse>,
    pub default_dashboard_id: Option<IdResponse>,
    pub default_queue_name: Option<String>,
    pub firmware_id: Option<IdResponse>,
    pub software_id: Option<IdResponse>,
}

/// Id, creation time and version of a saved profile: an update keeps those of the
/// stored profile, which must exist; a new profile gets `fresh_id`, `now` and
/// version 1.
pub fn profile_identity(req_id: Option<u128>, stored: Option<(i64, i64)>, now: i64, fresh_id: u128) -> (r: Result<(u128, i64, i64), ApiError>)
    ensures
        req_id matches Some(i) ==> (match stored {
            Some((c, v)) => r == Ok::<(u128, i64, i64), ApiError>((i, c, v)),
            None => r matches Err(ApiError::NotFound(m)) && m@ == "Entity not found"@,
        }),
        req_id is None ==> r == Ok::<(u128, i64, i64), ApiError>((fresh_id, now, 1)),
{
    match req_id {
        Some(i) => match stored {
            Some((c, v)) => Ok((i, c, v)),
            None => Err(ApiError::NotFound("Entity not found".to_owned())),
        },
        None => Ok((fresh_id, now, 1)),
    }
}

pub open spec fn ref_of(o: Option<IdResponse>) -> Option<u128> {
    match o { Some(i) => Some(i.id), None => None }
}

/// The profile a save request makes for the caller's tenant: never the default one,
/// transport `DEFAULT` and provisioning `DISABLED` unless named.
pub fn profile_from_request(tenant_id: u128, req: SaveDeviceProfileRequest, id: u128, created_time: i64, version: i64) -> (p: DeviceProfile)
    ensures
        p.id == id && p.created_time == created_time && p.tenant_id == tenant_id && p.version == version,
        p.name == req.name && p.description == req.description && p.image == req.image,
        !p.is_default,
        p.device_profile_type == DeviceProfileType::Default,
        p.transport_type == transport_of_upper(upper_of(match req.transport_type { Some(t) => t@, None => "DEFAULT"@ })),
        p.provision_type == provision_of_upper(upper_of(match req.provision_type { Some(t) => t@, None => "DISABLED"@ })),
        p.profile_data == req.profile_data,
        p.default_rule_chain_id == ref_of(req.default_rule_chain_id),
        p.default_dashboard_id == ref_of(req.default_dashboard_id),
        p.default_queue_name == req.default_queue_name,
        p.firmware_id == ref_of(req.firmware_id),
        p.software_id == ref_of(req.software_id),
{
    let transport = match &req.transport_type {
        Some(t) => parse_transport_type_str(t.as_str()),
        None => parse_transport_type_str("DEFAULT"),
    };
    let provision = match &req.provision_type {
        Some(t) => parse_provision_type_str(t.as_str()),
        None => parse_provision_type_str("DISABLED"),
    };
    DeviceProfile {
        id,
        created_time,
        tenant_id,
        name: req.name,
        description: req.description,
        image: req.image,
        is_default: false,
        device_profile_type: DeviceProfileType::Default,
        transport_type: transport,
        provision_type: provision,
        profile_data: req.profile_data,
        default_rule_chain_id: match req.default_rule_chain_id { Some(r) => Some(r.id), None => None },
        default_dashboard_id: match req.default_dashboard_id { Some(r) => Some(r.id), None => None },
        default_queue_name: req.default_queue_name,
        firmware_id: match req.firmware_id { Some(r) => Some(r.id), None => None },
        software_id: match req.software_id { Some(r) => Some(r.id), None => None },
        version,
    }
}

/// A save answers `201 Created` for a new profile (version 1), `200 OK` otherwise.
pub fn save_created(version: i64) -> (r: bool)
    ensures
        r == (version == 1),
{
    version == 1
}

} // verus!
