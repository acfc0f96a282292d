//! Alarms: severities and entity types as the API names them, the alarm record
//! a save request makes, its answer form, the notification it sends, comments,
//! and the paging of the alarm queries.

use vstd::prelude::*;
use crate::common::{id_or_new, now_millis, uuid_text, uuid_to_string};
use crate::error::ApiError;
use crate::ids::IdResponse;
use crate::paging::{page_link_or_default, PageLink};
use crate::random::new_uuid_v4;
use crate::text::{all_ascii, ascii_upper, concat_str, str_eq, to_upper, upper_of};

verus! {

// ── Severities ──────────────────────────────────────────────────────────────

#[derive(PartialEq, Eq, Structural, Clone, Copy, Debug)]
pub enum AlarmSeverity {
    Critical,
    Major,
    Minor,
    Warning,
    Indeterminate,
}

/// The name of a severity in answers.
pub open spec fn severity_name(s: AlarmSeverity) -> Seq<char> {
    match s {
        AlarmSeverity::Critical => "CRITICAL"@,
        AlarmSeverity::Major => "MAJOR"@,
        AlarmSeverity::Minor => "MINOR"@,
        AlarmSeverity::Warning => "WARNING"@,
        AlarmSeverity::Indeterminate => "INDETERMINATE"@,
    }
}

/// The severity an upper-cased name stands for; any other name is `Indeterminate`.
pub open spec fn severity_of_upper(u: Seq<char>) -> AlarmSeverity {
    if u == "CRITICAL"@ {
        AlarmSeverity::Critical
    } else if u == "MAJOR"@ {
        AlarmSeverity::Major
    } else if u == "MINOR"@ {
        AlarmSeverity::Minor
    } else if u == "WARNING"@ {
        AlarmSeverity::Warning
    } else {
        AlarmSeverity::Indeterminate
    }
}

/// The name of a severity.
pub fn severity_str(s: AlarmSeverity) -> (r: &'static str)
    ensures
        r@ == severity_name(s),
{
    match s {
        AlarmSeverity::Critical => "CRITICAL",
        AlarmSeverity::Major => "MAJOR",
        AlarmSeverity::Minor => "MINOR",
        AlarmSeverity::Warning => "WARNING",
        AlarmSeverity::Indeterminate => "INDETERMINATE",
    }
}

/// Reads a severity name in any letter case; unknown names give `Indeterminate`.
pub fn parse_severity_str(s: &str) -> (r: AlarmSeverity)
    ensures
        r == severity_of_upper(upper_of(s@)),
{
    let u = to_upper(s);
    let u = u.as_str();
    if str_eq(u, "CRITICAL") {
        AlarmSeverity::Critical
    } else if str_eq(u, "MAJOR") {
        AlarmSeverity::Major
    } else if str_eq(u, "MINOR") {
        AlarmSeverity::Minor
    } else if str_eq(u, "WARNING") {
        AlarmSeverity::Warning
    } else {
        AlarmSeverity::Indeterminate
    }
}

// ── Entity types ────────────────────────────────────────────────────────────

#[derive(PartialEq, Eq, Structural, Clone, Copy, Debug)]
pub enum EntityType {
    Tenant,
    Customer,
    User,
    Dashboard,
    Asset,
    Device,
    AlarmEntity,
    RuleChain,
    RuleNode,
    EntityView,
    TenantProfile,
    DeviceProfile,
    AssetProfile,
    Edge,
    OtaPackage,
}

/// The name of an entity type in answers.
pub open spec fn entity_type_name(t: EntityType) -> Seq<char> {
    match t {
        EntityType::Tenant => "TENANT"@,
        EntityType::Customer => "CUSTOMER"@,
        EntityType::User => "USER"@,
        EntityType::Dashboard => "DASHBOARD"@,
        EntityType::Asset => "ASSET"@,
        EntityType::Device => "DEVICE"@,
        EntityType::AlarmEntity => "ALARM"@,
        EntityType::RuleChain => "RULE_CHAIN"@,
        EntityType::RuleNode => "RULE_NODE"@,
        EntityType::EntityView => "ENTITY_VIEW"@,
        EntityType::TenantProfile => "TENANT_PROFILE"@,
        EntityType::DeviceProfile => "DEVICE_PROFILE"@,
        EntityType::AssetProfile => "ASSET_PROFILE"@,
        EntityType::Edge => "EDGE"@,
        EntityType::OtaPackage => "OTA_PACKAGE"@,
    }
}

/// The entity type an upper-cased name stands for when an alarm names its
/// originator; `ALARM`, `RULE_NODE` and unknown names all give `Device`.
pub open spec fn entity_type_of_upper(u: Seq<char>) -> EntityType {
    if u == "TENANT"@ {
        EntityType::Tenant
    } else if u == "CUSTOMER"@ {
        EntityType::Customer
    } else if u == "USER"@ {
        EntityType::User
    } else if u == "DASHBOARD"@ {
        EntityType::Dashboard
    } else if u == "ASSET"@ {
        EntityType::Asset
    } else if u == "RULE_CHAIN"@ {
        EntityType::RuleChain
    } else if u == "ENTITY_VIEW"@ {
        EntityType::EntityView
    } else if u == "TENANT_PROFILE"@ {
        EntityType::TenantProfile
    } else if u == "DEVICE_PROFILE"@ {
        EntityType::DeviceProfile
    } else if u == "ASSET_PROFILE"@ {
        EntityType::AssetProfile
    } else if u == "EDGE"@ {
        EntityType::Edge
    } else if u == "OTA_PACKAGE"@ {
        EntityType::OtaPackage
    } else {
        EntityType::Device
    }
}

/// Reads an entity type name in any letter case.
pub fn parse_entity_type_str(s: &str) -> (r: EntityType)
    ensures
        r == entity_type_of_upper(upper_of(s@)),
{
    let u = to_upper(s);
    let u = u.as_str();
    if str_eq(u, "TENANT") {
        EntityType::Tenant
    } else if str_eq(u, "CUSTOMER") {
        EntityType::Customer
    } else if str_eq(u, "USER") {
        EntityType::User
    } else if str_eq(u, "DASHBOARD") {
        EntityType::Dashboard
    } else if str_eq(u, "ASSET") {
        EntityType::Asset
    } else if str_eq(u, "RULE_CHAIN") {
        EntityType::RuleChain
    } else if str_eq(u, "ENTITY_VIEW") {
        EntityType::EntityView
    } else if str_eq(u, "TENANT_PROFILE") {
        EntityType::TenantProfile
    } else if str_eq(u, "DEVICE_PROFILE") {
        EntityType::DeviceProfile
    } else if str_eq(u, "ASSET_PROFILE") {
        EntityType::AssetProfile
    } else if str_eq(u, "EDGE") {
        EntityType::Edge
    } else if str_eq(u, "OTA_PACKAGE") {
        EntityType::OtaPackage
    } else {
        EntityType::Device
    }
}

/// The name of an entity type.
pub fn entity_type_str(t: &EntityType) -> (r: &'static str)
    ensures
        r@ == entity_type_name(*t),
{
    match t {
        EntityType::Tenant => "TENANT",
        EntityType::Customer => "CUSTOMER",
        EntityType::User => "USER",
        EntityType::Dashboard => "DASHBOARD",
        EntityType::Asset => "ASSET",
        EntityType::Device => "DEVICE",
        EntityType::AlarmEntity => "ALARM",
        EntityType::RuleChain => "RULE_CHAIN",
        EntityType::RuleNode => "RULE_NODE",
        EntityType::EntityView => "ENTITY_VIEW",
        EntityType::TenantProfile => "TENANT_PROFILE",
        EntityType::DeviceProfile => "DEVICE_PROFILE",
        EntityType::AssetProfile => "ASSET_PROFILE",
        EntityType::Edge => "EDGE",
        EntityType::OtaPackage => "OTA_PACKAGE",
    }
}

proof fn lemma_upper_of_capitals(s: Seq<char>)
    requires
        forall|i: int| 0 <= i < s.len() ==> ('A' <= #[trigger] s[i] <= 'Z' || s[i] == '_'),
    ensures
        all_ascii(s),
        ascii_upper(s) == s,
{
    assert(ascii_upper(s) =~= s);
}

/// Every severity name reads back as that severity.
pub proof fn lemma_severity_name_round_trip(s: AlarmSeverity)
    ensures
        upper_of(severity_name(s)) == severity_name(s),
        severity_of_upper(upper_of(severity_name(s))) == s,
{
    reveal_strlit("CRITICAL");
    reveal_strlit("MAJOR");
    reveal_strlit("MINOR");
    reveal_strlit("WARNING");
    reveal_strlit("INDETERMINATE");
    lemma_upper_of_capitals(severity_name(s));
    assert("CRITICAL"@[0] == 'C' && "CRITICAL"@[1] == 'R');
    assert("MAJOR"@[0] == 'M' && "MAJOR"@[1] == 'A');
    assert("MINOR"@[0] == 'M' && "MINOR"@[1] == 'I');
    assert("WARNING"@[0] == 'W' && "WARNING"@[1] == 'A');
    assert("INDETERMINATE"@[0] == 'I' && "INDETERMINATE"@[1] == 'N');
}

/// Every entity type but `AlarmEntity` and `RuleNode` reads back from its name;
/// those two read back as `Device`.
pub proof fn lemma_entity_type_name_round_trip(t: EntityType)
    ensures
        upper_of(entity_type_name(t)) == entity_type_name(t),
        t != EntityType::AlarmEntity && t != EntityType::RuleNode ==> entity_type_of_upper(upper_of(entity_type_name(t))) == t,
        t == EntityType::AlarmEntity || t == EntityType::RuleNode ==> entity_type_of_upper(upper_of(entity_type_name(t))) == EntityType::Device,
{
    reveal_strlit("TENANT");
    reveal_strlit("CUSTOMER");
    reveal_strlit("USER");
    reveal_strlit("DASHBOARD");
    reveal_strlit("ASSET");
    reveal_strlit("DEVICE");
    reveal_strlit("ALARM");
    reveal_strlit("RULE_CHAIN");
    reveal_strlit("RULE_NODE");
    reveal_strlit("ENTITY_VIEW");
    reveal_strlit("TENANT_PROFILE");
    reveal_strlit("DEVICE_PROFILE");
    reveal_strlit("ASSET_PROFILE");
    reveal_strlit("EDGE");
    reveal_strlit("OTA_PACKAGE");
    lemma_upper_of_capitals(entity_type_name(t));
    assert("TENANT"@[0] == 'T' && "TENANT"@[1] == 'E');
    assert("CUSTOMER"@[0] == 'C' && "CUSTOMER"@[1] == 'U');
    assert("USER"@[0] == 'U' && "USER"@[1] == 'S');
    assert("DASHBOARD"@[0] == 'D' && "DASHBOARD"@[1] == 'A');
    assert("ASSET"@[0] == 'A' && "ASSET"@[1] == 'S');
    assert("DEVICE"@[0] == 'D' && "DEVICE"@[1] == 'E');
    assert("ALARM"@[0] == 'A' && "ALARM"@[1] == 'L');
    assert("RULE_CHAIN"@[0] == 'R' && "RULE_CHAIN"@[1] == 'U');
    assert("RULE_NODE"@[0] == 'R' && "RULE_NODE"@[1] == 'U');
    assert("ENTITY_VIEW"@[0] == 'E' && "ENTITY_VIEW"@[1] == 'N');
    assert("TENANT_PROFILE"@[0] == 'T' && "TENANT_PROFILE"@[1] == 'E');
    assert("DEVICE_PROFILE"@[0] == 'D' && "DEVICE_PROFILE"@[1] == 'E');
    assert("ASSET_PROFILE"@[0] == 'A' && "ASSET_PROFILE"@[1] == 'S');
    assert("EDGE"@[0] == 'E' && "EDGE"@[1] == 'D');
    assert("OTA_PACKAGE"@[0] == 'O' && "OTA_PACKAGE"@[1] == 'T');
}

// ── Alarm status ────────────────────────────────────────────────────────────

#[derive(PartialEq, Eq, Structural, Clone, Copy, Debug)]
pub enum AlarmStatus {
    ActiveUnack,
    ActiveAck,
    ClearedUnack,
    ClearedAck,
}

/// The status of an alarm follows from whether it was cleared and acknowledged.
pub open spec fn status_of(cleared: bool, acknowledged: bool) -> AlarmStatus {
    if cleared {
        if acknowledged { AlarmStatus::ClearedAck } else { AlarmStatus::ClearedUnack }
    } else {
        if acknowledged { AlarmStatus::ActiveAck } else { AlarmStatus::ActiveUnack }
    }
}

pub open spec fn status_name(s: AlarmStatus) -> Seq<char> {
    match s {
        AlarmStatus::ActiveUnack => "ACTIVE_UNACK"@,
        AlarmStatus::ActiveAck => "ACTIVE_ACK"@,
        AlarmStatus::ClearedUnack => "CLEARED_UNACK"@,
        AlarmStatus::ClearedAck => "CLEARED_ACK"@,
    }
}

/// An alarm's status name says both of its flags: `CLEARED` or `ACTIVE` by
/// whether it is cleared, then `_ACK` or `_UNACK` by whether it is acknowledged.
pub proof fn lemma_status_name_reads_the_flags(cleared: bool, acknowledged: bool)
    ensures
        status_name(status_of(cleared, acknowledged))
            == (if cleared { "CLEARED"@ } else { "ACTIVE"@ }) + (if acknowledged { "_ACK"@ } else { "_UNACK"@ }),
{
    reveal_strlit("CLEARED");
    reveal_strlit("ACTIVE");
    reveal_strlit("_ACK");
    reveal_strlit("_UNACK");
    reveal_strlit("ACTIVE_UNACK");
    reveal_strlit("ACTIVE_ACK");
    reveal_strlit("CLEARED_UNACK");
    reveal_strlit("CLEARED_ACK");
    assert(status_name(status_of(cleared, acknowledged))
        =~= (if cleared { "CLEARED"@ } else { "ACTIVE"@ }) + (if acknowledged { "_ACK"@ } else { "_UNACK"@ }));
}

/// Different flags give different status names.
pub proof fn lemma_status_names_distinct(c1: bool, a1: bool, c2: bool, a2: bool)
    requires
        c1 != c2 || a1 != a2,
    ensures
        status_name(status_of(c1, a1)) != status_name(status_of(c2, a2)),
{
    lemma_status_name_reads_the_flags(c1, a1);
    lemma_status_name_reads_the_flags(c2, a2);
    reveal_strlit("CLEARED");
    reveal_strlit("ACTIVE");
    reveal_strlit("_ACK");
    reveal_strlit("_UNACK");
    let n1 = status_name(status_of(c1, a1));
    let n2 = status_name(status_of(c2, a2));
    if c1 != c2 {
        assert(n1[0] != n2[0]);
    } else {
        let k: int = if c1 { 7 } else { 6 };
        assert(n1[k + 1] != n2[k + 1]);
    }
}

pub fn alarm_status(cleared: bool, acknowledged: bool) -> (r: AlarmStatus)
    ensures
        r == status_of(cleared, acknowledged),
{
    if cleared {
        if acknowledged { AlarmStatus::ClearedAck } else { AlarmStatus::ClearedUnack }
    } else {
        if acknowledged { AlarmStatus::ActiveAck } else { AlarmStatus::ActiveUnack }
    }
}

pub fn status_str(s: AlarmStatus) -> (r: &'static str)
    ensures
        r@ == status_name(s),
{
    match s {
        AlarmStatus::ActiveUnack => "ACTIVE_UNACK",
        AlarmStatus::ActiveAck => "ACTIVE_ACK",
        AlarmStatus::ClearedUnack => "CLEARED_UNACK",
        AlarmStatus::ClearedAck => "CLEARED_ACK",
    }
}

// ── The alarm record and its answer ─────────────────────────────────────────

/// A stored alarm.
pub struct Alarm {
    pub id: u128,
    pub created_time: i64,
    pub tenant_id: u128,
    pub customer_id: Option<u128>,
    pub alarm_type: String,
    pub originator_id: u128,
    pub originator_type: EntityType,
    pub severity: AlarmSeverity,
    pub acknowledged: bool,
    pub cleared: bool,
    pub assignee_id: Option<u128>,
    pub start_ts: i64,
    pub end_ts: i64,
    pub ack_ts: Option<i64>,
    pub clear_ts: Option<i64>,
    pub assign_ts: i64,
    pub propagate: bool,
    pub propagate_to_owner: bool,
    pub propagate_to_tenant: bool,
    pub propagate_relation_types: Option<String>,
    pub details: Option<serde_json::Value>,
}

/// An alarm as the API answers it.
pub struct AlarmResponse {
    pub id: IdResponse,
    pub created_time: i64,
    pub tenant_id: IdResponse,
    pub originator_id: IdResponse,
    pub originator_name: Option<String>,
    pub alarm_type: String,
    pub severity: String,
    pub status: String,
    pub acknowledged: bool,
    pub cleared: bool,
    pub start_ts: i64,
    pub end_ts: i64,
    pub ack_ts: Option<i64>,
    pub clear_ts: Option<i64>,
    pub details: Option<serde_json::Value>,
}

impl AlarmResponse {
    /// The answer form of an alarm; the originator's name is filled in later by
    /// the handlers that look names up.
    pub fn from_alarm(a: Alarm) -> (r: Self)
        ensures
            r.id.id == a.id && r.id.entity_type@ == "ALARM"@,
            r.created_time == a.created_time,
            r.tenant_id.id == a.tenant_id && r.tenant_id.entity_type@ == "TENANT"@,
            r.originator_id.id == a.originator_id,
            r.originator_id.entity_type@ == entity_type_name(a.originator_type),
            r.originator_name is None,
            r.alarm_type == a.alarm_type,
            r.severity@ == severity_name(a.severity),
            r.status@ == status_name(status_of(a.cleared, a.acknowledged)),
            r.acknowledged == a.acknowledged,
            r.cleared == a.cleared,
            r.start_ts == a.start_ts,
            r.end_ts == a.end_ts,
            r.ack_ts == a.ack_ts,
            r.clear_ts == a.clear_ts,
            r.details == a.details,
    {
        let status = status_str(alarm_status(a.cleared, a.acknowledged));
        let severity = severity_str(a.severity);
        let originator_type = entity_type_str(&a.originator_type);
        let id = IdResponse::alarm(a.id);
        let tenant = IdResponse::tenant(a.tenant_id);
        let originator = IdResponse::new(a.originator_id, originator_type);
        AlarmResponse {
            id,
            created_time: a.created_time,
            tenant_id: tenant,
            originator_id: originator,
            originator_name: None,
            alarm_type: a.alarm_type,
            severity: severity.to_owned(),
            status: status.to_owned(),
            acknowledged: a.acknowledged,
            cleared: a.cleared,
            start_ts: a.start_ts,
            end_ts: a.end_ts,
            ack_ts: a.ack_ts,
            clear_ts: a.clear_ts,
            details: a.details,
        }
    }
}

// ── Saving an alarm ─────────────────────────────────────────────────────────

/// The body of a save request.
pub struct SaveAlarmRequest {
    pub id: Option<IdResponse>,
    pub tenant_id: Option<IdResponse>,
    pub originator_id: Option<IdResponse>,
    pub alarm_type: String,
    pub severity: Option<String>,
    pub start_ts: Option<i64>,
    pub end_ts: Option<i64>,
    pub propagate: Option<bool>,
    pub propagate_to_owner: Option<bool>,
    pub propagate_to_tenant: Option<bool>,
    pub details: Option<serde_json::Value>,
}

pub open spec fn or_i64(o: Option<i64>, d: i64) -> i64 {
    match o { Some(v) => v, None => d }
}

pub open spec fn or_false(o: Option<bool>) -> bool {
    match o { Some(v) => v, None => false }
}

/// The severity a save request asks for: its name read in any case, `INDETERMINATE`
/// when it names none.
pub open spec fn requested_severity(s: Option<String>) -> AlarmSeverity {
    match s {
        Some(t) => severity_of_upper(upper_of(t@)),
        None => severity_of_upper(upper_of("INDETERMINATE"@)),
    }
}

/// The alarm a save request makes for tenant `tenant_id` at time `now`; `fresh_id`
/// is the id it takes when the request names none. The tenant of the body is
/// ignored, and a request without an originator is refused.
pub fn alarm_from_request(tenant_id: u128, req: SaveAlarmRequest, now: i64, fresh_id: u128) -> (r: Result<Alarm, ApiError>)
    ensures
        req.originator_id is None <==> r is Err,
        req.originator_id is None ==> (r matches Err(ApiError::BadRequest(m)) && m@ == "originatorId is required"@),
        r matches Ok(a) ==> {
            &&& a.id == (match req.id { Some(i) => i.id, None => fresh_id })
            &&& a.created_time == now
            &&& a.tenant_id == tenant_id
            &&& a.customer_id is None
            &&& a.alarm_type == req.alarm_type
            &&& a.originator_id == req.originator_id->0.id
            &&& a.originator_type == entity_type_of_upper(upper_of(req.originator_id->0.entity_type@))
            &&& a.severity == requested_severity(req.severity)
            &&& !a.acknowledged && !a.cleared
            &&& a.assignee_id is None
            &&& a.start_ts == or_i64(req.start_ts, now)
            &&& a.end_ts == or_i64(req.end_ts, now)
            &&& a.ack_ts is None && a.clear_ts is None
            &&& a.assign_ts == 0
            &&& a.propagate == or_false(req.propagate)
            &&& a.propagate_to_owner == or_false(req.propagate_to_owner)
            &&& a.propagate_to_tenant == or_false(req.propagate_to_tenant)
            &&& a.propagate_relation_types is None
            &&& a.details == req.details
        },
{
    let originator = match req.originator_id {
        Some(o) => o,
        None => {
            return Err(ApiError::BadRequest("originatorId is required".to_owned()));
        }
    };
    let severity = match &req.severity {
        Some(s) => parse_severity_str(s.as_str()),
        None => parse_severity_str("INDETERMINATE"),
    };
    let originator_type = parse_entity_type_str(originator.entity_type.as_str());
    let id = match req.id {
        Some(i) => i.id,
        None => fresh_id,
    };
    Ok(Alarm {
        id,
        created_time: now,
        tenant_id,
        customer_id: None,
        alarm_type: req.alarm_type,
        originator_id: originator.id,
        originator_type,
        severity,
        acknowledged: false,
        cleared: false,
        assignee_id: None,
        start_ts: match req.start_ts { Some(v) => v, None => now },
        end_ts: match req.end_ts { Some(v) => v, None => now },
        ack_ts: None,
        clear_ts: None,
        assign_ts: 0,
        propagate: match req.propagate { Some(v) => v, None => false },
        propagate_to_owner: match req.propagate_to_owner { Some(v) => v, None => false },
        propagate_to_tenant: match req.propagate_to_tenant { Some(v) => v, None => false },
        propagate_relation_types: None,
        details: req.details,
    })
}

/// The alarm a save request makes now: the clock is read, and a random id is
/// drawn when the request names none.
pub fn new_alarm(tenant_id: u128, req: SaveAlarmRequest) -> (r: Result<Alarm, ApiError>)
    ensures
        req.originator_id is None <==> r is Err,
        r matches Ok(a) ==> {
            &&& (req.id matches Some(i) ==> a.id == i.id)
            &&& a.tenant_id == tenant_id
            &&& a.alarm_type == req.alarm_type
            &&& a.originator_id == req.originator_id->0.id
            &&& a.severity == requested_severity(req.severity)
            &&& (req.start_ts matches Some(t) ==> a.start_ts == t)
            &&& (req.end_ts matches Some(t) ==> a.end_ts == t)
            &&& (req.start_ts is None ==> a.start_ts == a.created_time)
            &&& (req.end_ts is None ==> a.end_ts == a.created_time)
            &&& !a.acknowledged && !a.cleared
        },
{
    let now = now_millis();
    let fresh = match &req.id {
        Some(i) => i.id,
        None => new_uuid_v4(),
    };
    alarm_from_request(tenant_id, req, now, fresh)
}

/// The notification of a saved alarm: its subject and its text.
pub open spec fn notification_subject(a: Alarm) -> Seq<char> {
    "Alarm: "@ + a.alarm_type@
}

pub open spec fn notification_text(a: Alarm) -> Seq<char> {
    seq!['['] + severity_name(a.severity) + seq![']', ' '] + a.alarm_type@ + " on "@ + uuid_text(a.originator_id)
}

/// The subject and text sent to the tenant administrators when an alarm is saved,
/// or nothing when the tenant has no administrator.
pub fn alarm_notification(a: &Alarm, admin_count: usize) -> (r: Option<(String, String)>)
    ensures
        admin_count == 0 <==> r is None,
        r matches Some(p) ==> p.0@ == notification_subject(*a) && p.1@ == notification_text(*a),
{
    if admin_count == 0 {
        return None;
    }
    let subject = concat_str("Alarm: ", a.alarm_type.as_str());
    let sev = severity_str(a.severity);
    let t0 = concat_str("[", sev);
    let t1 = concat_str(t0.as_str(), "] ");
    let t2 = concat_str(t1.as_str(), a.alarm_type.as_str());
    let t3 = concat_str(t2.as_str(), " on ");
    let text = concat_str(t3.as_str(), uuid_to_string(a.originator_id).as_str());
    proof {
        reveal_strlit("[");
        reveal_strlit("] ");
        assert(text@ =~= notification_text(*a));
    }
    Some((subject, text))
}

// ── Reading an alarm ────────────────────────────────────────────────────────

/// An alarm is shown only within its own tenant.
pub fn check_alarm_tenant(alarm_tenant: u128, caller_tenant: u128) -> (r: Result<(), ApiError>)
    ensures
        r is Ok <==> alarm_tenant == caller_tenant,
        r matches Err(e) ==> (e matches ApiError::Forbidden(m) && m@ == "Access denied"@),
{
    if alarm_tenant != caller_tenant {
        Err(ApiError::Forbidden("Access denied".to_owned()))
    } else {
        Ok(())
    }
}

// ── Comments ────────────────────────────────────────────────────────────────

/// A comment on an alarm.
pub struct AlarmComment {
    pub id: u128,
    pub created_time: i64,
    pub alarm_id: u128,
    pub user_id: Option<u128>,
    pub comment_type: String,
    pub comment: serde_json::Value,
}

/// A comment as the API answers it.
pub struct AlarmCommentResponse {
    pub id: IdResponse,
    pub created_time: i64,
    pub alarm_id: IdResponse,
    pub user_id: Option<IdResponse>,
    pub comment_type: String,
    pub comment: serde_json::Value,
}

impl AlarmCommentResponse {
    pub fn from_comment(c: AlarmComment) -> (r: Self)
        ensures
            r.id.id == c.id && r.id.entity_type@ == "ALARM_COMMENT"@,
            r.created_time == c.created_time,
            r.alarm_id.id == c.alarm_id && r.alarm_id.entity_type@ == "ALARM"@,
            (r.user_id matches Some(u) ==> c.user_id == Some(u.id) && u.entity_type@ == "USER"@),
            r.user_id is None <==> c.user_id is None,
            r.comment_type == c.comment_type,
            r.comment == c.comment,
    {
        let user = match c.user_id {
            Some(u) => Some(IdResponse::new(u, "USER")),
            None => None,
        };
        AlarmCommentResponse {
            id: IdResponse::new(c.id, "ALARM_COMMENT"),
            created_time: c.created_time,
            alarm_id: IdResponse::alarm(c.alarm_id),
            user_id: user,
            comment_type: c.comment_type,
            comment: c.comment,
        }
    }
}

/// A comment that user `user_id` adds to alarm `alarm_id` now: a fresh id and the
/// type `OTHER`.
pub fn new_comment(alarm_id: u128, user_id: u128, comment: serde_json::Value) -> (r: AlarmComment)
    ensures
        r.alarm_id == alarm_id,
        r.user_id == Some(user_id),
        r.comment_type@ == "OTHER"@,
        r.comment == comment,
        (r.id >> 76u128) & 0xf == 4,
{
    AlarmComment {
        id: new_uuid_v4(),
        created_time: now_millis(),
        alarm_id,
        user_id: Some(user_id),
        comment_type: "OTHER".to_owned(),
        comment,
    }
}

// ── Queries ─────────────────────────────────────────────────────────────────

/// Query of the alarm lists: page, page size and a text filter, each optional.
pub struct ListAlarmParams {
    pub page_size: Option<i64>,
    pub page: Option<i64>,
    pub text_search: Option<String>,
}

impl ListAlarmParams {
    /// The page request: page 0 and 10 items unless the query says otherwise.
    pub fn page_link(self) -> (r: PageLink)
        ensures
            r.page == or_i64(self.page, 0),
            r.page_size == or_i64(self.page_size, 10),
            r.text_search == self.text_search,
    {
        page_link_or_default(self.page, self.page_size, self.text_search)
    }
}

/// Page, size and offset of the advanced alarm query: page 0 by default, 10 items by
/// default, never more than 1000 items, and the offset `page * size`.
pub open spec fn v2_size(page_size: Option<i64>) -> int {
    let s = or_i64(page_size, 10) as int;
    if s < 1000 { s } else { 1000 }
}

pub fn alarm_query_window(page: Option<i64>, page_size: Option<i64>) -> (r: (i64, i64, i64))
    requires
        i64::MIN <= or_i64(page, 0) * v2_size(page_size) <= i64::MAX,
    ensures
        r.0 == or_i64(page, 0),
        r.1 == v2_size(page_size),
        r.2 == r.0 * r.1,
{
    let p = match page { Some(p) => p, None => 0 };
    let s0 = match page_size { Some(s) => s, None => 10 };
    let s = if s0 < 1000 { s0 } else { 1000 };
    (p, s, p * s)
}

} // verus!
