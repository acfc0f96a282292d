//! System administration: statistics and build information, stored settings, JWT
//! settings as shown, disk totals, feature switches, update status, and the
//! auto-commit settings of a tenant.

use vstd::prelude::*;
use crate::error::ApiError;
use crate::security::{require_admin, SecurityContext};
use crate::text::concat_str;

verus! {

/// Pool statistics and the running version.
pub struct SystemStats {
    pub db_pool_size: u32,
    pub db_pool_idle: u32,
    pub version: String,
}

/// Build information.
pub struct BuildInfo {
    pub version: String,
    pub rust_version: String,
    pub pkg_name: String,
}

/// The build information: the recorded Rust version when one was recorded and is not
/// empty, `1.75` otherwise.
pub fn build_info(version: &str, rust_version: Option<&str>, pkg_name: &str) -> (r: BuildInfo)
    ensures
        r.version@ == version@ && r.pkg_name@ == pkg_name@,
        r.rust_version@ == (match rust_version {
            Some(v) => if v@.len() > 0 { v@ } else { "1.75"@ },
            None => "1.75"@,
        }),
{
    let rust = match rust_version {
        Some(v) => if v.unicode_len() > 0 { v.to_owned() } else { "1.75".to_owned() },
        None => "1.75".to_owned(),
    };
    BuildInfo { version: version.to_owned(), rust_version: rust, pkg_name: pkg_name.to_owned() }
}

/// A test mail request.
pub struct TestMailRequest {
    pub email: String,
}

/// Whether a newer version exists.
pub struct UpdateMessage {
    pub update_available: bool,
    pub current_version: String,
    pub latest_version: String,
    pub upgrade_instructions_url: Option<String>,
    pub current_version_release_notes_url: Option<String>,
    pub latest_version_release_notes_url: Option<String>,
}

/// No update check is made: the running version is reported as the latest.
pub fn no_update(version: &str) -> (r: UpdateMessage)
    ensures
        !r.update_available,
        r.current_version@ == version@ && r.latest_version@ == version@,
        r.upgrade_instructions_url is None,
        r.current_version_release_notes_url is None && r.latest_version_release_notes_url is None,
{
    UpdateMessage {
        update_available: false,
        current_version: version.to_owned(),
        latest_version: version.to_owned(),
        upgrade_instructions_url: None,
        current_version_release_notes_url: None,
        latest_version_release_notes_url: None,
    }
}

/// A stored settings entry.
pub struct AdminSettings {
    pub id: u128,
    pub created_time: i64,
    pub tenant_id: u128,
    pub key: String,
    pub json_value: serde_json::Value,
}

/// A settings save request.
pub struct SaveAdminSettingsRequest {
    pub id: Option<u128>,
    pub tenant_id: Option<u128>,
    pub key: String,
    pub json_value: serde_json::Value,
}

/// The settings entry a save request makes: the system tenant (the nil id) unless
/// the request names one.
pub fn settings_from_request(req: SaveAdminSettingsRequest, now: i64, fresh_id: u128) -> (s: AdminSettings)
    ensures
        s.id == (match req.id { Some(i) => i, None => fresh_id }),
        s.created_time == now,
        s.tenant_id == (match req.tenant_id { Some(t) => t, None => 0 }),
        s.key == req.key && s.json_value == req.json_value,
{
    AdminSettings {
        id: match req.id { Some(i) => i, None => fresh_id },
        created_time: now,
        tenant_id: match req.tenant_id { Some(t) => t, None => 0 },
        key: req.key,
        json_value: req.json_value,
    }
}

/// The settings entry stored under a fixed key for a tenant.
pub fn keyed_settings(tenant_id: u128, key: &str, json_value: serde_json::Value, now: i64, id: u128) -> (s: AdminSettings)
    ensures
        s.id == id && s.created_time == now && s.tenant_id == tenant_id,
        s.key@ == key@ && s.json_value == json_value,
{
    AdminSettings { id, created_time: now, tenant_id, key: key.to_owned(), json_value }
}

/// Settings missing under a key.
pub fn settings_not_found(key: &str) -> (e: ApiError)
    ensures
        e matches ApiError::NotFound(m) && m@ == "Settings ["@ + key@ + "] is not found"@,
{
    let a = concat_str("Settings [", key);
    ApiError::NotFound(concat_str(a.as_str(), "] is not found"))
}

/// The JWT settings as shown: the configured lifetimes, the fixed issuer, and the
/// signing key masked.
pub struct JwtSettingsInfo {
    pub token_expiration_time: i64,
    pub refresh_token_exp_time: i64,
    pub token_issuer: String,
    pub token_signing_key: String,
}

pub fn jwt_settings_info(expiration_secs: i64, refresh_expiration_secs: i64) -> (r: JwtSettingsInfo)
    ensures
        r.token_expiration_time == expiration_secs,
        r.refresh_token_exp_time == refresh_expiration_secs,
        r.token_issuer@ == "vielang.io"@,
        r.token_signing_key@ == "***"@,
{
    JwtSettingsInfo {
        token_expiration_time: expiration_secs,
        refresh_token_exp_time: refresh_expiration_secs,
        token_issuer: "vielang.io".to_owned(),
        token_signing_key: "***".to_owned(),
    }
}

/// Total and used space over a machine's disks, each disk given as its total and
/// available space.
pub open spec fn disk_sums(disks: Seq<(u64, u64)>) -> (int, int)
    decreases disks.len(),
{
    if disks.len() == 0 {
        (0, 0)
    } else {
        let (t, u) = disk_sums(disks.drop_last());
        (t + disks.last().0, u + (disks.last().0 - disks.last().1))
    }
}

pub open spec fn disks_fit(disks: Seq<(u64, u64)>) -> bool {
    &&& forall|i: int| 0 <= i < disks.len() ==> (#[trigger] disks[i]).1 <= disks[i].0
    &&& forall|n: int| 0 <= n <= disks.len() ==> (#[trigger] disk_sums(disks.subrange(0, n))).0 <= u64::MAX
}

pub fn disk_totals(disks: &Vec<(u64, u64)>) -> (r: (u64, u64))
    requires
        disks_fit(disks@),
    ensures
        r.0 == disk_sums(disks@).0,
        r.1 == disk_sums(disks@).1,
{
    let mut total: u64 = 0;
    let mut used: u64 = 0;
    let mut i: usize = 0;
    while i < disks.len()
        invariant
            i <= disks@.len(),
            disks_fit(disks@),
            total == disk_sums(disks@.subrange(0, i as int)).0,
            used == disk_sums(disks@.subrange(0, i as int)).1,
            used <= total,
        decreases disks@.len() - i,
    {
        proof {
            assert(disks@.subrange(0, i + 1).drop_last() =~= disks@.subrange(0, i as int));
            assert(disk_sums(disks@.subrange(0, i + 1)).0 <= u64::MAX);
        }
        let (t, a) = disks[i];
        assert(a <= t);
        total = total + t;
        used = used + (t - a);
        i = i + 1;
    }
    assert(disks@.subrange(0, disks@.len() as int) =~= disks@);
    (total, used)
}

/// Which optional features this deployment has.
pub struct FeaturesInfo {
    pub email_enabled: bool,
    pub oauth_enabled: bool,
    pub sms_enabled: bool,
    pub notification_enabled: bool,
    pub two_fa_enabled: bool,
}

/// Notifications and two-factor authentication are on; e-mail, OAuth and SMS off.
pub fn features_info() -> (r: FeaturesInfo)
    ensures
        !r.email_enabled && !r.oauth_enabled && !r.sms_enabled,
        r.notification_enabled && r.two_fa_enabled,
{
    FeaturesInfo {
        email_enabled: false,
        oauth_enabled: false,
        sms_enabled: false,
        notification_enabled: true,
        two_fa_enabled: true,
    }
}

/// Which entity types are committed automatically.
pub struct AutoCommitSettings {
    pub enabled: bool,
    pub entity_types: Vec<String>,
}

/// A tenant without stored auto-commit settings has it disabled.
pub fn default_auto_commit() -> (r: AutoCommitSettings)
    ensures
        !r.enabled && r.entity_types@.len() == 0,
{
    AutoCommitSettings { enabled: false, entity_types: Vec::new() }
}

/// Repository and auto-commit settings are for system and tenant administrators.
pub fn tenant_settings_access(ctx: &SecurityContext) -> (r: Result<(), ApiError>)
    ensures
        (ctx.sys_admin() || ctx.tenant_admin()) <==> r is Ok,
        r matches Err(e) ==> (e matches ApiError::Forbidden(m) && m@ == "TENANT_ADMIN authority required"@),
{
    require_admin(ctx, "TENANT_ADMIN authority required")
}

} // verus!
