//! Tenant backups: who may export and import, the import target, the file name of an
//! export, and the backup schedule.

use vstd::prelude::*;
use crate::common::{uuid_text, uuid_to_string};
use crate::error::ApiError;
use crate::security::SecurityContext;
use crate::text::{concat_str, decimal_text, i64_text};

verus! {

/// Backups are for tenant and system administrators.
pub fn backup_access(ctx: &SecurityContext) -> (r: Result<(), ApiError>)
    ensures
        (ctx.tenant_admin() || ctx.sys_admin()) <==> r is Ok,
        r matches Err(e) ==> (e matches ApiError::Forbidden(m) && m@ == "TENANT_ADMIN required"@),
{
    crate::devices::require_tenant_or_sys_admin(ctx, "TENANT_ADMIN required")
}

/// What an export holds: telemetry only when asked for.
pub fn include_telemetry(asked: Option<bool>) -> (r: bool)
    ensures
        r == (match asked { Some(b) => b, None => false }),
{
    match asked { Some(b) => b, None => false }
}

/// The tenant an import writes into: the caller's, or, for a system administrator
/// only, the one the request names.
pub fn import_target(ctx: &SecurityContext, target: Option<u128>) -> (r: Result<u128, ApiError>)
    ensures
        target is None ==> r == Ok::<u128, ApiError>(ctx.tenant_id),
        target matches Some(t) ==> (ctx.sys_admin() ==> r == Ok::<u128, ApiError>(t)),
        target matches Some(t) ==> (!ctx.sys_admin() ==> (r matches Err(ApiError::Forbidden(m))
            && m@ == "SYS_ADMIN required to specify targetTenantId"@)),
{
    match target {
        Some(t) => {
            if !ctx.is_sys_admin() {
                return Err(ApiError::Forbidden("SYS_ADMIN required to specify targetTenantId".to_owned()));
            }
            Ok(t)
        },
        None => Ok(ctx.tenant_id),
    }
}

/// The file name of an export: `backup-<tenant>-<exported at>.json`.
pub fn backup_file_name(tenant_id: u128, exported_at: i64) -> (r: String)
    ensures
        r@ == "backup-"@ + uuid_text(tenant_id) + seq!['-'] + decimal_text(exported_at as int) + ".json"@,
{
    let a = concat_str("backup-", uuid_to_string(tenant_id).as_str());
    let b = concat_str(a.as_str(), "-");
    let c = concat_str(b.as_str(), i64_text(exported_at).as_str());
    let r = concat_str(c.as_str(), ".json");
    proof {
        reveal_strlit("-");
        assert(r@ =~= "backup-"@ + uuid_text(tenant_id) + seq!['-'] + decimal_text(exported_at as int) + ".json"@);
    }
    r
}

/// A scheduled backup.
pub struct BackupScheduleConfig {
    pub cron: String,
    pub include_telemetry: bool,
    pub output_dir: String,
}

/// A schedule request.
pub struct SetScheduleRequest {
    pub cron: String,
    pub include_telemetry: Option<bool>,
    pub output_dir: Option<String>,
}

/// The schedule a request sets: without telemetry and into `/var/vielang/backups`
/// unless it says otherwise.
pub fn schedule_from_request(req: SetScheduleRequest) -> (c: BackupScheduleConfig)
    ensures
        c.cron == req.cron,
        c.include_telemetry == (match req.include_telemetry { Some(b) => b, None => false }),
        c.output_dir@ == (match req.output_dir { Some(d) => d@, None => "/var/vielang/backups"@ }),
{
    BackupScheduleConfig {
        cron: req.cron,
        include_telemetry: match req.include_telemetry { Some(b) => b, None => false },
        output_dir: match req.output_dir { Some(d) => d, None => "/var/vielang/backups".to_owned() },
    }
}

} // verus!
