//! Who is calling: the authenticated context of a request, the authorities a
//! user can hold, and the access rules that the endpoints share.

use vstd::prelude::*;
use crate::error::ApiError;
use crate::text::str_eq;

verus! {

/// The authority of a user or of a token.
#[derive(Clone, Copy, PartialEq, Eq, Structural)]
pub enum Authority {
    SysAdmin,
    TenantAdmin,
    CustomerUser,
    RefreshToken,
    PreVerificationToken,
}

pub open spec fn authority_name(a: Authority) -> Seq<char> {
    match a {
        Authority::SysAdmin => "SYS_ADMIN"@,
        Authority::TenantAdmin => "TENANT_ADMIN"@,
        Authority::CustomerUser => "CUSTOMER_USER"@,
        Authority::RefreshToken => "REFRESH_TOKEN"@,
        Authority::PreVerificationToken => "PRE_VERIFICATION_TOKEN"@,
    }
}

/// The wire name of an authority.
pub fn authority_to_str(a: Authority) -> (s: &'static str)
    ensures
        s@ == authority_name(a),
{
    match a {
        Authority::SysAdmin => "SYS_ADMIN",
        Authority::TenantAdmin => "TENANT_ADMIN",
        Authority::CustomerUser => "CUSTOMER_USER",
        Authority::RefreshToken => "REFRESH_TOKEN",
        Authority::PreVerificationToken => "PRE_VERIFICATION_TOKEN",
    }
}

/// The authenticated caller of a request, as read from its token.
pub struct SecurityContext {
    pub user_id: u128,
    pub tenant_id: u128,
    pub customer_id: Option<u128>,
    pub authority: String,
    pub jti: String,
    pub exp: i64,
}

impl SecurityContext {
    pub open spec fn sys_admin(&self) -> bool {
        self.authority@ == "SYS_ADMIN"@
    }

    pub open spec fn tenant_admin(&self) -> bool {
        self.authority@ == "TENANT_ADMIN"@
    }

    pub fn is_sys_admin(&self) -> (r: bool)
        ensures
            r == self.sys_admin(),
    {
        str_eq(self.authority.as_str(), "SYS_ADMIN")
    }

    pub fn is_tenant_admin(&self) -> (r: bool)
        ensures
            r == self.tenant_admin(),
    {
        str_eq(self.authority.as_str(), "TENANT_ADMIN")
    }
}

/// Only a system administrator may call; others get `Forbidden` with `message`.
pub fn require_sys_admin(ctx: &SecurityContext, message: &str) -> (r: Result<(), ApiError>)
    ensures
        ctx.sys_admin() <==> r is Ok,
        r matches Err(e) ==> e matches ApiError::Forbidden(m) && m@ == message@,
{
    if ctx.is_sys_admin() {
        Ok(())
    } else {
        Err(ApiError::Forbidden(message.to_owned()))
    }
}

/// Only a system or tenant administrator may call; others get `Forbidden`
/// with `message`.
pub fn require_admin(ctx: &SecurityContext, message: &str) -> (r: Result<(), ApiError>)
    ensures
        (ctx.sys_admin() || ctx.tenant_admin()) <==> r is Ok,
        r matches Err(e) ==> e matches ApiError::Forbidden(m) && m@ == message@,
{
    if ctx.is_sys_admin() || ctx.is_tenant_admin() {
        Ok(())
    } else {
        Err(ApiError::Forbidden(message.to_owned()))
    }
}

/// Access to a record owned by a tenant: the owner's tenant or a system
/// administrator; others get `Forbidden("Access denied")`.
pub fn require_same_tenant(ctx: &SecurityContext, owner_tenant: u128) -> (r: Result<(), ApiError>)
    ensures
        (owner_tenant == ctx.tenant_id || ctx.sys_admin()) <==> r is Ok,
        r matches Err(e) ==> e matches ApiError::Forbidden(m) && m@ == "Access denied"@,
{
    if owner_tenant != ctx.tenant_id && !ctx.is_sys_admin() {
        Err(ApiError::Forbidden("Access denied".to_owned()))
    } else {
        Ok(())
    }
}

/// Access to a record owned by a user (an API key): the owner or a system
/// administrator; others get `Forbidden("Access denied")`.
pub fn require_owner(ctx: &SecurityContext, owner_user: u128) -> (r: Result<(), ApiError>)
    ensures
        (owner_user == ctx.user_id || ctx.sys_admin()) <==> r is Ok,
        r matches Err(e) ==> e matches ApiError::Forbidden(m) && m@ == "Access denied"@,
{
    if owner_user != ctx.user_id && !ctx.is_sys_admin() {
        Err(ApiError::Forbidden("Access denied".to_owned()))
    } else {
        Ok(())
    }
}

/// Listing the devices of a tenant: a system administrator may list any
/// tenant, others only their own.
pub fn may_list_tenant_devices(ctx: &SecurityContext, tenant_id: u128) -> (r: Result<(), ApiError>)
    ensures
        (ctx.sys_admin() || ctx.tenant_id == tenant_id) <==> r is Ok,
        r matches Err(e) ==> e matches ApiError::Forbidden(m) && m@ == "Access denied"@,
{
    if !ctx.is_sys_admin() && ctx.tenant_id != tenant_id {
        Err(ApiError::Forbidden("Access denied".to_owned()))
    } else {
        Ok(())
    }
}

} // verus!
