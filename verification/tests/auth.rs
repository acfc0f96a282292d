use vl_api::auth::{
    backup_codes_allowed, check_new_password, current_password_hash, current_password_outcome, new_backup_code,
    new_backup_codes, new_reset_token, oauth2_client_link, refresh_decision, reset_token_unknown, revokes_token,
    signup_email_taken, signup_records, tenant_title, twofa_providers, user_password_policy, CredentialsRecord,
    IssuedPair, LoginAction, LoginEvent, LoginFlow, LoginRequest, LoginStage, LoginStep, SignupRequest,
    TwoFactorRecord, UserRecord, UserResponse,
};
use vl_api::error::ApiError;
use vl_api::security::{Authority, SecurityContext};

fn user(authority: Authority) -> UserRecord {
    UserRecord {
        id: 11,
        created_time: 5,
        tenant_id: 22,
        customer_id: None,
        email: "ann@example.com".into(),
        authority,
        first_name: Some("Ann".into()),
        last_name: None,
        phone: None,
        version: 3,
    }
}

fn start() -> LoginFlow {
    let (flow, action) =
        LoginFlow::start(LoginRequest { username: "ann@example.com".into(), password: "secret1".into() });
    assert!(matches!(action, LoginAction::FindUserByEmail { ref email } if email == "ann@example.com"));
    assert!(flow.stage == LoginStage::AwaitUser);
    flow
}

fn unauthorized(step: &LoginStep, text: &str) -> bool {
    matches!(step, LoginStep::Reply(Err(ApiError::Unauthorized(m))) if m == text)
}

#[test]
fn login_with_password_issues_full_token() {
    let mut flow = start();
    let s = flow.on_event(LoginEvent::User(Some(user(Authority::TenantAdmin))));
    assert!(matches!(s, LoginStep::Ask(LoginAction::FindCredentials { user_id: 11 })));
    let s = flow.on_event(LoginEvent::Credentials(Some(CredentialsRecord {
        enabled: true,
        password: Some("$hash".into()),
    })));
    assert!(matches!(s, LoginStep::Ask(LoginAction::VerifyPassword { ref password, ref hash })
        if password == "secret1" && hash == "$hash"));
    let s = flow.on_event(LoginEvent::PasswordVerified(Ok(true)));
    assert!(matches!(s, LoginStep::Ask(LoginAction::FindTwoFactor { user_id: 11 })));
    let s = flow.on_event(LoginEvent::TwoFactor(Ok(None)));
    match s {
        LoginStep::Ask(LoginAction::IssueToken { request }) => {
            assert_eq!(request.user_id, 11);
            assert_eq!(request.tenant_id, Some(22));
            assert_eq!(request.customer_id, None);
            assert_eq!(request.authority, "TENANT_ADMIN");
            assert_eq!(request.scopes, vec!["TENANT_ADMIN".to_string()]);
        },
        _ => panic!("expected a token request"),
    }
    let s = flow.on_event(LoginEvent::Token(Ok(IssuedPair { token: "t".into(), refresh_token: "r".into() })));
    match s {
        LoginStep::Reply(Ok(p)) => {
            assert_eq!(p.token, "t");
            assert_eq!(p.refresh_token, "r");
            assert!(p.scope.is_none());
        },
        _ => panic!("expected tokens"),
    }
    assert!(flow.stage == LoginStage::Done);
}

#[test]
fn login_rejects_unknown_user_and_wrong_password() {
    let mut flow = start();
    let s = flow.on_event(LoginEvent::User(None));
    assert!(unauthorized(&s, "Bad credentials"));

    let mut flow = start();
    flow.on_event(LoginEvent::User(Some(user(Authority::TenantAdmin))));
    flow.on_event(LoginEvent::Credentials(Some(CredentialsRecord { enabled: true, password: Some("h".into()) })));
    let s = flow.on_event(LoginEvent::PasswordVerified(Ok(false)));
    assert!(unauthorized(&s, "Bad credentials"));

    let mut flow = start();
    flow.on_event(LoginEvent::User(Some(user(Authority::TenantAdmin))));
    flow.on_event(LoginEvent::Credentials(Some(CredentialsRecord { enabled: true, password: Some("h".into()) })));
    let s = flow.on_event(LoginEvent::PasswordVerified(Err("hash broken".into())));
    assert!(matches!(s, LoginStep::Reply(Err(ApiError::Internal(ref m))) if m == "hash broken"));
}

#[test]
fn login_rejects_missing_or_disabled_credentials() {
    let mut flow = start();
    flow.on_event(LoginEvent::User(Some(user(Authority::CustomerUser))));
    let s = flow.on_event(LoginEvent::Credentials(None));
    assert!(unauthorized(&s, "User credentials not found"));

    let mut flow = start();
    flow.on_event(LoginEvent::User(Some(user(Authority::CustomerUser))));
    let s = flow.on_event(LoginEvent::Credentials(Some(CredentialsRecord { enabled: false, password: None })));
    assert!(unauthorized(&s, "User account is disabled"));
}

#[test]
fn login_without_password_goes_through_ldap() {
    let mut flow = start();
    flow.on_event(LoginEvent::User(Some(user(Authority::TenantAdmin))));
    let s = flow.on_event(LoginEvent::Credentials(Some(CredentialsRecord { enabled: true, password: None })));
    assert!(matches!(s, LoginStep::Ask(LoginAction::FindLdapConfig { tenant_id: 22 })));
    let s = flow.on_event(LoginEvent::LdapConfig(Some(true)));
    assert!(matches!(s, LoginStep::Ask(LoginAction::LdapAuthenticate { ref username, ref password })
        if username == "ann@example.com" && password == "secret1"));
    let s = flow.on_event(LoginEvent::LdapAuthenticated(true));
    assert!(matches!(s, LoginStep::Ask(LoginAction::IssueToken { .. })));

    let mut flow = start();
    flow.on_event(LoginEvent::User(Some(user(Authority::TenantAdmin))));
    flow.on_event(LoginEvent::Credentials(Some(CredentialsRecord { enabled: true, password: None })));
    let s = flow.on_event(LoginEvent::LdapConfig(Some(false)));
    assert!(unauthorized(&s, "User has no password set"));

    let mut flow = start();
    flow.on_event(LoginEvent::User(Some(user(Authority::TenantAdmin))));
    flow.on_event(LoginEvent::Credentials(Some(CredentialsRecord { enabled: true, password: None })));
    flow.on_event(LoginEvent::LdapConfig(Some(true)));
    let s = flow.on_event(LoginEvent::LdapAuthenticated(false));
    assert!(unauthorized(&s, "Bad credentials"));

    let mut flow = start();
    flow.on_event(LoginEvent::User(Some(user(Authority::SysAdmin))));
    let s = flow.on_event(LoginEvent::Credentials(Some(CredentialsRecord { enabled: true, password: None })));
    assert!(unauthorized(&s, "User has no password set"));
}

#[test]
fn login_with_verified_two_factor_gets_pre_verification_token() {
    let mut flow = start();
    flow.on_event(LoginEvent::User(Some(user(Authority::SysAdmin))));
    flow.on_event(LoginEvent::Credentials(Some(CredentialsRecord { enabled: true, password: Some("h".into()) })));
    flow.on_event(LoginEvent::PasswordVerified(Ok(true)));
    let s = flow.on_event(LoginEvent::TwoFactor(Ok(Some(TwoFactorRecord { enabled: true, verified: true }))));
    assert!(matches!(s, LoginStep::Ask(LoginAction::IssuePreVerificationToken { user_id: 11, token_tenant: None })));
    let s = flow.on_event(LoginEvent::PreVerificationToken(Ok("pre".into())));
    match s {
        LoginStep::Reply(Ok(p)) => {
            assert_eq!(p.token, "pre");
            assert_eq!(p.refresh_token, "pre");
        },
        _ => panic!("expected the pre-verification token"),
    }

    let mut flow = start();
    flow.on_event(LoginEvent::User(Some(user(Authority::TenantAdmin))));
    flow.on_event(LoginEvent::Credentials(Some(CredentialsRecord { enabled: true, password: Some("h".into()) })));
    flow.on_event(LoginEvent::PasswordVerified(Ok(true)));
    let s = flow.on_event(LoginEvent::TwoFactor(Ok(Some(TwoFactorRecord { enabled: true, verified: false }))));
    assert!(matches!(s, LoginStep::Ask(LoginAction::IssueToken { .. })));
}

#[test]
fn refresh_needs_a_refresh_token_of_an_enabled_user() {
    let enabled = || Some(CredentialsRecord { enabled: true, password: None });
    let r = refresh_decision(false, Some(user(Authority::TenantAdmin)), enabled());
    assert!(matches!(r, Err(ApiError::Unauthorized(ref m)) if m == "Not a refresh token"));
    let r = refresh_decision(true, None, enabled());
    assert!(matches!(r, Err(ApiError::Unauthorized(ref m)) if m == "User not found"));
    let r = refresh_decision(true, Some(user(Authority::TenantAdmin)), None);
    assert!(matches!(r, Err(ApiError::Unauthorized(ref m)) if m == "User credentials not found"));
    let r = refresh_decision(
        true,
        Some(user(Authority::TenantAdmin)),
        Some(CredentialsRecord { enabled: false, password: None }),
    );
    assert!(matches!(r, Err(ApiError::Unauthorized(ref m)) if m == "User account is disabled"));
    match refresh_decision(true, Some(user(Authority::SysAdmin)), enabled()) {
        Ok(t) => {
            assert_eq!(t.tenant_id, None);
            assert_eq!(t.authority, "SYS_ADMIN");
        },
        Err(_) => panic!("expected a token request"),
    }
}

#[test]
fn new_passwords_need_six_bytes() {
    assert!(check_new_password("12345").is_err());
    assert!(check_new_password("123456").is_ok());
    assert!(check_new_password("ééé").is_ok());
    assert!(matches!(check_new_password(""), Err(ApiError::BadRequest(ref m))
        if m == "Password must be at least 6 characters"));
}

#[test]
fn signup_builds_tenant_user_and_free_subscription() {
    assert_eq!(tenant_title("bob@example.com"), "bob");
    assert_eq!(tenant_title("no-at-sign"), "no-at-sign");
    assert!(matches!(signup_email_taken("a@b.c"), ApiError::BadRequest(ref m)
        if m == "An account with email 'a@b.c' already exists."));
    let req = SignupRequest {
        email: "bob@example.com".into(),
        password: "whatever".into(),
        first_name: Some("Bob".into()),
        last_name: None,
    };
    let r = signup_records(&req, 77, "$h".into(), Some(88), 1000);
    assert_eq!(r.tenant.title, "bob");
    assert_eq!(r.tenant.tenant_profile_id, 77);
    assert_eq!(r.tenant.email.as_deref(), Some("bob@example.com"));
    assert_eq!(r.user.tenant_id, r.tenant.id);
    assert!(r.user.authority == Authority::TenantAdmin);
    assert_eq!(r.user.first_name.as_deref(), Some("Bob"));
    assert!(r.credentials_enabled);
    assert_eq!(r.password_hash, "$h");
    let s = r.subscription.expect("free plan subscription");
    assert_eq!(s.plan_id, 88);
    assert_eq!(s.tenant_id, r.tenant.id);
    assert_eq!(s.billing_cycle, "monthly");
    assert_eq!(s.status, "free");
    assert!(signup_records(&req, 77, "$h".into(), None, 1000).subscription.is_none());
}

#[test]
fn user_view_names_the_user_by_email() {
    let mut u = user(Authority::CustomerUser);
    u.customer_id = Some(33);
    let r = UserResponse::from_user(u);
    assert_eq!(r.name, "ann@example.com");
    assert_eq!(r.authority, "CUSTOMER_USER");
    assert_eq!(r.id.entity_type, "USER");
    assert_eq!(r.tenant_id.entity_type, "TENANT");
    let c = r.customer_id.expect("customer");
    assert_eq!(c.id, 33);
    assert_eq!(c.entity_type, "CUSTOMER");
}

#[test]
fn reset_tokens_and_backup_codes_have_their_shapes() {
    let t = new_reset_token();
    assert_eq!(t.len(), 32);
    assert!(t.chars().all(|c| c.is_ascii_hexdigit() && !c.is_ascii_uppercase()));
    let code = new_backup_code();
    assert_eq!(code.len(), 14);
    for (i, c) in code.chars().enumerate() {
        if i == 4 || i == 9 {
            assert_eq!(c, '-');
        } else {
            assert!(c.is_ascii_digit() || c.is_ascii_uppercase());
        }
    }
    assert_eq!(new_backup_codes().len(), 10);
    assert!(matches!(backup_codes_allowed(None), Err(ApiError::NotFound(ref m)) if m == "2FA settings not found"));
    assert!(matches!(backup_codes_allowed(Some(TwoFactorRecord { enabled: false, verified: false })),
        Err(ApiError::BadRequest(ref m)) if m == "2FA is not enabled"));
    assert!(backup_codes_allowed(Some(TwoFactorRecord { enabled: true, verified: false })).is_ok());
}

#[test]
fn password_changes_and_session_rules() {
    let p = user_password_policy();
    assert_eq!(p.minimum_length, 6);
    assert!(p.allow_whitespaces);
    assert_eq!(twofa_providers(), vec!["TOTP".to_string()]);
    let link = oauth2_client_link(1, "Google".into());
    assert_eq!(link.url, "/api/noauth/oauth2/authorize/00000000-0000-0000-0000-000000000001");
    assert_eq!(link.icon, "Google");
    let ctx = |jti: &str| SecurityContext {
        user_id: 1,
        tenant_id: 2,
        customer_id: None,
        authority: "TENANT_ADMIN".into(),
        jti: jti.into(),
        exp: 0,
    };
    assert!(revokes_token(&ctx("abc")));
    assert!(!revokes_token(&ctx("")));
    assert!(matches!(current_password_hash(None), Err(ApiError::NotFound(_))));
    assert!(matches!(current_password_hash(Some(CredentialsRecord { enabled: true, password: None })),
        Err(ApiError::Unauthorized(ref m)) if m == "No password set"));
    assert!(matches!(current_password_hash(Some(CredentialsRecord { enabled: true, password: Some("h".into()) })),
        Ok(ref h) if h == "h"));
    assert!(current_password_outcome(true).is_ok());
    assert!(matches!(current_password_outcome(false), Err(ApiError::Unauthorized(ref m))
        if m == "Current password is incorrect"));
    assert!(matches!(reset_token_unknown(), ApiError::NotFound(ref m) if m == "Reset token not found or expired"));
}
