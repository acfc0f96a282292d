//! Authentication: the login and token-refresh decisions, self-service
//! signup records, password rules, user views and 2FA backup codes.

use vstd::prelude::*;
use crate::error::ApiError;
use crate::random::{new_uuid_v4, random_below};
use crate::security::{authority_name, authority_to_str, Authority, SecurityContext};
use crate::text::{before_first, chars_of, concat_str, find_char, hex_of_u128, push_char, slice_chars, string_of};
use crate::ids::IdResponse;

verus! {

// ── Request and response bodies ─────────────────────────────────────────────

pub struct LoginRequest {
    pub username: String,
    pub password: String,
}

pub struct JwtPairResponse {
    pub token: String,
    pub refresh_token: String,
    pub scope: Option<String>,
}

pub struct RefreshTokenRequest {
    pub refresh_token: String,
}

pub struct ActivateRequest {
    pub activate_token: String,
    pub password: String,
}

pub struct ResetPasswordByEmailRequest {
    pub email: String,
}

pub struct SignupRequest {
    pub email: String,
    pub password: String,
    pub first_name: Option<String>,
    pub last_name: Option<String>,
}

pub struct ChangePasswordRequest {
    pub current_password: String,
    pub new_password: String,
}

pub struct ResetPasswordRequest {
    pub reset_token: String,
    pub password: String,
}

// ── Stored records the flows read ───────────────────────────────────────────

pub struct UserRecord {
    pub id: u128,
    pub created_time: i64,
    pub tenant_id: u128,
    pub customer_id: Option<u128>,
    pub email: String,
    pub authority: Authority,
    pub first_name: Option<String>,
    pub last_name: Option<String>,
    pub phone: Option<String>,
    pub version: i64,
}

pub struct CredentialsRecord {
    pub enabled: bool,
    pub password: Option<String>,
}

pub struct TwoFactorRecord {
    pub enabled: bool,
    pub verified: bool,
}

/// What a token is issued for.
pub struct TokenRequest {
    pub user_id: u128,
    pub tenant_id: Option<u128>,
    pub customer_id: Option<u128>,
    pub authority: String,
    pub scopes: Vec<String>,
}

/// The tenant that a user's tokens name: none for a system administrator.
pub open spec fn token_tenant(u: UserRecord) -> Option<u128> {
    if u.authority == Authority::SysAdmin {
        None
    } else {
        Some(u.tenant_id)
    }
}

/// A full token for `u`: its authority as the only scope.
pub open spec fn is_token_request_for(t: TokenRequest, u: UserRecord) -> bool {
    &&& t.user_id == u.id
    &&& t.tenant_id == token_tenant(u)
    &&& t.customer_id == u.customer_id
    &&& t.authority@ == authority_name(u.authority)
    &&& t.scopes@.len() == 1
    &&& t.scopes@[0]@ == authority_name(u.authority)
}

/// The token request for a full JWT pair of `u`.
pub fn token_request_for(u: &UserRecord) -> (t: TokenRequest)
    ensures
        is_token_request_for(t, *u),
{
    let a = authority_to_str(u.authority);
    let mut scopes: Vec<String> = Vec::new();
    scopes.push(a.to_owned());
    TokenRequest {
        user_id: u.id,
        tenant_id: if u.authority == Authority::SysAdmin { None } else { Some(u.tenant_id) },
        customer_id: u.customer_id,
        authority: a.to_owned(),
        scopes,
    }
}

/// A token requested for a user speaks for exactly that user: its id, its
/// customer (a customer user's token carries its customer, others none), its
/// tenant (none for a system administrator), and its authority as the one scope.
pub proof fn lemma_token_request_speaks_for_user(t: TokenRequest, u: UserRecord)
    requires
        is_token_request_for(t, u),
    ensures
        t.user_id == u.id,
        t.customer_id == u.customer_id,
        u.authority == Authority::SysAdmin ==> t.tenant_id is None,
        u.authority != Authority::SysAdmin ==> t.tenant_id == Some(u.tenant_id),
        t.authority@ == authority_name(u.authority),
        u.authority == Authority::SysAdmin ==> t.authority@ == "SYS_ADMIN"@,
        u.authority == Authority::TenantAdmin ==> t.authority@ == "TENANT_ADMIN"@,
        u.authority == Authority::CustomerUser ==> t.authority@ == "CUSTOMER_USER"@,
        t.scopes@.len() == 1 && t.scopes@[0]@ == t.authority@,
{
}

/// Two token requests for one user are the same request.
pub proof fn lemma_token_request_unique(t1: TokenRequest, t2: TokenRequest, u: UserRecord)
    requires
        is_token_request_for(t1, u),
        is_token_request_for(t2, u),
    ensures
        t1.user_id == t2.user_id && t1.tenant_id == t2.tenant_id && t1.customer_id == t2.customer_id,
        t1.authority@ == t2.authority@,
        t1.scopes@.len() == t2.scopes@.len() && t1.scopes@[0]@ == t2.scopes@[0]@,
{
}

/// A pair of tokens as issued by the token service.
pub struct IssuedPair {
    pub token: String,
    pub refresh_token: String,
}

/// The login answer for an issued pair: the login body carries no scope.
pub fn pair_response(p: IssuedPair) -> (r: JwtPairResponse)
    ensures
        r.token@ == p.token@,
        r.refresh_token@ == p.refresh_token@,
        r.scope is None,
{
    JwtPairResponse { token: p.token, refresh_token: p.refresh_token, scope: None }
}

fn unauthorized(m: &str) -> (e: ApiError)
    ensures
        e matches ApiError::Unauthorized(x) && x@ == m@,
{
    ApiError::Unauthorized(m.to_owned())
}

// ── Login ───────────────────────────────────────────────────────────────────

/// What the login flow asks of the user store, the LDAP provider, the
/// password hasher and the token service.
pub enum LoginAction {
    FindUserByEmail { email: String },
    FindCredentials { user_id: u128 },
    FindLdapConfig { tenant_id: u128 },
    LdapAuthenticate { username: String, password: String },
    VerifyPassword { password: String, hash: String },
    FindTwoFactor { user_id: u128 },
    IssuePreVerificationToken { user_id: u128, token_tenant: Option<u128> },
    IssueToken { request: TokenRequest },
}

/// Their answers.
pub enum LoginEvent {
    User(Option<UserRecord>),
    Credentials(Option<CredentialsRecord>),
    /// Whether the tenant's LDAP configuration is enabled; `None` when there
    /// is none or it could not be read.
    LdapConfig(Option<bool>),
    LdapAuthenticated(bool),
    PasswordVerified(Result<bool, String>),
    TwoFactor(Result<Option<TwoFactorRecord>, String>),
    PreVerificationToken(Result<String, String>),
    Token(Result<IssuedPair, String>),
}

pub enum LoginStep {
    Ask(LoginAction),
    Reply(Result<JwtPairResponse, ApiError>),
}

#[derive(Clone, Copy, PartialEq, Eq, Structural)]
pub enum LoginStage {
    AwaitUser,
    AwaitCredentials,
    AwaitLdapConfig,
    AwaitLdapAuth,
    AwaitPassword,
    AwaitTwoFactor,
    AwaitPreToken,
    AwaitToken,
    Done,
}

/// One login attempt (`POST /auth/login`).
pub struct LoginFlow {
    pub username: String,
    pub password: String,
    pub stage: LoginStage,
    pub user: Option<UserRecord>,
}

/// Whether an answer is the one the flow waits for.
pub open spec fn login_event_fits(stage: LoginStage, ev: LoginEvent) -> bool {
    match stage {
        LoginStage::AwaitUser => ev is User,
        LoginStage::AwaitCredentials => ev is Credentials,
        LoginStage::AwaitLdapConfig => ev is LdapConfig,
        LoginStage::AwaitLdapAuth => ev is LdapAuthenticated,
        LoginStage::AwaitPassword => ev is PasswordVerified,
        LoginStage::AwaitTwoFactor => ev is TwoFactor,
        LoginStage::AwaitPreToken => ev is PreVerificationToken,
        LoginStage::AwaitToken => ev is Token,
        LoginStage::Done => false,
    }
}

pub open spec fn is_unauthorized(r: Result<JwtPairResponse, ApiError>, m: Seq<char>) -> bool {
    r matches Err(ApiError::Unauthorized(x)) && x@ == m
}

pub open spec fn is_internal(r: Result<JwtPairResponse, ApiError>, m: Seq<char>) -> bool {
    r matches Err(ApiError::Internal(x)) && x@ == m
}

impl LoginFlow {
    pub open spec fn wf(&self) -> bool {
        (self.stage != LoginStage::AwaitUser && self.stage != LoginStage::Done) ==> self.user is Some
    }

    /// Starts a login: the user is looked up by the given username (an email).
    pub fn start(req: LoginRequest) -> (r: (LoginFlow, LoginAction))
        ensures
            r.0.wf(),
            r.0.stage == LoginStage::AwaitUser,
            r.0.username@ == req.username@,
            r.0.password@ == req.password@,
            r.1 matches LoginAction::FindUserByEmail { email } && email@ == req.username@,
    {
        let email = req.username.clone();
        (LoginFlow { username: req.username, password: req.password, stage: LoginStage::AwaitUser, user: None },
        LoginAction::FindUserByEmail { email })
    }

    /// Feeds one answer to the flow and returns the next request or the
    /// reply. An unknown email, missing or disabled credentials, a failed
    /// LDAP bind or a wrong password are answered `Unauthorized`; a user
    /// without a local password logs in through an enabled LDAP
    /// configuration of its tenant only; a user with verified two-factor
    /// authentication gets a pre-verification token as both tokens.
    pub fn on_event(&mut self, ev: LoginEvent) -> (step: LoginStep)
        requires
            old(self).wf(),
            login_event_fits(old(self).stage, ev),
        ensures
            final(self).wf(),
            final(self).username == old(self).username,
            final(self).password == old(self).password,
            !(ev is User) ==> final(self).user == old(self).user,
            match ev {
                LoginEvent::User(None) => step matches LoginStep::Reply(r) && is_unauthorized(r, "Bad credentials"@)
                    && final(self).stage == LoginStage::Done,
                LoginEvent::User(Some(u)) => step matches LoginStep::Ask(LoginAction::FindCredentials { user_id })
                    && user_id == u.id && final(self).stage == LoginStage::AwaitCredentials && final(self).user == Some(u),
                LoginEvent::Credentials(None) => step matches LoginStep::Reply(r)
                    && is_unauthorized(r, "User credentials not found"@),
                LoginEvent::Credentials(Some(c)) => {
                    let u = old(self).user->0;
                    if !c.enabled {
                        step matches LoginStep::Reply(r) && is_unauthorized(r, "User account is disabled"@)
                    } else if c.password is None {
                        if u.authority == Authority::SysAdmin {
                            step matches LoginStep::Reply(r) && is_unauthorized(r, "User has no password set"@)
                        } else {
                            step matches LoginStep::Ask(LoginAction::FindLdapConfig { tenant_id })
                                && tenant_id == u.tenant_id && final(self).stage == LoginStage::AwaitLdapConfig
                        }
                    } else {
                        step matches LoginStep::Ask(LoginAction::VerifyPassword { password, hash })
                            && password@ == old(self).password@ && hash@ == c.password->0@
                            && final(self).stage == LoginStage::AwaitPassword
                    }
                },
                LoginEvent::LdapConfig(cfg) => if cfg == Some(true) {
                    step matches LoginStep::Ask(LoginAction::LdapAuthenticate { username, password })
                        && username@ == old(self).username@ && password@ == old(self).password@
                        && final(self).stage == LoginStage::AwaitLdapAuth
                } else {
                    step matches LoginStep::Reply(r) && is_unauthorized(r, "User has no password set"@)
                },
                LoginEvent::LdapAuthenticated(ok) => if ok {
                    step matches LoginStep::Ask(LoginAction::IssueToken { request })
                        && is_token_request_for(request, old(self).user->0) && final(self).stage == LoginStage::AwaitToken
                } else {
                    step matches LoginStep::Reply(r) && is_unauthorized(r, "Bad credentials"@)
                },
                LoginEvent::PasswordVerified(Err(e)) => step matches LoginStep::Reply(r) && is_internal(r, e@),
                LoginEvent::PasswordVerified(Ok(valid)) => if valid {
                    step matches LoginStep::Ask(LoginAction::FindTwoFactor { user_id })
                        && user_id == old(self).user->0.id && final(self).stage == LoginStage::AwaitTwoFactor
                } else {
                    step matches LoginStep::Reply(r) && is_unauthorized(r, "Bad credentials"@)
                },
                LoginEvent::TwoFactor(Err(e)) => step matches LoginStep::Reply(r) && is_internal(r, e@),
                LoginEvent::TwoFactor(Ok(t)) => if t matches Some(s) && s.enabled && s.verified {
                    step matches LoginStep::Ask(LoginAction::IssuePreVerificationToken { user_id, token_tenant: tt })
                        && user_id == old(self).user->0.id && tt == token_tenant(old(self).user->0)
                        && final(self).stage == LoginStage::AwaitPreToken
                } else {
                    step matches LoginStep::Ask(LoginAction::IssueToken { request })
                        && is_token_request_for(request, old(self).user->0) && final(self).stage == LoginStage::AwaitToken
                },
                LoginEvent::PreVerificationToken(Err(e)) => step matches LoginStep::Reply(r) && is_internal(r, e@),
                LoginEvent::PreVerificationToken(Ok(t)) => step matches LoginStep::Reply(Ok(p))
                    && p.token@ == t@ && p.refresh_token@ == t@ && p.scope is None,
                LoginEvent::Token(Err(e)) => step matches LoginStep::Reply(r) && is_internal(r, e@),
                LoginEvent::Token(Ok(p)) => step matches LoginStep::Reply(Ok(resp))
                    && resp.token@ == p.token@ && resp.refresh_token@ == p.refresh_token@ && resp.scope is None,
            },
            (step is Reply) <==> final(self).stage == LoginStage::Done,
    {
        match ev {
            LoginEvent::User(None) => {
                self.stage = LoginStage::Done;
                LoginStep::Reply(Err(unauthorized("Bad credentials")))
            },
            LoginEvent::User(Some(u)) => {
                let id = u.id;
                self.user = Some(u);
                self.stage = LoginStage::AwaitCredentials;
                LoginStep::Ask(LoginAction::FindCredentials { user_id: id })
            },
            LoginEvent::Credentials(None) => {
                self.stage = LoginStage::Done;
                LoginStep::Reply(Err(unauthorized("User credentials not found")))
            },
            LoginEvent::Credentials(Some(c)) => {
                if !c.enabled {
                    self.stage = LoginStage::Done;
                    return LoginStep::Reply(Err(unauthorized("User account is disabled")));
                }
                match c.password {
                    None => {
                        let (sys, tid) = match &self.user {
                            Some(u) => (u.authority == Authority::SysAdmin, u.tenant_id),
                            None => (true, 0),
                        };
                        if sys {
                            self.stage = LoginStage::Done;
                            LoginStep::Reply(Err(unauthorized("User has no password set")))
                        } else {
                            self.stage = LoginStage::AwaitLdapConfig;
                            LoginStep::Ask(LoginAction::FindLdapConfig { tenant_id: tid })
                        }
                    },
                    Some(hash) => {
                        self.stage = LoginStage::AwaitPassword;
                        LoginStep::Ask(LoginAction::VerifyPassword { password: self.password.clone(), hash })
                    },
                }
            },
            LoginEvent::LdapConfig(cfg) => {
                if cfg == Some(true) {
                    self.stage = LoginStage::AwaitLdapAuth;
                    LoginStep::Ask(
                        LoginAction::LdapAuthenticate { username: self.username.clone(), password: self.password.clone() },
                    )
                } else {
                    self.stage = LoginStage::Done;
                    LoginStep::Reply(Err(unauthorized("User has no password set")))
                }
            },
            LoginEvent::LdapAuthenticated(ok) => {
                if ok {
                    self.issue_full_token()
                } else {
                    self.stage = LoginStage::Done;
                    LoginStep::Reply(Err(unauthorized("Bad credentials")))
                }
            },
            LoginEvent::PasswordVerified(Err(e)) => {
                self.stage = LoginStage::Done;
                LoginStep::Reply(Err(ApiError::Internal(e)))
            },
            LoginEvent::PasswordVerified(Ok(valid)) => {
                if valid {
                    let id = match &self.user {
                        Some(u) => u.id,
                        None => 0,
                    };
                    self.stage = LoginStage::AwaitTwoFactor;
                    LoginStep::Ask(LoginAction::FindTwoFactor { user_id: id })
                } else {
                    self.stage = LoginStage::Done;
                    LoginStep::Reply(Err(unauthorized("Bad credentials")))
                }
            },
            LoginEvent::TwoFactor(Err(e)) => {
                self.stage = LoginStage::Done;
                LoginStep::Reply(Err(ApiError::Internal(e)))
            },
            LoginEvent::TwoFactor(Ok(t)) => {
                let pre = match &t {
                    Some(s) => s.enabled && s.verified,
                    None => false,
                };
                if pre {
                    let (id, tenant) = match &self.user {
                        Some(u) => (u.id, if u.authority == Authority::SysAdmin { None } else { Some(u.tenant_id) }),
                        None => (0, None),
                    };
                    self.stage = LoginStage::AwaitPreToken;
                    LoginStep::Ask(LoginAction::IssuePreVerificationToken { user_id: id, token_tenant: tenant })
                } else {
                    self.issue_full_token()
                }
            },
            LoginEvent::PreVerificationToken(Err(e)) => {
                self.stage = LoginStage::Done;
                LoginStep::Reply(Err(ApiError::Internal(e)))
            },
            LoginEvent::PreVerificationToken(Ok(t)) => {
                self.stage = LoginStage::Done;
                let r = t.clone();
                LoginStep::Reply(Ok(JwtPairResponse { token: t, refresh_token: r, scope: None }))
            },
            LoginEvent::Token(Err(e)) => {
                self.stage = LoginStage::Done;
                LoginStep::Reply(Err(ApiError::Internal(e)))
            },
            LoginEvent::Token(Ok(p)) => {
                self.stage = LoginStage::Done;
                LoginStep::Reply(Ok(pair_response(p)))
            },
        }
    }

    fn issue_full_token(&mut self) -> (step: LoginStep)
        requires
            old(self).user is Some,
        ensures
            final(self).user == old(self).user,
            final(self).username == old(self).username,
            final(self).password == old(self).password,
            final(self).stage == LoginStage::AwaitToken,
            step matches LoginStep::Ask(LoginAction::IssueToken { request })
                && is_token_request_for(request, old(self).user->0),
    {
        let req = match &self.user {
            Some(u) => token_request_for(u),
            None => {
                proof {
                    assert(false);
                }
                TokenRequest { user_id: 0, tenant_id: None, customer_id: None, authority: String::new(), scopes: Vec::new() }
            },
        };
        self.stage = LoginStage::AwaitToken;
        LoginStep::Ask(LoginAction::IssueToken { request: req })
    }
}

// ── Refresh ─────────────────────────────────────────────────────────────────

/// The decision of `POST /auth/token` once the refresh token was validated
/// and the user and credentials looked up: only a refresh token of an
/// existing, enabled user yields a new full token.
pub fn refresh_decision(
    is_refresh_token: bool,
    user: Option<UserRecord>,
    creds: Option<CredentialsRecord>,
) -> (r: Result<TokenRequest, ApiError>)
    ensures
        !is_refresh_token ==> (r matches Err(ApiError::Unauthorized(m)) && m@ == "Not a refresh token"@),
        is_refresh_token && user is None ==> (r matches Err(ApiError::Unauthorized(m)) && m@ == "User not found"@),
        is_refresh_token && user is Some && creds is None ==> (r matches Err(ApiError::Unauthorized(m))
            && m@ == "User credentials not found"@),
        is_refresh_token && user is Some && creds is Some && !creds->0.enabled ==> (r matches Err(
            ApiError::Unauthorized(m),
        ) && m@ == "User account is disabled"@),
        is_refresh_token && user is Some && creds is Some && creds->0.enabled ==> (r matches Ok(t)
            && is_token_request_for(t, user->0)),
{
    if !is_refresh_token {
        return Err(unauthorized("Not a refresh token"));
    }
    let u = match user {
        Some(u) => u,
        None => return Err(unauthorized("User not found")),
    };
    let c = match creds {
        Some(c) => c,
        None => return Err(unauthorized("User credentials not found")),
    };
    if !c.enabled {
        return Err(unauthorized("User account is disabled"));
    }
    Ok(token_request_for(&u))
}

// ── Passwords ───────────────────────────────────────────────────────────────

/// The length rule for new passwords: at least 6 bytes of UTF-8.
pub fn check_new_password(password: &str) -> (r: Result<(), ApiError>)
    ensures
        r is Ok <==> vstd::utf8::encode_utf8(password@).len() >= 6,
        r matches Err(e) ==> e matches ApiError::BadRequest(m) && m@ == "Password must be at least 6 characters"@,
{
    if password.as_bytes().len() < 6 {
        Err(ApiError::BadRequest("Password must be at least 6 characters".to_owned()))
    } else {
        Ok(())
    }
}

// ── Signup ──────────────────────────────────────────────────────────────────

/// The title of a tenant created by signup: the email up to its first `@`.
pub fn tenant_title(email: &str) -> (r: String)
    ensures
        r@ == before_first(email@, '@'),
{
    let v = chars_of(email);
    match find_char(&v, '@') {
        Some(i) => {
            let p = slice_chars(&v, 0, i);
            string_of(&p)
        },
        None => string_of(&v),
    }
}

/// The refusal of a signup whose email is taken.
pub open spec fn signup_email_taken_message(email: Seq<char>) -> Seq<char> {
    "An account with email '"@ + email + "' already exists."@
}

/// Refusal of a signup with an email that is taken.
pub fn signup_email_taken(email: &str) -> (e: ApiError)
    ensures
        e matches ApiError::BadRequest(m) && m@ == signup_email_taken_message(email@),
{
    let mut m = "An account with email '".to_owned();
    crate::text::append_str(&mut m, email);
    crate::text::append_str(&mut m, "' already exists.");
    ApiError::BadRequest(m)
}

/// A signup needs the default tenant profile, which the installation must have.
pub fn signup_profile(profile: Option<u128>) -> (r: Result<u128, ApiError>)
    ensures
        profile matches Some(p) ==> r == Ok::<u128, ApiError>(p),
        profile is None ==> (r matches Err(ApiError::Internal(m)) && m@ == "No default tenant profile configured"@),
{
    match profile {
        Some(p) => Ok(p),
        None => Err(ApiError::Internal("No default tenant profile configured".to_owned())),
    }
}

/// The tenant a signup creates.
pub struct TenantRecord {
    pub id: u128,
    pub created_time: i64,
    pub tenant_profile_id: u128,
    pub title: String,
    pub email: Option<String>,
    pub version: i64,
}

/// The subscription a signup provisions on the free plan.
pub struct SignupSubscription {
    pub id: u128,
    pub created_time: i64,
    pub updated_time: i64,
    pub tenant_id: u128,
    pub plan_id: u128,
    pub billing_cycle: String,
    pub status: String,
    pub cancel_at_period_end: bool,
}

/// Everything a signup stores: the tenant, its administrator, the
/// credentials (the hash of the password) and, when the free plan exists,
/// its subscription.
pub struct SignupRecords {
    pub tenant: TenantRecord,
    pub user: UserRecord,
    pub credentials_enabled: bool,
    pub password_hash: String,
    pub subscription: Option<SignupSubscription>,
}

/// The records of a signup, once the default tenant profile, the password
/// hash and the free plan are known: the tenant is titled after the email,
/// its user is a tenant administrator with enabled credentials, and the free
/// plan (when it exists) is subscribed monthly with status `free`. The ids are
/// fresh random UUIDs.
pub fn signup_records(
    req: &SignupRequest,
    profile_id: u128,
    password_hash: String,
    free_plan: Option<u128>,
    now: i64,
) -> (r: SignupRecords)
    ensures
        r.tenant.created_time == now,
        r.tenant.tenant_profile_id == profile_id,
        r.tenant.title@ == before_first(req.email@, '@'),
        r.tenant.email matches Some(e) && e@ == req.email@,
        r.tenant.version == 1,
        r.user.tenant_id == r.tenant.id,
        r.user.created_time == now,
        r.user.customer_id is None,
        r.user.email@ == req.email@,
        r.user.authority == Authority::TenantAdmin,
        crate::bulk_import::opt_view(r.user.first_name) == crate::bulk_import::opt_view(req.first_name),
        crate::bulk_import::opt_view(r.user.last_name) == crate::bulk_import::opt_view(req.last_name),
        r.user.phone is None,
        r.user.version == 1,
        r.credentials_enabled,
        r.password_hash@ == password_hash@,
        free_plan is None ==> r.subscription is None,
        free_plan matches Some(p) ==> r.subscription matches Some(s) && s.plan_id == p && s.tenant_id == r.tenant.id
            && s.created_time == now && s.updated_time == now && s.billing_cycle@ == "monthly"@ && s.status@ == "free"@
            && !s.cancel_at_period_end,
{
    let tenant_id = new_uuid_v4();
    let tenant = TenantRecord {
        id: tenant_id,
        created_time: now,
        tenant_profile_id: profile_id,
        title: tenant_title(req.email.as_str()),
        email: Some(req.email.clone()),
        version: 1,
    };
    let user = UserRecord {
        id: new_uuid_v4(),
        created_time: now,
        tenant_id,
        customer_id: None,
        email: req.email.clone(),
        authority: Authority::TenantAdmin,
        first_name: crate::bulk_import::clone_option(&req.first_name),
        last_name: crate::bulk_import::clone_option(&req.last_name),
        phone: None,
        version: 1,
    };
    let subscription = match free_plan {
        Some(p) => Some(
            SignupSubscription {
                id: new_uuid_v4(),
                created_time: now,
                updated_time: now,
                tenant_id,
                plan_id: p,
                billing_cycle: "monthly".to_owned(),
                status: "free".to_owned(),
                cancel_at_period_end: false,
            },
        ),
        None => None,
    };
    SignupRecords { tenant, user, credentials_enabled: true, password_hash, subscription }
}

// ── Signup flow ─────────────────────────────────────────────────────────────

/// What a signup asks of the stores and the password hasher, in this order.
pub enum SignupAction {
    /// Whether a user already has the email.
    FindUserByEmail { email: String },
    FindDefaultTenantProfile,
    SaveTenant { tenant: TenantRecord },
    SaveUser { user: UserRecord },
    HashPassword { password: String },
    SaveCredentials { id: u128, created_time: i64, user_id: u128, enabled: bool, password_hash: String },
    FindFreePlan,
    SaveSubscription { subscription: SignupSubscription },
}

/// The answers.
pub enum SignupEvent {
    EmailTaken(bool),
    DefaultTenantProfile(Option<u128>),
    Saved,
    PasswordHash(Result<String, String>),
    FreePlan(Option<u128>),
}

pub enum SignupStep {
    Ask(SignupAction),
    /// `Ok` is `201 Created`.
    Reply(Result<(), ApiError>),
}

#[derive(Clone, Copy, PartialEq, Eq, Structural)]
pub enum SignupStage {
    AwaitEmailCheck,
    AwaitProfile,
    AwaitTenantSaved,
    AwaitUserSaved,
    AwaitHash,
    AwaitCredentialsSaved,
    AwaitFreePlan,
    AwaitSubscriptionSaved,
    Done,
}

/// One signup (`POST /noauth/signup`).
pub struct SignupFlow {
    pub req: SignupRequest,
    pub now: i64,
    pub stage: SignupStage,
    pub tenant_id: u128,
    pub user_id: u128,
}

pub open spec fn signup_event_fits(stage: SignupStage, ev: SignupEvent) -> bool {
    match stage {
        SignupStage::AwaitEmailCheck => ev is EmailTaken,
        SignupStage::AwaitProfile => ev is DefaultTenantProfile,
        SignupStage::AwaitTenantSaved | SignupStage::AwaitUserSaved | SignupStage::AwaitCredentialsSaved
            | SignupStage::AwaitSubscriptionSaved => ev is Saved,
        SignupStage::AwaitHash => ev is PasswordHash,
        SignupStage::AwaitFreePlan => ev is FreePlan,
        SignupStage::Done => false,
    }
}

/// The actions that write a record.
pub open spec fn is_signup_write(a: SignupAction) -> bool {
    a is SaveTenant || a is SaveUser || a is SaveCredentials || a is SaveSubscription
}

/// The tenant of a signup: titled after the email, with the email, version 1.
pub open spec fn is_signup_tenant(t: TenantRecord, req: SignupRequest, profile_id: u128, now: i64) -> bool {
    &&& t.created_time == now
    &&& t.tenant_profile_id == profile_id
    &&& t.title@ == before_first(req.email@, '@')
    &&& t.email matches Some(e) && e@ == req.email@
    &&& t.version == 1
}

/// The administrator of a signed-up tenant.
pub open spec fn is_signup_user(u: UserRecord, req: SignupRequest, tenant_id: u128, now: i64) -> bool {
    &&& u.tenant_id == tenant_id
    &&& u.created_time == now
    &&& u.customer_id is None
    &&& u.email@ == req.email@
    &&& u.authority == Authority::TenantAdmin
    &&& crate::bulk_import::opt_view(u.first_name) == crate::bulk_import::opt_view(req.first_name)
    &&& crate::bulk_import::opt_view(u.last_name) == crate::bulk_import::opt_view(req.last_name)
    &&& u.phone is None
    &&& u.version == 1
}

impl SignupFlow {
    /// Starts a signup at time `now`: first the email is checked.
    pub fn start(req: SignupRequest, now: i64) -> (r: (SignupFlow, SignupAction))
        ensures
            r.0.stage == SignupStage::AwaitEmailCheck,
            r.0.req == req,
            r.0.now == now,
            r.1 matches SignupAction::FindUserByEmail { email } && email@ == req.email@,
    {
        let email = req.email.clone();
        (SignupFlow { req, now, stage: SignupStage::AwaitEmailCheck, tenant_id: 0, user_id: 0 },
        SignupAction::FindUserByEmail { email })
    }

    /// Feeds one answer to the signup. A taken email is refused before anything
    /// is written; then the tenant, its administrator, the credentials (the hash
    /// of the password) and, when the free plan exists, its subscription are
    /// saved in that order, each under a fresh id.
    pub fn on_event(&mut self, ev: SignupEvent) -> (step: SignupStep)
        requires
            signup_event_fits(old(self).stage, ev),
        ensures
            final(self).req == old(self).req,
            final(self).now == old(self).now,
            (step is Reply) <==> final(self).stage == SignupStage::Done,
            old(self).stage == SignupStage::AwaitEmailCheck ==> !(step matches SignupStep::Ask(a) && is_signup_write(a)),
            match ev {
                SignupEvent::EmailTaken(true) => step matches SignupStep::Reply(Err(ApiError::BadRequest(m)))
                    && m@ == signup_email_taken_message(old(self).req.email@)
                    && final(self).stage == SignupStage::Done,
                SignupEvent::EmailTaken(false) => step matches SignupStep::Ask(SignupAction::FindDefaultTenantProfile)
                    && final(self).stage == SignupStage::AwaitProfile,
                SignupEvent::DefaultTenantProfile(None) => step matches SignupStep::Reply(Err(ApiError::Internal(m)))
                    && m@ == "No default tenant profile configured"@,
                SignupEvent::DefaultTenantProfile(Some(p)) => step matches SignupStep::Ask(SignupAction::SaveTenant { tenant })
                    && tenant.id == final(self).tenant_id
                    && is_signup_tenant(tenant, old(self).req, p, old(self).now)
                    && final(self).stage == SignupStage::AwaitTenantSaved,
                SignupEvent::Saved => match old(self).stage {
                    SignupStage::AwaitTenantSaved => step matches SignupStep::Ask(SignupAction::SaveUser { user })
                        && user.id == final(self).user_id && final(self).tenant_id == old(self).tenant_id
                        && is_signup_user(user, old(self).req, old(self).tenant_id, old(self).now)
                        && final(self).stage == SignupStage::AwaitUserSaved,
                    SignupStage::AwaitUserSaved => step matches SignupStep::Ask(SignupAction::HashPassword { password })
                        && password@ == old(self).req.password@ && final(self).stage == SignupStage::AwaitHash
                        && final(self).tenant_id == old(self).tenant_id && final(self).user_id == old(self).user_id,
                    SignupStage::AwaitCredentialsSaved => step matches SignupStep::Ask(SignupAction::FindFreePlan)
                        && final(self).stage == SignupStage::AwaitFreePlan
                        && final(self).tenant_id == old(self).tenant_id && final(self).user_id == old(self).user_id,
                    _ => step matches SignupStep::Reply(Ok(())),
                },
                SignupEvent::PasswordHash(Err(e)) => step matches SignupStep::Reply(Err(ApiError::Internal(m))) && m@ == e@,
                SignupEvent::PasswordHash(Ok(h)) => step matches SignupStep::Ask(SignupAction::SaveCredentials {
                    id, created_time, user_id, enabled, password_hash })
                    && created_time == old(self).now && user_id == old(self).user_id && enabled
                    && password_hash@ == h@
                    && final(self).stage == SignupStage::AwaitCredentialsSaved
                    && final(self).tenant_id == old(self).tenant_id && final(self).user_id == old(self).user_id,
                SignupEvent::FreePlan(None) => step matches SignupStep::Reply(Ok(())),
                SignupEvent::FreePlan(Some(p)) => step matches SignupStep::Ask(SignupAction::SaveSubscription { subscription: s })
                    && s.plan_id == p && s.tenant_id == old(self).tenant_id
                    && s.created_time == old(self).now && s.updated_time == old(self).now
                    && s.billing_cycle@ == "monthly"@ && s.status@ == "free"@ && !s.cancel_at_period_end
                    && final(self).stage == SignupStage::AwaitSubscriptionSaved,
            },
    {
        match ev {
            SignupEvent::EmailTaken(taken) => {
                if taken {
                    self.stage = SignupStage::Done;
                    SignupStep::Reply(Err(signup_email_taken(self.req.email.as_str())))
                } else {
                    self.stage = SignupStage::AwaitProfile;
                    SignupStep::Ask(SignupAction::FindDefaultTenantProfile)
                }
            },
            SignupEvent::DefaultTenantProfile(profile) => match signup_profile(profile) {
                Err(e) => {
                    self.stage = SignupStage::Done;
                    SignupStep::Reply(Err(e))
                },
                Ok(p) => {
                    let id = new_uuid_v4();
                    let tenant = TenantRecord {
                        id,
                        created_time: self.now,
                        tenant_profile_id: p,
                        title: tenant_title(self.req.email.as_str()),
                        email: Some(self.req.email.clone()),
                        version: 1,
                    };
                    self.tenant_id = id;
                    self.stage = SignupStage::AwaitTenantSaved;
                    SignupStep::Ask(SignupAction::SaveTenant { tenant })
                },
            },
            SignupEvent::Saved => {
                if self.stage == SignupStage::AwaitTenantSaved {
                    let id = new_uuid_v4();
                    let user = UserRecord {
                        id,
                        created_time: self.now,
                        tenant_id: self.tenant_id,
                        customer_id: None,
                        email: self.req.email.clone(),
                        authority: Authority::TenantAdmin,
                        first_name: crate::bulk_import::clone_option(&self.req.first_name),
                        last_name: crate::bulk_import::clone_option(&self.req.last_name),
                        phone: None,
                        version: 1,
                    };
                    self.user_id = id;
                    self.stage = SignupStage::AwaitUserSaved;
                    SignupStep::Ask(SignupAction::SaveUser { user })
                } else if self.stage == SignupStage::AwaitUserSaved {
                    self.stage = SignupStage::AwaitHash;
                    SignupStep::Ask(SignupAction::HashPassword { password: self.req.password.clone() })
                } else if self.stage == SignupStage::AwaitCredentialsSaved {
                    self.stage = SignupStage::AwaitFreePlan;
                    SignupStep::Ask(SignupAction::FindFreePlan)
                } else {
                    self.stage = SignupStage::Done;
                    SignupStep::Reply(Ok(()))
                }
            },
            SignupEvent::PasswordHash(Err(e)) => {
                self.stage = SignupStage::Done;
                SignupStep::Reply(Err(ApiError::Internal(e)))
            },
            SignupEvent::PasswordHash(Ok(h)) => {
                self.stage = SignupStage::AwaitCredentialsSaved;
                SignupStep::Ask(SignupAction::SaveCredentials {
                    id: new_uuid_v4(),
                    created_time: self.now,
                    user_id: self.user_id,
                    enabled: true,
                    password_hash: h,
                })
            },
            SignupEvent::FreePlan(None) => {
                self.stage = SignupStage::Done;
                SignupStep::Reply(Ok(()))
            },
            SignupEvent::FreePlan(Some(p)) => {
                self.stage = SignupStage::AwaitSubscriptionSaved;
                SignupStep::Ask(SignupAction::SaveSubscription {
                    subscription: SignupSubscription {
                        id: new_uuid_v4(),
                        created_time: self.now,
                        updated_time: self.now,
                        tenant_id: self.tenant_id,
                        plan_id: p,
                        billing_cycle: "monthly".to_owned(),
                        status: "free".to_owned(),
                        cancel_at_period_end: false,
                    },
                })
            },
        }
    }
}

// ── Views of users ──────────────────────────────────────────────────────────

/// A user as the API shows it.
pub struct UserResponse {
    pub id: IdResponse,
    pub created_time: i64,
    pub tenant_id: IdResponse,
    pub customer_id: Option<IdResponse>,
    pub name: String,
    pub authority: String,
    pub email: String,
    pub first_name: Option<String>,
    pub last_name: Option<String>,
    pub phone: Option<String>,
    pub version: i64,
}

impl UserResponse {
    /// The view of a user: the email doubles as its name.
    pub fn from_user(u: UserRecord) -> (r: UserResponse)
        ensures
            r.id.id == u.id && r.id.entity_type@ == "USER"@,
            r.created_time == u.created_time,
            r.tenant_id.id == u.tenant_id && r.tenant_id.entity_type@ == "TENANT"@,
            u.customer_id is None ==> r.customer_id is None,
            u.customer_id matches Some(c) ==> r.customer_id matches Some(x) && x.id == c && x.entity_type@ == "CUSTOMER"@,
            r.name@ == u.email@,
            r.email@ == u.email@,
            r.authority@ == authority_name(u.authority),
            r.first_name == u.first_name,
            r.last_name == u.last_name,
            r.phone == u.phone,
            r.version == u.version,
    {
        let name = u.email.clone();
        UserResponse {
            id: IdResponse::new(u.id, "USER"),
            created_time: u.created_time,
            tenant_id: IdResponse::tenant(u.tenant_id),
            customer_id: match u.customer_id {
                Some(c) => Some(IdResponse::customer(c)),
                None => None,
            },
            name,
            authority: authority_to_str(u.authority).to_owned(),
            email: u.email,
            first_name: u.first_name,
            last_name: u.last_name,
            phone: u.phone,
            version: u.version,
        }
    }
}

// ── Reset tokens and backup codes ───────────────────────────────────────────

/// A password-reset token: a random UUID written as 32 lowercase hex digits
/// (its hyphenated form with the hyphens removed).
pub fn new_reset_token() -> (r: String)
    ensures
        exists|u: u128| r@ == hex_of_u128(u),
{
    crate::edges::random_key()
}

/// The character for `idx < 36` in a backup code: `0-9` then `A-Z`.
pub open spec fn backup_code_char(idx: int) -> char {
    if idx < 10 {
        ((48 + idx) as u32) as char
    } else {
        ((65 + idx - 10) as u32) as char
    }
}

pub open spec fn is_backup_code_char(c: char) -> bool {
    ('0' <= c && c <= '9') || ('A' <= c && c <= 'Z')
}

/// The shape of a backup code: `XXXX-XXXX-XXXX` over `0-9A-Z`.
pub open spec fn is_backup_code(s: Seq<char>) -> bool {
    &&& s.len() == 14
    &&& s[4] == '-'
    &&& s[9] == '-'
    &&& forall|i: int| 0 <= i < 14 && i != 4 && i != 9 ==> is_backup_code_char(#[trigger] s[i])
}

/// Twelve random characters over `0-9A-Z`, grouped by four with hyphens.
pub fn new_backup_code() -> (r: String)
    ensures
        is_backup_code(r@),
{
    let mut r = String::new();
    let mut i: usize = 0;
    while i < 12
        invariant
            i <= 12,
            r@.len() == i + (if i > 8 { 2int } else if i > 4 { 1int } else { 0int }),
            forall|k: int| 0 <= k < r@.len() && k != 4 && k != 9 ==> is_backup_code_char(#[trigger] r@[k]),
            i > 4 ==> r@[4] == '-',
            i > 8 ==> r@[9] == '-',
        decreases 12 - i,
    {
        if i == 4 || i == 8 {
            push_char(&mut r, '-');
        }
        let idx = random_below(36);
        let c: char = if idx < 10 {
            (48u8 + idx as u8) as char
        } else {
            (65u8 + (idx - 10) as u8) as char
        };
        push_char(&mut r, c);
        i = i + 1;
    }
    r
}

/// Ten fresh backup codes.
pub fn new_backup_codes() -> (r: Vec<String>)
    ensures
        r@.len() == 10,
        forall|i: int| 0 <= i < 10 ==> is_backup_code(#[trigger] r@[i]@),
{
    let mut r: Vec<String> = Vec::new();
    let mut i: usize = 0;
    while i < 10
        invariant
            i <= 10,
            r@.len() == i,
            forall|k: int| 0 <= k < i ==> is_backup_code(#[trigger] r@[k]@),
        decreases 10 - i,
    {
        r.push(new_backup_code());
        i = i + 1;
    }
    r
}

/// Regenerating backup codes is allowed only while 2FA is enabled.
pub fn backup_codes_allowed(settings: Option<TwoFactorRecord>) -> (r: Result<(), ApiError>)
    ensures
        settings is None ==> (r matches Err(ApiError::NotFound(m)) && m@ == "2FA settings not found"@),
        settings is Some && !settings->0.enabled ==> (r matches Err(ApiError::BadRequest(m))
            && m@ == "2FA is not enabled"@),
        settings is Some && settings->0.enabled ==> r is Ok,
{
    match settings {
        None => Err(ApiError::NotFound("2FA settings not found".to_owned())),
        Some(s) => if !s.enabled {
            Err(ApiError::BadRequest("2FA is not enabled".to_owned()))
        } else {
            Ok(())
        },
    }
}

// ── Password policy, OAuth2 clients, 2FA providers, sessions ────────────────

/// The password rules shown to users.
pub struct PasswordPolicy {
    pub minimum_length: i64,
    pub minimum_uppercase_letters: i64,
    pub minimum_lowercase_letters: i64,
    pub minimum_digits: i64,
    pub minimum_special_characters: i64,
    pub password_expiration_period_days: i64,
    pub allow_whitespaces: bool,
    pub force_user_to_reset_password_if_not_valid: bool,
}

/// Six characters at least, nothing else required, no expiry, blanks allowed.
pub fn user_password_policy() -> (p: PasswordPolicy)
    ensures
        p.minimum_length == 6,
        p.minimum_uppercase_letters == 0 && p.minimum_lowercase_letters == 0,
        p.minimum_digits == 0 && p.minimum_special_characters == 0,
        p.password_expiration_period_days == 0,
        p.allow_whitespaces && !p.force_user_to_reset_password_if_not_valid,
{
    PasswordPolicy {
        minimum_length: 6,
        minimum_uppercase_letters: 0,
        minimum_lowercase_letters: 0,
        minimum_digits: 0,
        minimum_special_characters: 0,
        password_expiration_period_days: 0,
        allow_whitespaces: true,
        force_user_to_reset_password_if_not_valid: false,
    }
}

/// An OAuth2 login option shown on the login page.
pub struct OAuth2ClientLink {
    pub id: u128,
    pub name: String,
    pub icon: String,
    pub url: String,
}

/// The login option of a registration: its provider's name as name and icon, and
/// the authorization URL of its id.
pub fn oauth2_client_link(id: u128, provider_name: String) -> (r: OAuth2ClientLink)
    ensures
        r.id == id && r.name == provider_name && r.icon == provider_name,
        r.url@ == "/api/noauth/oauth2/authorize/"@ + crate::common::uuid_text(id),
{
    let url = concat_str("/api/noauth/oauth2/authorize/", crate::common::uuid_to_string(id).as_str());
    OAuth2ClientLink { id, name: provider_name.clone(), icon: provider_name, url }
}

/// The second-factor providers on offer: TOTP only.
pub fn twofa_providers() -> (r: Vec<String>)
    ensures
        r@.len() == 1 && r@[0]@ == "TOTP"@,
{
    let mut v: Vec<String> = Vec::new();
    v.push("TOTP".to_owned());
    v
}

/// A token is revoked on logout only when it carries an id.
pub fn revokes_token(ctx: &SecurityContext) -> (r: bool)
    ensures
        r == (ctx.jti@.len() > 0),
{
    ctx.jti.unicode_len() > 0
}

/// The stored password hash a password change checks against.
pub fn current_password_hash(creds: Option<CredentialsRecord>) -> (r: Result<String, ApiError>)
    ensures
        creds is None ==> (r matches Err(ApiError::NotFound(m)) && m@ == "User credentials not found"@),
        creds matches Some(c) ==> (match c.password {
            Some(h) => r == Ok::<String, ApiError>(h),
            None => r matches Err(ApiError::Unauthorized(m)) && m@ == "No password set"@,
        }),
{
    match creds {
        None => Err(ApiError::NotFound("User credentials not found".to_owned())),
        Some(c) => match c.password {
            Some(h) => Ok(h),
            None => Err(ApiError::Unauthorized("No password set".to_owned())),
        },
    }
}

/// A password change whose current password does not match is refused.
pub fn current_password_outcome(valid: bool) -> (r: Result<(), ApiError>)
    ensures
        valid <==> r is Ok,
        r matches Err(e) ==> (e matches ApiError::Unauthorized(m) && m@ == "Current password is incorrect"@),
{
    if valid { Ok(()) } else { Err(ApiError::Unauthorized("Current password is incorrect".to_owned())) }
}

/// A reset whose token is unknown or used up.
pub fn reset_token_unknown() -> (e: ApiError)
    ensures
        e matches ApiError::NotFound(m) && m@ == "Reset token not found or expired"@,
{
    ApiError::NotFound("Reset token not found or expired".to_owned())
}

} // verus!
