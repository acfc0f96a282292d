use vl_api::auth::{SignupAction, SignupEvent, SignupFlow, SignupRequest, SignupStep};
use vl_api::billing::{
    free_plan_fallback, CheckoutAction, CheckoutEvent, CheckoutFlow, CheckoutRequest, CheckoutStep, PlanLookup,
    SubscriptionPlan, TenantSubscription, WebhookAction, WebhookEvent, WebhookFlow, WebhookKind, WebhookStatus,
    WebhookStep,
};
use vl_api::error::ApiError;
use vl_api::security::Authority;

fn signup_req() -> SignupRequest {
    SignupRequest { email: "eve@example.com".into(), password: "pw123456".into(), first_name: None, last_name: Some("E".into()) }
}

#[test]
fn signup_with_taken_email_writes_nothing() {
    let (mut f, a) = SignupFlow::start(signup_req(), 10);
    assert!(matches!(a, SignupAction::FindUserByEmail { ref email } if email == "eve@example.com"));
    match f.on_event(SignupEvent::EmailTaken(true)) {
        SignupStep::Reply(Err(ApiError::BadRequest(m))) => {
            assert_eq!(m, "An account with email 'eve@example.com' already exists.")
        }
        _ => panic!("expected the refusal"),
    }
}

#[test]
fn signup_saves_tenant_user_credentials_and_subscription_in_order() {
    let (mut f, _) = SignupFlow::start(signup_req(), 10);
    assert!(matches!(f.on_event(SignupEvent::EmailTaken(false)), SignupStep::Ask(SignupAction::FindDefaultTenantProfile)));
    let tenant_id = match f.on_event(SignupEvent::DefaultTenantProfile(Some(5))) {
        SignupStep::Ask(SignupAction::SaveTenant { tenant }) => {
            assert_eq!(tenant.title, "eve");
            assert_eq!(tenant.tenant_profile_id, 5);
            assert_eq!(tenant.created_time, 10);
            tenant.id
        }
        _ => panic!("expected the tenant"),
    };
    let user_id = match f.on_event(SignupEvent::Saved) {
        SignupStep::Ask(SignupAction::SaveUser { user }) => {
            assert_eq!(user.tenant_id, tenant_id);
            assert!(user.authority == Authority::TenantAdmin);
            assert_eq!(user.last_name.as_deref(), Some("E"));
            user.id
        }
        _ => panic!("expected the user"),
    };
    assert!(matches!(f.on_event(SignupEvent::Saved), SignupStep::Ask(SignupAction::HashPassword { ref password })
        if password == "pw123456"));
    match f.on_event(SignupEvent::PasswordHash(Ok("$h".into()))) {
        SignupStep::Ask(SignupAction::SaveCredentials { user_id: u, enabled, password_hash, created_time, .. }) => {
            assert_eq!(u, user_id);
            assert!(enabled);
            assert_eq!(password_hash, "$h");
            assert_eq!(created_time, 10);
        }
        _ => panic!("expected the credentials"),
    }
    assert!(matches!(f.on_event(SignupEvent::Saved), SignupStep::Ask(SignupAction::FindFreePlan)));
    match f.on_event(SignupEvent::FreePlan(Some(77))) {
        SignupStep::Ask(SignupAction::SaveSubscription { subscription }) => {
            assert_eq!(subscription.plan_id, 77);
            assert_eq!(subscription.tenant_id, tenant_id);
            assert_eq!(subscription.status, "free");
        }
        _ => panic!("expected the subscription"),
    }
    assert!(matches!(f.on_event(SignupEvent::Saved), SignupStep::Reply(Ok(()))));
}

#[test]
fn signup_refusals_after_the_email_check() {
    let (mut f, _) = SignupFlow::start(signup_req(), 10);
    f.on_event(SignupEvent::EmailTaken(false));
    assert!(matches!(f.on_event(SignupEvent::DefaultTenantProfile(None)),
        SignupStep::Reply(Err(ApiError::Internal(ref m))) if m == "No default tenant profile configured"));
    let (mut f, _) = SignupFlow::start(signup_req(), 10);
    f.on_event(SignupEvent::EmailTaken(false));
    f.on_event(SignupEvent::DefaultTenantProfile(Some(1)));
    f.on_event(SignupEvent::Saved);
    f.on_event(SignupEvent::Saved);
    assert!(matches!(f.on_event(SignupEvent::PasswordHash(Err("bad".into()))),
        SignupStep::Reply(Err(ApiError::Internal(ref m))) if m == "bad"));
    let (mut f, _) = SignupFlow::start(signup_req(), 10);
    f.on_event(SignupEvent::EmailTaken(false));
    f.on_event(SignupEvent::DefaultTenantProfile(Some(1)));
    f.on_event(SignupEvent::Saved);
    f.on_event(SignupEvent::Saved);
    f.on_event(SignupEvent::PasswordHash(Ok("h".into())));
    f.on_event(SignupEvent::Saved);
    assert!(matches!(f.on_event(SignupEvent::FreePlan(None)), SignupStep::Reply(Ok(()))));
}

fn checkout_req(cycle: &str) -> CheckoutRequest {
    CheckoutRequest { plan_id: None, plan_name: Some("pro".into()), billing_cycle: cycle.into(), success_url: None, cancel_url: None }
}

fn pro() -> SubscriptionPlan {
    let mut p = free_plan_fallback();
    p.name = "pro".into();
    p.id = 3;
    p.stripe_price_id_monthly = Some("pm".into());
    p.stripe_price_id_annually = Some("pa".into());
    p
}

fn stored(customer: Option<&str>) -> TenantSubscription {
    TenantSubscription {
        id: 40,
        created_time: 1,
        updated_time: 1,
        tenant_id: 7,
        plan_id: 3,
        stripe_customer_id: customer.map(|c| c.to_string()),
        stripe_subscription_id: None,
        billing_cycle: "monthly".into(),
        status: "active".into(),
        current_period_start: None,
        current_period_end: None,
        trial_end: None,
        cancel_at_period_end: false,
        canceled_at: None,
    }
}

#[test]
fn checkout_needs_stripe_and_a_plan() {
    let (_, s) = CheckoutFlow::start(7, 8, checkout_req("monthly"), false);
    assert!(matches!(s, CheckoutStep::Reply(Err(ApiError::NotImplemented(ref m))) if m == "Stripe not configured"));
    let (mut f, s) = CheckoutFlow::start(7, 8, checkout_req("monthly"), true);
    assert!(matches!(s, CheckoutStep::Ask(CheckoutAction::FindPlan(PlanLookup::ByName(ref n))) if n == "pro"));
    assert!(matches!(f.on_event(CheckoutEvent::Plan(None)), CheckoutStep::Reply(Err(ApiError::NotFound(ref m)))
        if m == "Plan 'pro' not found"));
    let (mut f, _) = CheckoutFlow::start(7, 8, checkout_req("monthly"), true);
    f.on_event(CheckoutEvent::Plan(Some(pro())));
    assert!(matches!(f.on_event(CheckoutEvent::Tenant(None)), CheckoutStep::Reply(Err(ApiError::NotFound(ref m)))
        if m == "Tenant not found"));
}

#[test]
fn checkout_reuses_an_existing_customer() {
    let (mut f, _) = CheckoutFlow::start(7, 8, checkout_req("annually"), true);
    assert!(matches!(f.on_event(CheckoutEvent::Plan(Some(pro()))), CheckoutStep::Ask(CheckoutAction::FindTenant { tenant_id: 7 })));
    assert!(matches!(f.on_event(CheckoutEvent::Tenant(Some("Acme".into()))),
        CheckoutStep::Ask(CheckoutAction::FindUserEmail { user_id: 8 })));
    assert!(matches!(f.on_event(CheckoutEvent::UserEmail(None)), CheckoutStep::Ask(CheckoutAction::FindSubscription { tenant_id: 7 })));
    match f.on_event(CheckoutEvent::Subscription(Some(stored(Some("cus_1"))))) {
        CheckoutStep::Ask(CheckoutAction::CreateSession { customer_id, price_id, tenant_id, billing_cycle }) => {
            assert_eq!((customer_id.as_str(), price_id.as_str(), tenant_id, billing_cycle.as_str()), ("cus_1", "pa", 7, "annually"));
        }
        _ => panic!("expected the session"),
    }
    assert!(matches!(f.on_event(CheckoutEvent::Session(Ok(()))), CheckoutStep::Reply(Ok(()))));
}

#[test]
fn checkout_creates_and_records_a_new_customer_first() {
    let (mut f, _) = CheckoutFlow::start(7, 8, checkout_req("monthly"), true);
    f.on_event(CheckoutEvent::Plan(Some(pro())));
    f.on_event(CheckoutEvent::Tenant(Some("Acme".into())));
    f.on_event(CheckoutEvent::UserEmail(None));
    match f.on_event(CheckoutEvent::Subscription(None)) {
        CheckoutStep::Ask(CheckoutAction::CreateCustomer { tenant_id, email, tenant_title }) => {
            assert_eq!(tenant_id, 7);
            assert_eq!(email, "tenant-00000000-0000-0000-0000-000000000007@vielang.local");
            assert_eq!(tenant_title, "Acme");
        }
        _ => panic!("expected the customer"),
    }
    assert!(matches!(f.on_event(CheckoutEvent::Customer(Ok("cus_9".into()))), CheckoutStep::Ask(CheckoutAction::FindFreePlan)));
    match f.on_event(CheckoutEvent::FreePlan(Some(1))) {
        CheckoutStep::Ask(CheckoutAction::SaveSubscription { subscription }) => {
            assert_eq!(subscription.plan_id, 1);
            assert_eq!(subscription.status, "free");
            assert_eq!(subscription.stripe_customer_id.as_deref(), Some("cus_9"));
        }
        _ => panic!("expected the subscription"),
    }
    assert!(matches!(f.on_event(CheckoutEvent::Saved), CheckoutStep::Ask(CheckoutAction::CreateSession { ref customer_id, ref price_id, .. })
        if customer_id == "cus_9" && price_id == "pm"));
    assert!(matches!(f.on_event(CheckoutEvent::Session(Err("down".into()))),
        CheckoutStep::Reply(Err(ApiError::Internal(ref m))) if m == "down"));
}

#[test]
fn webhook_duplicate_is_skipped() {
    let (mut f, s) = WebhookFlow::start(true, Some("sig".into()));
    assert!(matches!(s, WebhookStep::Ask(WebhookAction::VerifySignature { ref signature }) if signature == "sig"));
    assert!(matches!(f.on_event(WebhookEvent::Verified(Ok(("evt_1".into(), "invoice.payment_failed".into())))),
        WebhookStep::Ask(WebhookAction::EventExists { ref event_id }) if event_id == "evt_1"));
    assert!(matches!(f.on_event(WebhookEvent::Exists(true)), WebhookStep::Reply(Ok(WebhookStatus::Duplicate))));
}

#[test]
fn webhook_new_event_is_stored_handled_and_marked() {
    let (mut f, _) = WebhookFlow::start(true, Some("sig".into()));
    f.on_event(WebhookEvent::Verified(Ok(("evt_2".into(), "invoice.payment_failed".into()))));
    assert!(matches!(f.on_event(WebhookEvent::Exists(false)), WebhookStep::Ask(WebhookAction::InsertEvent { ref event_id, ref event_type })
        if event_id == "evt_2" && event_type == "invoice.payment_failed"));
    assert!(matches!(f.on_event(WebhookEvent::Inserted), WebhookStep::Ask(WebhookAction::Handle { kind: WebhookKind::InvoiceFailed })));
    assert!(matches!(f.on_event(WebhookEvent::Handled(Err("boom".into()))),
        WebhookStep::Ask(WebhookAction::MarkProcessed { ref error, .. }) if error.as_deref() == Some("boom")));
    assert!(matches!(f.on_event(WebhookEvent::Marked), WebhookStep::Reply(Ok(WebhookStatus::Failed(ref m))) if m == "boom"));
}

#[test]
fn webhook_refusals() {
    let (_, s) = WebhookFlow::start(false, Some("sig".into()));
    assert!(matches!(s, WebhookStep::Reply(Err(ApiError::NotImplemented(_)))));
    let (_, s) = WebhookFlow::start(true, None);
    assert!(matches!(s, WebhookStep::Reply(Err(ApiError::BadRequest(ref m))) if m == "Missing Stripe-Signature header"));
    let (mut f, _) = WebhookFlow::start(true, Some("sig".into()));
    assert!(matches!(f.on_event(WebhookEvent::Verified(Err("bad sig".into()))),
        WebhookStep::Reply(Err(ApiError::Unauthorized(ref m))) if m == "Webhook verification failed: bad sig"));
}
