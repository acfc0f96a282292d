use vl_api::billing::{billing_period_range, free_plan_fallback};

#[test]
fn free_plan_fallback_has_correct_defaults() {
    let plan = free_plan_fallback();
    assert_eq!(plan.name, "free");
    assert_eq!(plan.display_name, "Free");
    assert_eq!(plan.max_devices, 10);
    assert_eq!(plan.max_users, 3);
    assert!(plan.is_active);
    assert!(!plan.feature_white_label);
    assert_eq!(plan.id, 0u128);
}

#[test]
fn billing_period_range_parses_valid_period() {
    let range = billing_period_range("2026-03");
    assert!(range.start > 0);
    assert!(range.end > range.start);
}

#[test]
fn billing_period_range_returns_zero_for_invalid() {
    let range = billing_period_range("invalid");
    assert_eq!(range.start, 0);
    assert_eq!(range.end, 0);
}

use vl_api::billing::{
    activated_subscription, billing_cycle_display, checkout_price_id, checkout_tenant, current_subscription,
    customer_email, customer_subscription, default_subscription, downgraded_subscription, empty_usage,
    find_plan_for_price, invoice_failed_status, invoice_paid_status, plan_lookup, plan_not_found,
    subscription_updated_status, verification_failed, webhook_kind, webhook_preflight, webhook_status,
    CheckoutRequest, CheckoutSessionFields, PlanLookup, SubscriptionPlan, TenantSubscription, WebhookKind,
    WebhookStatus,
};
use vl_api::error::ApiError;

fn plan(name: &str, monthly: Option<&str>, annual: Option<&str>, id: u128) -> SubscriptionPlan {
    let mut p = free_plan_fallback();
    p.name = name.to_string();
    p.id = id;
    p.stripe_price_id_monthly = monthly.map(|s| s.to_string());
    p.stripe_price_id_annually = annual.map(|s| s.to_string());
    p
}

#[test]
fn billing_period_range_exact_bounds() {
    let r = billing_period_range("2026-03");
    assert_eq!(r.start, 1772323200000);
    assert_eq!(r.end, 1775001599999);
    let dec = billing_period_range("2024-12");
    assert_eq!(dec.start, 1733011200000);
    assert_eq!(dec.end, 1735689599999);
    let before_epoch = billing_period_range("1969-12");
    assert_eq!(before_epoch.start, -2678400000);
    assert_eq!(before_epoch.end, -1);
}

#[test]
fn billing_period_range_bad_month_gives_zero_bounds() {
    let r = billing_period_range("2026-13");
    assert_eq!(r.start, 0);
    assert_eq!(r.end, 0);
    let r = billing_period_range("2026-00");
    assert_eq!(r.start, 0);
    assert_eq!(r.end, 1767225599999);
    let r = billing_period_range("abcd-03");
    assert_eq!((r.start, r.end), (0, 0));
}

#[test]
fn billing_cycle_display_reads_annually_in_any_case() {
    assert_eq!(billing_cycle_display("annually"), "ANNUALLY");
    assert_eq!(billing_cycle_display("AnNuAlLy"), "ANNUALLY");
    assert_eq!(billing_cycle_display("monthly"), "MONTHLY");
    assert_eq!(billing_cycle_display("annual"), "MONTHLY");
}

#[test]
fn current_subscription_without_record_is_free_and_active() {
    let r = current_subscription(7, None);
    assert_eq!(r.tenant_id, 7);
    assert_eq!(r.plan.name, "free");
    assert_eq!(r.billing_cycle, "MONTHLY");
    assert_eq!(r.status, "active");
    assert!(!r.cancel_at_period_end);
}

#[test]
fn current_subscription_with_missing_plan_uses_free_plan() {
    let mut s = default_subscription(7, 99, 1000, 5);
    s.billing_cycle = "ANNUALLY".to_string();
    let r = current_subscription(7, Some((s, None)));
    assert_eq!(r.id, 5);
    assert_eq!(r.plan.name, "free");
    assert_eq!(r.billing_cycle, "ANNUALLY");
}

#[test]
fn plan_lookup_prefers_id_and_defaults_name() {
    let req = CheckoutRequest { plan_id: Some(3), plan_name: Some("pro".into()), billing_cycle: "monthly".into(), success_url: None, cancel_url: None };
    assert!(matches!(plan_lookup(&req), PlanLookup::ById(3)));
    let req = CheckoutRequest { plan_id: None, plan_name: None, billing_cycle: "monthly".into(), success_url: None, cancel_url: None };
    match plan_lookup(&req) { PlanLookup::ByName(n) => assert_eq!(n, ""), _ => panic!("expected a name") }
    match plan_not_found(&PlanLookup::ByName("pro".into())) { ApiError::NotFound(m) => assert_eq!(m, "Plan 'pro' not found"), _ => panic!() }
    match plan_not_found(&PlanLookup::ById(0x0123456789abcdef0123456789abcdef)) {
        ApiError::NotFound(m) => assert_eq!(m, "Plan [01234567-89ab-cdef-0123-456789abcdef] not found"),
        _ => panic!(),
    }
}

#[test]
fn checkout_price_follows_cycle() {
    let p = plan("pro", Some("price_m"), Some("price_a"), 1);
    assert_eq!(checkout_price_id(&p, "annual").ok().unwrap(), "price_a");
    assert_eq!(checkout_price_id(&p, "monthly").ok().unwrap(), "price_m");
    assert_eq!(checkout_price_id(&p, "annually").ok().unwrap(), "price_a");
    assert_eq!(checkout_price_id(&p, "ANNUALLY").ok().unwrap(), "price_m");
    let f = free_plan_fallback();
    match checkout_price_id(&f, "monthly") {
        Err(ApiError::BadRequest(m)) => assert_eq!(m, "Plan 'free' is not available for purchase"),
        _ => panic!(),
    }
}

#[test]
fn customer_email_falls_back_to_tenant_placeholder() {
    assert_eq!(customer_email(Some("a@b.c".into()), 1), "a@b.c");
    assert_eq!(customer_email(None, 0x0123456789abcdef0123456789abcdef),
        "tenant-01234567-89ab-cdef-0123-456789abcdef@vielang.local");
}

#[test]
fn customer_subscription_keeps_existing_fields() {
    let mut e = default_subscription(7, 42, 100, 9);
    e.status = "past_due".into();
    e.cancel_at_period_end = true;
    let s = customer_subscription(&Some(e), 1, "cus_1".into(), 7, 500, 11);
    assert_eq!(s.id, 9);
    assert_eq!(s.created_time, 100);
    assert_eq!(s.updated_time, 500);
    assert_eq!(s.plan_id, 42);
    assert_eq!(s.status, "past_due");
    assert_eq!(s.stripe_customer_id.as_deref(), Some("cus_1"));
    assert!(!s.cancel_at_period_end);
    let n = customer_subscription(&None, 1, "cus_2".into(), 7, 500, 11);
    assert_eq!(n.id, 11);
    assert_eq!(n.plan_id, 1);
    assert_eq!(n.status, "free");
}

#[test]
fn webhook_kinds_and_replies() {
    assert_eq!(webhook_kind("checkout.session.completed"), WebhookKind::CheckoutCompleted);
    assert_eq!(webhook_kind("customer.subscription.updated"), WebhookKind::SubscriptionUpdated);
    assert_eq!(webhook_kind("customer.subscription.deleted"), WebhookKind::SubscriptionDeleted);
    assert_eq!(webhook_kind("invoice.payment_succeeded"), WebhookKind::InvoicePaid);
    assert_eq!(webhook_kind("invoice.payment_failed"), WebhookKind::InvoiceFailed);
    assert_eq!(webhook_kind("charge.refunded"), WebhookKind::Ignored);
    assert!(matches!(webhook_preflight(false, Some("s".into())), Err(ApiError::NotImplemented(_))));
    match webhook_preflight(true, None) { Err(ApiError::BadRequest(m)) => assert_eq!(m, "Missing Stripe-Signature header"), _ => panic!() }
    assert_eq!(webhook_preflight(true, Some("sig".into())).ok().unwrap(), "sig");
    match verification_failed("bad") { ApiError::Unauthorized(m) => assert_eq!(m, "Webhook verification failed: bad"), _ => panic!() }
    assert!(matches!(webhook_status(true, None), WebhookStatus::Duplicate));
    assert!(matches!(webhook_status(false, Some(Ok(()))), WebhookStatus::Done));
    match webhook_status(false, Some(Err("x".into()))) { WebhookStatus::Failed(m) => assert_eq!(m, "x"), _ => panic!() }
}

#[test]
fn checkout_completion_activates_for_thirty_days() {
    let f = CheckoutSessionFields {
        customer: Some("cus_9".into()),
        subscription: Some("sub_9".into()),
        tenant_id: Some("01234567-89ab-cdef-0123-456789abcdef".into()),
        billing_cycle: None,
        display_item_price: None,
        line_item_price: Some("price_a".into()),
    };
    assert_eq!(checkout_tenant(&f).ok().unwrap(), 0x0123456789abcdef0123456789abcdef);
    let plans = vec![plan("basic", Some("price_b"), None, 1), plan("pro", Some("price_m"), Some("price_a"), 2)];
    assert_eq!(find_plan_for_price(&plans, "price_a"), Some(1));
    assert_eq!(find_plan_for_price(&plans, "nope"), None);
    let s = activated_subscription(0x0123456789abcdef0123456789abcdef, 2, f, &None, 1_000, 77);
    assert_eq!(s.id, 77);
    assert_eq!(s.status, "active");
    assert_eq!(s.billing_cycle, "monthly");
    assert_eq!(s.current_period_start, Some(1_000));
    assert_eq!(s.current_period_end, Some(1_000 + 2_592_000_000));
    assert_eq!(s.stripe_customer_id.as_deref(), Some("cus_9"));
    let bad = CheckoutSessionFields { customer: None, subscription: None, tenant_id: Some("nope".into()), billing_cycle: None, display_item_price: None, line_item_price: None };
    match checkout_tenant(&bad) { Err(ApiError::BadRequest(m)) => assert_eq!(m, "Invalid tenant_id in Stripe metadata"), _ => panic!() }
}

#[test]
fn status_updates_of_webhook_events() {
    let u = subscription_updated_status(None, Some(10), None);
    assert_eq!(u.status, "active");
    assert_eq!(u.period_end, Some(10_000));
    assert!(!u.cancel_at_period_end);
    let p = invoice_paid_status(None);
    assert_eq!(p.status, "active");
    assert_eq!(p.period_end, None);
    let f = invoice_failed_status();
    assert_eq!(f.status, "past_due");
}

#[test]
fn deleted_subscription_downgrades_to_free() {
    let s: TenantSubscription = default_subscription(7, 42, 100, 9);
    let d = downgraded_subscription(s, 0, Some(5), 900);
    assert_eq!(d.plan_id, 0);
    assert_eq!(d.status, "canceled");
    assert_eq!(d.canceled_at, Some(5_000));
    assert_eq!(d.current_period_end, None);
    assert_eq!(d.updated_time, 900);
    let s2 = default_subscription(7, 42, 100, 9);
    assert_eq!(downgraded_subscription(s2, 0, None, 900).canceled_at, Some(900));
}

#[test]
fn empty_usage_takes_plan_limits() {
    let p = free_plan_fallback();
    let u = empty_usage(3, "2026-03".into(), &p);
    assert_eq!(u.transport_msg.limit, 50_000);
    assert_eq!(u.transport_dp.limit, 50_000);
    assert_eq!(u.re_exec.limit, 5_000);
    assert_eq!(u.email.limit, 50);
    assert_eq!(u.alarm.limit, 50);
    assert_eq!(u.active_devices.limit, 10);
    assert_eq!(u.rpc.limit, 0);
    assert_eq!(u.active_devices.key, "ACTIVE_DEVICES");
    assert_eq!(u.active_devices.value, 0);
}

#[test]
fn billing_period_spans_its_month() {
    let day: i64 = 86_400_000;
    let leap_feb = billing_period_range("2024-02");
    assert_eq!(leap_feb.end + 1 - leap_feb.start, 29 * day);
    let feb = billing_period_range("2023-02");
    assert_eq!(feb.end + 1 - feb.start, 28 * day);
    let century_feb = billing_period_range("1900-02");
    assert_eq!(century_feb.end + 1 - century_feb.start, 28 * day);
    let dec = billing_period_range("1999-12");
    assert_eq!(dec.end + 1 - dec.start, 31 * day);
    let apr = billing_period_range("2030-04");
    assert_eq!(apr.end + 1 - apr.start, 30 * day);
    let negative_year = billing_period_range("-0001-07");
    assert_eq!((negative_year.start, negative_year.end), (0, 0));
}
