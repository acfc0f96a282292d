//! Billing: plans, subscriptions, the Stripe checkout and webhook decisions,
//! and the date range of a billing period.

use vstd::prelude::*;
use chrono::TimeZone;
use crate::common::{now_millis, parse_uuid, uuid_from_text, uuid_text, uuid_to_string};
use crate::error::ApiError;
use crate::random::new_uuid_v4;
use crate::text::{
    ascii_lower, chars_of, concat_str, find_char, first_index_of, parse_i32, parse_int, parse_u32,
    slice_chars, str_eq, ascii_lowercase, seq_eq,
};

verus! {

// ── Plans ───────────────────────────────────────────────────────────────────

/// A subscription plan with its prices and limits.
pub struct SubscriptionPlan {
    pub id: u128,
    pub created_time: i64,
    pub name: String,
    pub display_name: String,
    pub description: Option<String>,
    pub price_monthly: i64,
    pub price_annually: i64,
    pub stripe_price_id_monthly: Option<String>,
    pub stripe_price_id_annually: Option<String>,
    pub max_devices: i32,
    pub max_users: i32,
    pub max_assets: i32,
    pub max_dashboards: i32,
    pub max_rule_chains: i32,
    pub max_edges: i32,
    pub max_transport_msgs_month: i64,
    pub max_js_execs_month: i64,
    pub max_emails_month: i32,
    pub max_sms_month: i32,
    pub max_alarms: i32,
    pub max_api_keys: i32,
    pub feature_white_label: bool,
    pub feature_edge_computing: bool,
    pub feature_advanced_rbac: bool,
    pub feature_audit_log: bool,
    pub feature_sso: bool,
    pub feature_api_export: bool,
    pub sort_order: i32,
    pub is_active: bool,
}

/// The free plan used when no plan can be found: the nil id, name `free`, 10 devices,
/// 3 users, 10 assets, 5 dashboards, 2 rule chains, no edges, 50 000 messages and
/// 5 000 script runs a month, 50 e-mails, no SMS, 50 alarms, one API key, no paid feature.
pub open spec fn is_free_fallback(p: SubscriptionPlan) -> bool {
    &&& p.id == 0 && p.created_time == 0
    &&& p.name@ == "free"@ && p.display_name@ == "Free"@ && p.description is None
    &&& p.price_monthly == 0 && p.price_annually == 0
    &&& p.stripe_price_id_monthly is None && p.stripe_price_id_annually is None
    &&& p.max_devices == 10 && p.max_users == 3 && p.max_assets == 10 && p.max_dashboards == 5
    &&& p.max_rule_chains == 2 && p.max_edges == 0
    &&& p.max_transport_msgs_month == 50_000 && p.max_js_execs_month == 5_000
    &&& p.max_emails_month == 50 && p.max_sms_month == 0 && p.max_alarms == 50 && p.max_api_keys == 1
    &&& !p.feature_white_label && !p.feature_edge_computing && !p.feature_advanced_rbac
    &&& !p.feature_audit_log && !p.feature_sso && !p.feature_api_export
    &&& p.sort_order == 0 && p.is_active
}

pub fn free_plan_fallback() -> (p: SubscriptionPlan)
    ensures
        is_free_fallback(p),
{
    SubscriptionPlan {
        id: 0,
        created_time: 0,
        name: "free".to_owned(),
        display_name: "Free".to_owned(),
        description: None,
        price_monthly: 0,
        price_annually: 0,
        stripe_price_id_monthly: None,
        stripe_price_id_annually: None,
        max_devices: 10,
        max_users: 3,
        max_assets: 10,
        max_dashboards: 5,
        max_rule_chains: 2,
        max_edges: 0,
        max_transport_msgs_month: 50_000,
        max_js_execs_month: 5_000,
        max_emails_month: 50,
        max_sms_month: 0,
        max_alarms: 50,
        max_api_keys: 1,
        feature_white_label: false,
        feature_edge_computing: false,
        feature_advanced_rbac: false,
        feature_audit_log: false,
        feature_sso: false,
        feature_api_export: false,
        sort_order: 0,
        is_active: true,
    }
}

/// The plan a lookup found, or the free plan.
pub fn plan_or_free(found: Option<SubscriptionPlan>) -> (p: SubscriptionPlan)
    ensures
        found matches Some(q) ==> p == q,
        found is None ==> is_free_fallback(p),
{
    match found {
        Some(q) => q,
        None => free_plan_fallback(),
    }
}

// ── Subscriptions ───────────────────────────────────────────────────────────

/// A tenant's subscription.
pub struct TenantSubscription {
    pub id: u128,
    pub created_time: i64,
    pub updated_time: i64,
    pub tenant_id: u128,
    pub plan_id: u128,
    pub stripe_customer_id: Option<String>,
    pub stripe_subscription_id: Option<String>,
    pub billing_cycle: String,
    pub status: String,
    pub current_period_start: Option<i64>,
    pub current_period_end: Option<i64>,
    pub trial_end: Option<i64>,
    pub cancel_at_period_end: bool,
    pub canceled_at: Option<i64>,
}

/// The subscription shown to a tenant that has none: monthly, active, on `plan_id`.
pub fn default_subscription(tenant_id: u128, plan_id: u128, now: i64, id: u128) -> (s: TenantSubscription)
    ensures
        s.id == id && s.created_time == now && s.updated_time == now,
        s.tenant_id == tenant_id && s.plan_id == plan_id,
        s.stripe_customer_id is None && s.stripe_subscription_id is None,
        s.billing_cycle@ == "monthly"@ && s.status@ == "active"@,
        s.current_period_start is None && s.current_period_end is None && s.trial_end is None,
        !s.cancel_at_period_end && s.canceled_at is None,
{
    TenantSubscription {
        id,
        created_time: now,
        updated_time: now,
        tenant_id,
        plan_id,
        stripe_customer_id: None,
        stripe_subscription_id: None,
        billing_cycle: "monthly".to_owned(),
        status: "active".to_owned(),
        current_period_start: None,
        current_period_end: None,
        trial_end: None,
        cancel_at_period_end: false,
        canceled_at: None,
    }
}

/// `ANNUALLY` for a cycle that reads `annually` in any ASCII case, else `MONTHLY`.
pub open spec fn cycle_display(cycle: Seq<char>) -> Seq<char> {
    if ascii_lower(cycle) == "annually"@ { "ANNUALLY"@ } else { "MONTHLY"@ }
}

pub fn billing_cycle_display(cycle: &str) -> (r: String)
    ensures
        r@ == cycle_display(cycle@),
{
    let lower = ascii_lowercase(chars_of(cycle).as_slice());
    let target = chars_of("annually");
    if seq_eq(lower.as_slice(), target.as_slice()) {
        "ANNUALLY".to_owned()
    } else {
        "MONTHLY".to_owned()
    }
}

/// A subscription with its plan, as the API answers it.
pub struct SubscriptionWithPlanResponse {
    pub id: u128,
    pub tenant_id: u128,
    pub plan: SubscriptionPlan,
    pub stripe_customer_id: Option<String>,
    pub stripe_subscription_id: Option<String>,
    pub billing_cycle: String,
    pub status: String,
    pub current_period_start: Option<i64>,
    pub current_period_end: Option<i64>,
    pub trial_end: Option<i64>,
    pub cancel_at_period_end: bool,
    pub canceled_at: Option<i64>,
}

pub open spec fn answers_subscription(r: SubscriptionWithPlanResponse, s: TenantSubscription, p: SubscriptionPlan) -> bool {
    &&& r.id == s.id && r.tenant_id == s.tenant_id && r.plan == p
    &&& r.stripe_customer_id == s.stripe_customer_id
    &&& r.stripe_subscription_id == s.stripe_subscription_id
    &&& r.billing_cycle@ == cycle_display(s.billing_cycle@)
    &&& r.status == s.status
    &&& r.current_period_start == s.current_period_start
    &&& r.current_period_end == s.current_period_end
    &&& r.trial_end == s.trial_end
    &&& r.cancel_at_period_end == s.cancel_at_period_end
    &&& r.canceled_at == s.canceled_at
}

pub fn subscription_response(s: TenantSubscription, p: SubscriptionPlan) -> (r: SubscriptionWithPlanResponse)
    ensures
        answers_subscription(r, s, p),
{
    let cycle = billing_cycle_display(s.billing_cycle.as_str());
    SubscriptionWithPlanResponse {
        id: s.id,
        tenant_id: s.tenant_id,
        plan: p,
        stripe_customer_id: s.stripe_customer_id,
        stripe_subscription_id: s.stripe_subscription_id,
        billing_cycle: cycle,
        status: s.status,
        current_period_start: s.current_period_start,
        current_period_end: s.current_period_end,
        trial_end: s.trial_end,
        cancel_at_period_end: s.cancel_at_period_end,
        canceled_at: s.canceled_at,
    }
}

/// The current subscription of a tenant: the stored one with its plan (the free
/// plan when the plan is gone), or, when none is stored, an active monthly one on
/// the free plan made now.
pub fn current_subscription(
    tenant_id: u128,
    stored: Option<(TenantSubscription, Option<SubscriptionPlan>)>,
) -> (r: SubscriptionWithPlanResponse)
    ensures
        stored matches Some((s, Some(p))) ==> answers_subscription(r, s, p),
        stored matches Some((s, None)) ==> answers_subscription(r, s, r.plan) && is_free_fallback(r.plan),
        stored is None ==> {
            &&& r.tenant_id == tenant_id && is_free_fallback(r.plan)
            &&& r.billing_cycle@ == "MONTHLY"@ && r.status@ == "active"@
            &&& r.stripe_customer_id is None && r.stripe_subscription_id is None
            &&& r.current_period_start is None && r.current_period_end is None
            &&& !r.cancel_at_period_end && r.canceled_at is None
        },
{
    match stored {
        Some((s, p)) => {
            let plan = plan_or_free(p);
            subscription_response(s, plan)
        },
        None => {
            let plan = free_plan_fallback();
            let now = now_millis();
            let s = default_subscription(tenant_id, plan.id, now, new_uuid_v4());
            proof {
                reveal_strlit("monthly");
                reveal_strlit("annually");
                assert(ascii_lower(s.billing_cycle@) != "annually"@) by {
                    assert(ascii_lower(s.billing_cycle@).len() != "annually"@.len());
                }
            }
            subscription_response(s, plan)
        },
    }
}

// ── Checkout ────────────────────────────────────────────────────────────────

/// A checkout request: a plan by id or by name, and the billing cycle.
pub struct CheckoutRequest {
    pub plan_id: Option<u128>,
    pub plan_name: Option<String>,
    pub billing_cycle: String,
    pub success_url: Option<String>,
    pub cancel_url: Option<String>,
}

/// How a checkout finds its plan: by id when the request gives one, else by name
/// (empty when none is given).
pub enum PlanLookup {
    ById(u128),
    ByName(String),
}

pub fn plan_lookup(req: &CheckoutRequest) -> (r: PlanLookup)
    ensures
        req.plan_id matches Some(i) ==> r == PlanLookup::ById(i),
        req.plan_id is None ==> (r matches PlanLookup::ByName(n) && n@ == (match req.plan_name {
            Some(s) => s@,
            None => Seq::<char>::empty(),
        })),
{
    match req.plan_id {
        Some(i) => PlanLookup::ById(i),
        None => match &req.plan_name {
            Some(n) => PlanLookup::ByName(n.clone()),
            None => PlanLookup::ByName(String::new()),
        },
    }
}

/// A checkout needs Stripe configured.
pub fn checkout_stripe(stripe_configured: bool) -> (r: Result<(), ApiError>)
    ensures
        stripe_configured <==> r is Ok,
        r matches Err(e) ==> (e matches ApiError::NotImplemented(m) && m@ == "Stripe not configured"@),
{
    if stripe_configured { Ok(()) } else { Err(ApiError::NotImplemented("Stripe not configured".to_owned())) }
}

/// A checkout needs the caller's tenant to exist.
pub fn checkout_tenant_found<T>(tenant: Option<T>) -> (r: Result<T, ApiError>)
    ensures
        tenant matches Some(t) ==> r == Ok::<T, ApiError>(t),
        tenant is None ==> (r matches Err(ApiError::NotFound(m)) && m@ == "Tenant not found"@),
{
    match tenant {
        Some(t) => Ok(t),
        None => Err(ApiError::NotFound("Tenant not found".to_owned())),
    }
}

/// How a usage counter stands against its limit.
#[derive(Clone, Copy, PartialEq, Eq, Structural)]
pub enum ApiUsageStateValue {
    Enabled,
    Warning,
    Disabled,
}

pub open spec fn usage_state_name(s: ApiUsageStateValue) -> Seq<char> {
    match s {
        ApiUsageStateValue::Enabled => "ENABLED"@,
        ApiUsageStateValue::Warning => "WARNING"@,
        ApiUsageStateValue::Disabled => "DISABLED"@,
    }
}

/// The status a quota shows for the state of its counter.
pub fn quota_status(s: ApiUsageStateValue) -> (r: String)
    ensures
        r@ == usage_state_name(s),
{
    match s {
        ApiUsageStateValue::Enabled => "ENABLED".to_owned(),
        ApiUsageStateValue::Warning => "WARNING".to_owned(),
        ApiUsageStateValue::Disabled => "DISABLED".to_owned(),
    }
}

/// The answer when the plan of a checkout does not exist.
pub fn plan_not_found(lookup: &PlanLookup) -> (e: ApiError)
    ensures
        lookup matches PlanLookup::ById(i) ==> (e matches ApiError::NotFound(m) && m@ == "Plan ["@ + uuid_text(*i) + "] not found"@),
        lookup matches PlanLookup::ByName(n) ==> (e matches ApiError::NotFound(m) && m@ == "Plan '"@ + n@ + "' not found"@),
{
    match lookup {
        PlanLookup::ById(i) => {
            let a = concat_str("Plan [", uuid_to_string(*i).as_str());
            ApiError::NotFound(concat_str(a.as_str(), "] not found"))
        },
        PlanLookup::ByName(n) => {
            let a = concat_str("Plan '", n.as_str());
            ApiError::NotFound(concat_str(a.as_str(), "' not found"))
        },
    }
}

/// The cycles that buy the annual price: `annually`, the documented value, and
/// the short form `annual`.
pub open spec fn is_annual_cycle(cycle: Seq<char>) -> bool {
    cycle == "annually"@ || cycle == "annual"@
}

/// The Stripe price a checkout buys: the annual price for an annual cycle, the
/// monthly price for any other; a plan without that price cannot be bought.
pub fn checkout_price_id(plan: &SubscriptionPlan, billing_cycle: &str) -> (r: Result<String, ApiError>)
    ensures
        is_annual_cycle(billing_cycle@) ==> (match plan.stripe_price_id_annually {
            Some(p) => r == Ok::<String, ApiError>(p),
            None => r is Err,
        }),
        !is_annual_cycle(billing_cycle@) ==> (match plan.stripe_price_id_monthly {
            Some(p) => r == Ok::<String, ApiError>(p),
            None => r is Err,
        }),
        r matches Err(e) ==> (e matches ApiError::BadRequest(m) && m@ == "Plan '"@ + plan.name@ + "' is not available for purchase"@),
{
    let annual = str_eq(billing_cycle, "annually") || str_eq(billing_cycle, "annual");
    let price = if annual {
        &plan.stripe_price_id_annually
    } else {
        &plan.stripe_price_id_monthly
    };
    match price {
        Some(p) => Ok(p.clone()),
        None => {
            let a = concat_str("Plan '", plan.name.as_str());
            Err(ApiError::BadRequest(concat_str(a.as_str(), "' is not available for purchase")))
        },
    }
}

// ── Checkout flow ───────────────────────────────────────────────────────────

/// What a checkout asks of the stores and of Stripe, in this order.
pub enum CheckoutAction {
    FindPlan(PlanLookup),
    /// The title of the caller's tenant, if the tenant exists.
    FindTenant { tenant_id: u128 },
    /// The e-mail of the calling user, if the user exists.
    FindUserEmail { user_id: u128 },
    FindSubscription { tenant_id: u128 },
    CreateCustomer { tenant_id: u128, email: String, tenant_title: String },
    /// The id of the free plan, if it exists.
    FindFreePlan,
    SaveSubscription { subscription: TenantSubscription },
    CreateSession { customer_id: String, price_id: String, tenant_id: u128, billing_cycle: String },
}

pub enum CheckoutEvent {
    Plan(Option<SubscriptionPlan>),
    Tenant(Option<String>),
    UserEmail(Option<String>),
    Subscription(Option<TenantSubscription>),
    Customer(Result<String, String>),
    FreePlan(Option<u128>),
    Saved,
    /// Whether Stripe created the session; on `Ok` the session is the answer.
    Session(Result<(), String>),
}

pub enum CheckoutStep {
    Ask(CheckoutAction),
    /// `Ok`: answer with the session Stripe created.
    Reply(Result<(), ApiError>),
}

#[derive(Clone, Copy, PartialEq, Eq, Structural)]
pub enum CheckoutStage {
    AwaitPlan,
    AwaitTenant,
    AwaitUserEmail,
    AwaitSubscription,
    AwaitCustomer,
    AwaitFreePlan,
    AwaitSaved,
    AwaitSession,
    Done,
}

/// One checkout (`POST /api/billing/checkout`) of user `user_id` of tenant
/// `tenant_id`.
pub struct CheckoutFlow {
    pub tenant_id: u128,
    pub user_id: u128,
    pub req: CheckoutRequest,
    pub stage: CheckoutStage,
    pub price_id: String,
    pub tenant_title: String,
    pub email: String,
    pub existing: Option<TenantSubscription>,
    pub customer_id: String,
}

pub open spec fn checkout_event_fits(stage: CheckoutStage, ev: CheckoutEvent) -> bool {
    match stage {
        CheckoutStage::AwaitPlan => ev is Plan,
        CheckoutStage::AwaitTenant => ev is Tenant,
        CheckoutStage::AwaitUserEmail => ev is UserEmail,
        CheckoutStage::AwaitSubscription => ev is Subscription,
        CheckoutStage::AwaitCustomer => ev is Customer,
        CheckoutStage::AwaitFreePlan => ev is FreePlan,
        CheckoutStage::AwaitSaved => ev is Saved,
        CheckoutStage::AwaitSession => ev is Session,
        CheckoutStage::Done => false,
    }
}

/// The plan lookup of a checkout request, as `plan_lookup` makes it.
pub open spec fn is_lookup_of(l: PlanLookup, req: CheckoutRequest) -> bool {
    match req.plan_id {
        Some(i) => l == PlanLookup::ById(i),
        None => l matches PlanLookup::ByName(n) && n@ == (match req.plan_name { Some(x) => x@, None => Seq::<char>::empty() }),
    }
}

/// The refusal of a checkout whose plan does not exist.
pub open spec fn plan_not_found_message(req: CheckoutRequest) -> Seq<char> {
    match req.plan_id {
        Some(i) => "Plan ["@ + uuid_text(i) + "] not found"@,
        None => "Plan '"@ + (match req.plan_name { Some(x) => x@, None => Seq::<char>::empty() }) + "' not found"@,
    }
}

/// The Stripe price of a plan for a cycle, if the plan has one.
pub open spec fn cycle_price(p: SubscriptionPlan, cycle: Seq<char>) -> Option<String> {
    if is_annual_cycle(cycle) { p.stripe_price_id_annually } else { p.stripe_price_id_monthly }
}

/// The Stripe customer of a stored subscription.
pub open spec fn existing_customer(existing: Option<TenantSubscription>) -> Option<String> {
    match existing { Some(x) => x.stripe_customer_id, None => None }
}

/// The session a checkout asks Stripe for.
pub open spec fn is_session_request(a: CheckoutAction, f: CheckoutFlow, customer: Seq<char>) -> bool {
    a matches CheckoutAction::CreateSession { customer_id, price_id, tenant_id, billing_cycle }
        && customer_id@ == customer && price_id@ == f.price_id@ && tenant_id == f.tenant_id
        && billing_cycle@ == f.req.billing_cycle@
}

impl CheckoutFlow {
    /// Starts a checkout: Stripe must be configured; then the plan is looked up.
    pub fn start(tenant_id: u128, user_id: u128, req: CheckoutRequest, stripe_configured: bool)
        -> (r: (CheckoutFlow, CheckoutStep))
        ensures
            r.0.tenant_id == tenant_id && r.0.user_id == user_id && r.0.req == req,
            !stripe_configured ==> (r.1 matches CheckoutStep::Reply(Err(ApiError::NotImplemented(m)))
                && m@ == "Stripe not configured"@ && r.0.stage == CheckoutStage::Done),
            stripe_configured ==> (r.1 matches CheckoutStep::Ask(CheckoutAction::FindPlan(l))
                && is_lookup_of(l, req) && r.0.stage == CheckoutStage::AwaitPlan),
    {
        let ok = checkout_stripe(stripe_configured);
        let lookup = plan_lookup(&req);
        let mut f = CheckoutFlow {
            tenant_id,
            user_id,
            req,
            stage: CheckoutStage::AwaitPlan,
            price_id: String::new(),
            tenant_title: String::new(),
            email: String::new(),
            existing: None,
            customer_id: String::new(),
        };
        match ok {
            Err(e) => {
                f.stage = CheckoutStage::Done;
                (f, CheckoutStep::Reply(Err(e)))
            },
            Ok(()) => (f, CheckoutStep::Ask(CheckoutAction::FindPlan(lookup))),
        }
    }

    /// Feeds one answer to the checkout. A missing plan, a plan without the
    /// price of the cycle and a missing tenant are refused; a tenant that already
    /// has a Stripe customer goes straight to the session; otherwise the customer
    /// is created and recorded on the tenant's subscription first.
    pub fn on_event(&mut self, ev: CheckoutEvent) -> (step: CheckoutStep)
        requires
            checkout_event_fits(old(self).stage, ev),
        ensures
            final(self).tenant_id == old(self).tenant_id,
            final(self).user_id == old(self).user_id,
            final(self).req == old(self).req,
            (step is Reply) <==> final(self).stage == CheckoutStage::Done,
            match ev {
                CheckoutEvent::Plan(None) => step matches CheckoutStep::Reply(Err(ApiError::NotFound(m)))
                    && m@ == plan_not_found_message(old(self).req),
                CheckoutEvent::Plan(Some(p)) => match cycle_price(p, old(self).req.billing_cycle@) {
                    Some(price) => step matches CheckoutStep::Ask(CheckoutAction::FindTenant { tenant_id })
                        && tenant_id == old(self).tenant_id && final(self).price_id == price
                        && final(self).stage == CheckoutStage::AwaitTenant,
                    None => step matches CheckoutStep::Reply(Err(ApiError::BadRequest(m)))
                        && m@ == "Plan '"@ + p.name@ + "' is not available for purchase"@,
                },
                CheckoutEvent::Tenant(None) => step matches CheckoutStep::Reply(Err(ApiError::NotFound(m)))
                    && m@ == "Tenant not found"@,
                CheckoutEvent::Tenant(Some(t)) => step matches CheckoutStep::Ask(CheckoutAction::FindUserEmail { user_id })
                    && user_id == old(self).user_id && final(self).tenant_title == t
                    && final(self).price_id == old(self).price_id
                    && final(self).stage == CheckoutStage::AwaitUserEmail,
                CheckoutEvent::UserEmail(e) => step matches CheckoutStep::Ask(CheckoutAction::FindSubscription { tenant_id })
                    && tenant_id == old(self).tenant_id
                    && final(self).email@ == (match e {
                        Some(x) => x@,
                        None => "tenant-"@ + uuid_text(old(self).tenant_id) + "@vielang.local"@,
                    })
                    && final(self).price_id == old(self).price_id && final(self).tenant_title == old(self).tenant_title
                    && final(self).stage == CheckoutStage::AwaitSubscription,
                CheckoutEvent::Subscription(existing) => final(self).existing == existing
                    && final(self).price_id == old(self).price_id
                    && match existing_customer(existing) {
                        Some(c) => (step matches CheckoutStep::Ask(a) && is_session_request(a, *final(self), c@))
                            && final(self).stage == CheckoutStage::AwaitSession,
                        None => step matches CheckoutStep::Ask(CheckoutAction::CreateCustomer { tenant_id, email, tenant_title })
                            && tenant_id == old(self).tenant_id && email == old(self).email
                            && tenant_title == old(self).tenant_title
                            && final(self).stage == CheckoutStage::AwaitCustomer,
                    },
                CheckoutEvent::Customer(Err(e)) => step matches CheckoutStep::Reply(Err(ApiError::Internal(m))) && m@ == e@,
                CheckoutEvent::Customer(Ok(c)) => step matches CheckoutStep::Ask(CheckoutAction::FindFreePlan)
                    && final(self).customer_id == c && final(self).existing == old(self).existing
                    && final(self).price_id == old(self).price_id
                    && final(self).stage == CheckoutStage::AwaitFreePlan,
                CheckoutEvent::FreePlan(free) => step matches CheckoutStep::Ask(CheckoutAction::SaveSubscription { subscription: s })
                    && s.tenant_id == old(self).tenant_id
                    && s.stripe_customer_id == Some(old(self).customer_id)
                    && s.plan_id == (match old(self).existing {
                        Some(x) => x.plan_id,
                        None => match free { Some(i) => i, None => 0 },
                    })
                    && s.billing_cycle@ == "monthly"@
                    && s.status@ == (match old(self).existing { Some(x) => x.status@, None => "free"@ })
                    && final(self).customer_id == old(self).customer_id
                    && final(self).price_id == old(self).price_id
                    && final(self).stage == CheckoutStage::AwaitSaved,
                CheckoutEvent::Saved => (step matches CheckoutStep::Ask(a) && is_session_request(a, *old(self), old(self).customer_id@))
                    && final(self).stage == CheckoutStage::AwaitSession,
                CheckoutEvent::Session(Err(e)) => step matches CheckoutStep::Reply(Err(ApiError::Internal(m))) && m@ == e@,
                CheckoutEvent::Session(Ok(())) => step matches CheckoutStep::Reply(Ok(())),
            },
    {
        match ev {
            CheckoutEvent::Plan(found) => match found {
                None => {
                    self.stage = CheckoutStage::Done;
                    let l = plan_lookup(&self.req);
                    CheckoutStep::Reply(Err(plan_not_found(&l)))
                },
                Some(p) => match checkout_price_id(&p, self.req.billing_cycle.as_str()) {
                    Err(e) => {
                        self.stage = CheckoutStage::Done;
                        CheckoutStep::Reply(Err(e))
                    },
                    Ok(price) => {
                        self.price_id = price;
                        self.stage = CheckoutStage::AwaitTenant;
                        CheckoutStep::Ask(CheckoutAction::FindTenant { tenant_id: self.tenant_id })
                    },
                },
            },
            CheckoutEvent::Tenant(t) => match checkout_tenant_found(t) {
                Err(e) => {
                    self.stage = CheckoutStage::Done;
                    CheckoutStep::Reply(Err(e))
                },
                Ok(title) => {
                    self.tenant_title = title;
                    self.stage = CheckoutStage::AwaitUserEmail;
                    CheckoutStep::Ask(CheckoutAction::FindUserEmail { user_id: self.user_id })
                },
            },
            CheckoutEvent::UserEmail(e) => {
                self.email = customer_email(e, self.tenant_id);
                self.stage = CheckoutStage::AwaitSubscription;
                CheckoutStep::Ask(CheckoutAction::FindSubscription { tenant_id: self.tenant_id })
            },
            CheckoutEvent::Subscription(existing) => {
                let c = existing_customer_id(&existing);
                self.existing = existing;
                match c {
                    Some(c) => {
                        self.stage = CheckoutStage::AwaitSession;
                        CheckoutStep::Ask(CheckoutAction::CreateSession {
                            customer_id: c,
                            price_id: self.price_id.clone(),
                            tenant_id: self.tenant_id,
                            billing_cycle: self.req.billing_cycle.clone(),
                        })
                    },
                    None => {
                        self.stage = CheckoutStage::AwaitCustomer;
                        CheckoutStep::Ask(CheckoutAction::CreateCustomer {
                            tenant_id: self.tenant_id,
                            email: self.email.clone(),
                            tenant_title: self.tenant_title.clone(),
                        })
                    },
                }
            },
            CheckoutEvent::Customer(Err(e)) => {
                self.stage = CheckoutStage::Done;
                CheckoutStep::Reply(Err(ApiError::Internal(e)))
            },
            CheckoutEvent::Customer(Ok(c)) => {
                self.customer_id = c;
                self.stage = CheckoutStage::AwaitFreePlan;
                CheckoutStep::Ask(CheckoutAction::FindFreePlan)
            },
            CheckoutEvent::FreePlan(free) => {
                let free_id: u128 = match free { Some(i) => i, None => 0 };
                let now = now_millis();
                let s = customer_subscription(&self.existing, free_id, self.customer_id.clone(), self.tenant_id, now,
                    new_uuid_v4());
                self.stage = CheckoutStage::AwaitSaved;
                CheckoutStep::Ask(CheckoutAction::SaveSubscription { subscription: s })
            },
            CheckoutEvent::Saved => {
                self.stage = CheckoutStage::AwaitSession;
                CheckoutStep::Ask(CheckoutAction::CreateSession {
                    customer_id: self.customer_id.clone(),
                    price_id: self.price_id.clone(),
                    tenant_id: self.tenant_id,
                    billing_cycle: self.req.billing_cycle.clone(),
                })
            },
            CheckoutEvent::Session(Err(e)) => {
                self.stage = CheckoutStage::Done;
                CheckoutStep::Reply(Err(ApiError::Internal(e)))
            },
            CheckoutEvent::Session(Ok(())) => {
                self.stage = CheckoutStage::Done;
                CheckoutStep::Reply(Ok(()))
            },
        }
    }
}

/// The e-mail given to Stripe for a new customer: the caller's, else a placeholder
/// made from the tenant id.
pub fn customer_email(user_email: Option<String>, tenant_id: u128) -> (r: String)
    ensures
        user_email matches Some(e) ==> r == e,
        user_email is None ==> r@ == "tenant-"@ + uuid_text(tenant_id) + "@vielang.local"@,
{
    match user_email {
        Some(e) => e,
        None => {
            let a = concat_str("tenant-", uuid_to_string(tenant_id).as_str());
            concat_str(a.as_str(), "@vielang.local")
        },
    }
}

/// The Stripe customer a tenant already has, if any.
pub fn existing_customer_id(existing: &Option<TenantSubscription>) -> (r: Option<String>)
    ensures
        r == (match existing { Some(s) => s.stripe_customer_id, None => None }),
{
    match existing {
        Some(s) => match &s.stripe_customer_id {
            Some(c) => Some(c.clone()),
            None => None,
        },
        None => None,
    }
}

pub open spec fn or_time(o: Option<i64>, d: i64) -> i64 {
    match o { Some(v) => v, None => d }
}

/// The subscription recorded when a tenant gets its first Stripe customer: the
/// existing subscription's id, creation time, plan, Stripe subscription, status and
/// periods are kept (a new id, `now`, the free plan and status `free` otherwise);
/// the customer is set, the cycle becomes monthly and any cancellation is dropped.
pub fn customer_subscription(
    existing: &Option<TenantSubscription>,
    free_plan_id: u128,
    customer_id: String,
    tenant_id: u128,
    now: i64,
    fresh_id: u128,
) -> (s: TenantSubscription)
    ensures
        s.id == (match existing { Some(e) => e.id, None => fresh_id }),
        s.created_time == (match existing { Some(e) => e.created_time, None => now }),
        s.updated_time == now,
        s.tenant_id == tenant_id,
        s.plan_id == (match existing { Some(e) => e.plan_id, None => free_plan_id }),
        s.stripe_customer_id == Some(customer_id),
        s.stripe_subscription_id == (match existing { Some(e) => e.stripe_subscription_id, None => None }),
        s.billing_cycle@ == "monthly"@,
        s.status@ == (match existing { Some(e) => e.status@, None => "free"@ }),
        s.current_period_start == (match existing { Some(e) => e.current_period_start, None => None }),
        s.current_period_end == (match existing { Some(e) => e.current_period_end, None => None }),
        s.trial_end == (match existing { Some(e) => e.trial_end, None => None }),
        !s.cancel_at_period_end && s.canceled_at is None,
{
    match existing {
        Some(e) => TenantSubscription {
            id: e.id,
            created_time: e.created_time,
            updated_time: now,
            tenant_id,
            plan_id: e.plan_id,
            stripe_customer_id: Some(customer_id),
            stripe_subscription_id: e.stripe_subscription_id.clone(),
            billing_cycle: "monthly".to_owned(),
            status: e.status.clone(),
            current_period_start: e.current_period_start,
            current_period_end: e.current_period_end,
            trial_end: e.trial_end,
            cancel_at_period_end: false,
            canceled_at: None,
        },
        None => TenantSubscription {
            id: fresh_id,
            created_time: now,
            updated_time: now,
            tenant_id,
            plan_id: free_plan_id,
            stripe_customer_id: Some(customer_id),
            stripe_subscription_id: None,
            billing_cycle: "monthly".to_owned(),
            status: "free".to_owned(),
            current_period_start: None,
            current_period_end: None,
            trial_end: None,
            cancel_at_period_end: false,
            canceled_at: None,
        },
    }
}

// ── Webhook ─────────────────────────────────────────────────────────────────

/// The Stripe events the webhook acts on.
#[derive(PartialEq, Eq, Structural, Clone, Copy, Debug)]
pub enum WebhookKind {
    CheckoutCompleted,
    SubscriptionUpdated,
    SubscriptionDeleted,
    InvoicePaid,
    InvoiceFailed,
    Ignored,
}

pub open spec fn kind_of_event(t: Seq<char>) -> WebhookKind {
    if t == "checkout.session.completed"@ {
        WebhookKind::CheckoutCompleted
    } else if t == "customer.subscription.updated"@ {
        WebhookKind::SubscriptionUpdated
    } else if t == "customer.subscription.deleted"@ {
        WebhookKind::SubscriptionDeleted
    } else if t == "invoice.payment_succeeded"@ {
        WebhookKind::InvoicePaid
    } else if t == "invoice.payment_failed"@ {
        WebhookKind::InvoiceFailed
    } else {
        WebhookKind::Ignored
    }
}

pub fn webhook_kind(event_type: &str) -> (k: WebhookKind)
    ensures
        k == kind_of_event(event_type@),
{
    if str_eq(event_type, "checkout.session.completed") {
        WebhookKind::CheckoutCompleted
    } else if str_eq(event_type, "customer.subscription.updated") {
        WebhookKind::SubscriptionUpdated
    } else if str_eq(event_type, "customer.subscription.deleted") {
        WebhookKind::SubscriptionDeleted
    } else if str_eq(event_type, "invoice.payment_succeeded") {
        WebhookKind::InvoicePaid
    } else if str_eq(event_type, "invoice.payment_failed") {
        WebhookKind::InvoiceFailed
    } else {
        WebhookKind::Ignored
    }
}

/// Before a webhook is read: Stripe must be configured and the request must carry a
/// signature, which is handed on.
pub fn webhook_preflight(stripe_configured: bool, signature: Option<String>) -> (r: Result<String, ApiError>)
    ensures
        !stripe_configured ==> (r matches Err(ApiError::NotImplemented(m)) && m@ == "Stripe not configured"@),
        stripe_configured && signature is None ==> (r matches Err(ApiError::BadRequest(m)) && m@ == "Missing Stripe-Signature header"@),
        stripe_configured && signature is Some ==> r == Ok::<String, ApiError>(signature->0),
{
    if !stripe_configured {
        return Err(ApiError::NotImplemented("Stripe not configured".to_owned()));
    }
    match signature {
        Some(s) => Ok(s),
        None => Err(ApiError::BadRequest("Missing Stripe-Signature header".to_owned())),
    }
}

/// The answer to a webhook whose signature does not verify.
pub fn verification_failed(reason: &str) -> (e: ApiError)
    ensures
        e matches ApiError::Unauthorized(m) && m@ == "Webhook verification failed: "@ + reason@,
{
    ApiError::Unauthorized(concat_str("Webhook verification failed: ", reason))
}

/// What the webhook answers Stripe: a duplicate event is skipped; otherwise the
/// outcome of handling it, an error being reported with its message (Stripe always
/// gets a success status, so it does not retry).
pub enum WebhookStatus {
    Duplicate,
    Done,
    Failed(String),
}

pub fn webhook_status(duplicate: bool, outcome: Option<Result<(), String>>) -> (r: WebhookStatus)
    requires
        !duplicate ==> outcome is Some,
    ensures
        duplicate ==> r is Duplicate,
        !duplicate && outcome == Some(Ok::<(), String>(())) ==> r is Done,
        !duplicate ==> (outcome matches Some(Err(m)) ==> r == WebhookStatus::Failed(m)),
{
    if duplicate {
        WebhookStatus::Duplicate
    } else {
        match outcome {
            Some(Ok(())) => WebhookStatus::Done,
            Some(Err(m)) => WebhookStatus::Failed(m),
            None => WebhookStatus::Done,
        }
    }
}

// ── Webhook flow ────────────────────────────────────────────────────────────

/// What a webhook asks of Stripe, the event store and the event handlers.
pub enum WebhookAction {
    VerifySignature { signature: String },
    EventExists { event_id: String },
    InsertEvent { event_id: String, event_type: String },
    Handle { kind: WebhookKind },
    MarkProcessed { event_id: String, error: Option<String> },
}

pub enum WebhookEvent {
    /// The verified event's id and type (empty when the event lacks them), or
    /// why verification failed.
    Verified(Result<(String, String), String>),
    Exists(bool),
    Inserted,
    Handled(Result<(), String>),
    /// The event was marked, whatever the store answered.
    Marked,
}

pub enum WebhookStep {
    Ask(WebhookAction),
    Reply(Result<WebhookStatus, ApiError>),
}

#[derive(Clone, Copy, PartialEq, Eq, Structural)]
pub enum WebhookStage {
    AwaitVerified,
    AwaitExists,
    AwaitInserted,
    AwaitHandled,
    AwaitMarked,
    Done,
}

/// One delivery of a Stripe event (`POST /api/billing/webhook`).
pub struct WebhookFlow {
    pub stage: WebhookStage,
    pub event_id: String,
    pub event_type: String,
    pub outcome: Result<(), String>,
}

pub open spec fn webhook_event_fits(stage: WebhookStage, ev: WebhookEvent) -> bool {
    match stage {
        WebhookStage::AwaitVerified => ev is Verified,
        WebhookStage::AwaitExists => ev is Exists,
        WebhookStage::AwaitInserted => ev is Inserted,
        WebhookStage::AwaitHandled => ev is Handled,
        WebhookStage::AwaitMarked => ev is Marked,
        WebhookStage::Done => false,
    }
}

impl WebhookFlow {
    /// Starts a delivery: Stripe must be configured and the request signed; the
    /// signature is then verified.
    pub fn start(stripe_configured: bool, signature: Option<String>) -> (r: (WebhookFlow, WebhookStep))
        ensures
            !stripe_configured ==> (r.1 matches WebhookStep::Reply(Err(ApiError::NotImplemented(m)))
                && m@ == "Stripe not configured"@),
            stripe_configured && signature is None ==> (r.1 matches WebhookStep::Reply(Err(ApiError::BadRequest(m)))
                && m@ == "Missing Stripe-Signature header"@),
            stripe_configured && signature is Some ==> (r.1 matches WebhookStep::Ask(WebhookAction::VerifySignature { signature: g })
                && g == signature->0 && r.0.stage == WebhookStage::AwaitVerified),
            (r.1 is Reply) <==> r.0.stage == WebhookStage::Done,
    {
        let mut f = WebhookFlow {
            stage: WebhookStage::AwaitVerified,
            event_id: String::new(),
            event_type: String::new(),
            outcome: Ok(()),
        };
        match webhook_preflight(stripe_configured, signature) {
            Err(e) => {
                f.stage = WebhookStage::Done;
                (f, WebhookStep::Reply(Err(e)))
            },
            Ok(sig) => (f, WebhookStep::Ask(WebhookAction::VerifySignature { signature: sig })),
        }
    }

    /// Feeds one answer to the delivery. An event already received is answered
    /// `duplicate` with nothing further asked: it is neither stored, handled nor
    /// marked again. A new event is stored, handled by its kind and marked
    /// processed (with the handler's error, if any); Stripe is told the outcome.
    pub fn on_event(&mut self, ev: WebhookEvent) -> (step: WebhookStep)
        requires
            webhook_event_fits(old(self).stage, ev),
        ensures
            (step is Reply) <==> final(self).stage == WebhookStage::Done,
            match ev {
                WebhookEvent::Verified(Err(why)) => step matches WebhookStep::Reply(Err(ApiError::Unauthorized(m)))
                    && m@ == "Webhook verification failed: "@ + why@,
                WebhookEvent::Verified(Ok((id, t))) => step matches WebhookStep::Ask(WebhookAction::EventExists { event_id })
                    && event_id == id && final(self).event_id == id && final(self).event_type == t
                    && final(self).stage == WebhookStage::AwaitExists,
                WebhookEvent::Exists(true) => step matches WebhookStep::Reply(Ok(WebhookStatus::Duplicate)),
                WebhookEvent::Exists(false) => step matches WebhookStep::Ask(WebhookAction::InsertEvent { event_id, event_type })
                    && event_id == old(self).event_id && event_type == old(self).event_type
                    && final(self).event_id == old(self).event_id && final(self).event_type == old(self).event_type
                    && final(self).stage == WebhookStage::AwaitInserted,
                WebhookEvent::Inserted => step matches WebhookStep::Ask(WebhookAction::Handle { kind })
                    && kind == kind_of_event(old(self).event_type@)
                    && final(self).event_id == old(self).event_id
                    && final(self).stage == WebhookStage::AwaitHandled,
                WebhookEvent::Handled(o) => step matches WebhookStep::Ask(WebhookAction::MarkProcessed { event_id, error })
                    && event_id == old(self).event_id
                    && error == (match o { Ok(()) => None, Err(m) => Some(m) })
                    && final(self).outcome == o
                    && final(self).stage == WebhookStage::AwaitMarked,
                WebhookEvent::Marked => match old(self).outcome {
                    Ok(()) => step matches WebhookStep::Reply(Ok(WebhookStatus::Done)),
                    Err(m) => step matches WebhookStep::Reply(Ok(WebhookStatus::Failed(x))) && x == m,
                },
            },
    {
        match ev {
            WebhookEvent::Verified(Err(why)) => {
                self.stage = WebhookStage::Done;
                WebhookStep::Reply(Err(verification_failed(why.as_str())))
            },
            WebhookEvent::Verified(Ok((id, t))) => {
                let q = id.clone();
                self.event_id = id;
                self.event_type = t;
                self.stage = WebhookStage::AwaitExists;
                WebhookStep::Ask(WebhookAction::EventExists { event_id: q })
            },
            WebhookEvent::Exists(seen) => {
                if seen {
                    self.stage = WebhookStage::Done;
                    WebhookStep::Reply(Ok(webhook_status(true, None)))
                } else {
                    self.stage = WebhookStage::AwaitInserted;
                    WebhookStep::Ask(WebhookAction::InsertEvent {
                        event_id: self.event_id.clone(),
                        event_type: self.event_type.clone(),
                    })
                }
            },
            WebhookEvent::Inserted => {
                let kind = webhook_kind(self.event_type.as_str());
                self.stage = WebhookStage::AwaitHandled;
                WebhookStep::Ask(WebhookAction::Handle { kind })
            },
            WebhookEvent::Handled(o) => {
                let error = match &o {
                    Ok(()) => None,
                    Err(m) => Some(m.clone()),
                };
                self.outcome = o;
                self.stage = WebhookStage::AwaitMarked;
                WebhookStep::Ask(WebhookAction::MarkProcessed { event_id: self.event_id.clone(), error })
            },
            WebhookEvent::Marked => {
                let o = match &self.outcome {
                    Ok(()) => Ok(()),
                    Err(m) => Err(m.clone()),
                };
                self.stage = WebhookStage::Done;
                WebhookStep::Reply(Ok(webhook_status(false, Some(o))))
            },
        }
    }
}

/// The fields of a completed checkout session the webhook reads.
pub struct CheckoutSessionFields {
    pub customer: Option<String>,
    pub subscription: Option<String>,
    pub tenant_id: Option<String>,
    pub billing_cycle: Option<String>,
    pub display_item_price: Option<String>,
    pub line_item_price: Option<String>,
}

/// The tenant a checkout session names in its metadata.
pub open spec fn session_tenant(f: CheckoutSessionFields) -> Option<u128> {
    uuid_from_text(match f.tenant_id { Some(t) => t@, None => Seq::<char>::empty() })
}

pub fn checkout_tenant(f: &CheckoutSessionFields) -> (r: Result<u128, ApiError>)
    ensures
        session_tenant(*f) matches Some(t) ==> r == Ok::<u128, ApiError>(t),
        session_tenant(*f) is None ==> (r matches Err(ApiError::BadRequest(m)) && m@ == "Invalid tenant_id in Stripe metadata"@),
{
    proof {
        reveal_strlit("");
    }
    let text: &str = match &f.tenant_id {
        Some(t) => t.as_str(),
        None => "",
    };
    assert(text@ == (match f.tenant_id { Some(t) => t@, None => Seq::<char>::empty() }));
    let parsed = parse_uuid(text);
    match parsed {
        Some(t) => Ok(t),
        None => Err(ApiError::BadRequest("Invalid tenant_id in Stripe metadata".to_owned())),
    }
}

/// The price a checkout session paid: the first display item's plan, else the
/// first line item's price, else empty.
pub open spec fn session_price(f: CheckoutSessionFields) -> Seq<char> {
    match f.display_item_price {
        Some(p) => p@,
        None => match f.line_item_price {
            Some(p) => p@,
            None => Seq::<char>::empty(),
        },
    }
}

/// The price of a completed checkout is the one the session carries: its display
/// item's plan when it has one, else its line item's price (as modern sessions
/// carry it); a session with neither has no price and matches no plan.
pub proof fn lemma_session_price_is_the_price_paid(f: CheckoutSessionFields)
    ensures
        f.display_item_price matches Some(d) ==> session_price(f) == d@,
        f.display_item_price is None ==> (f.line_item_price matches Some(p) ==> session_price(f) == p@),
        f.display_item_price is None && f.line_item_price is None ==> session_price(f).len() == 0,
{
}

/// A plan sold at a session's line item price is sold at the price of the
/// completed checkout when the session has no display item.
pub proof fn lemma_line_item_plan_sells_at_session_price(f: CheckoutSessionFields, plan: SubscriptionPlan)
    requires
        f.display_item_price is None,
        f.line_item_price is Some,
        sells_at(plan, f.line_item_price->0@),
    ensures
        sells_at(plan, session_price(f)),
{
}

pub fn checkout_price(f: &CheckoutSessionFields) -> (r: String)
    ensures
        r@ == session_price(*f),
{
    match &f.display_item_price {
        Some(p) => p.clone(),
        None => match &f.line_item_price {
            Some(p) => p.clone(),
            None => String::new(),
        },
    }
}

pub open spec fn opt_is(o: Option<String>, s: Seq<char>) -> bool {
    match o { Some(t) => t@ == s, None => false }
}

/// A plan is bought at a price when its monthly or annual Stripe price is that price.
pub open spec fn sells_at(p: SubscriptionPlan, price: Seq<char>) -> bool {
    opt_is(p.stripe_price_id_monthly, price) || opt_is(p.stripe_price_id_annually, price)
}

fn opt_eq(o: &Option<String>, s: &str) -> (r: bool)
    ensures
        r == opt_is(*o, s@),
{
    match o {
        Some(t) => str_eq(t.as_str(), s),
        None => false,
    }
}

/// The first plan sold at `price`, by position.
pub fn find_plan_for_price(plans: &Vec<SubscriptionPlan>, price: &str) -> (r: Option<usize>)
    ensures
        r matches Some(i) ==> i < plans@.len() && sells_at(plans@[i as int], price@)
            && forall|j: int| 0 <= j < i ==> !sells_at(#[trigger] plans@[j], price@),
        r is None ==> forall|j: int| 0 <= j < plans@.len() ==> !sells_at(#[trigger] plans@[j], price@),
{
    let mut i: usize = 0;
    while i < plans.len()
        invariant
            i <= plans@.len(),
            forall|j: int| 0 <= j < i ==> !sells_at(#[trigger] plans@[j], price@),
        decreases plans@.len() - i,
    {
        if opt_eq(&plans[i].stripe_price_id_monthly, price) || opt_eq(&plans[i].stripe_price_id_annually, price) {
            return Some(i);
        }
        i = i + 1;
    }
    None
}

/// Thirty days, in milliseconds.
pub open spec fn thirty_days_ms() -> int {
    2_592_000_000int
}

/// The subscription a completed checkout makes: active on `plan_id`, for the
/// session's customer, subscription and cycle (`monthly` when the session names
/// none), for thirty days from `now`; an existing subscription keeps its id and
/// creation time.
pub fn activated_subscription(
    tenant_id: u128,
    plan_id: u128,
    f: CheckoutSessionFields,
    existing: &Option<TenantSubscription>,
    now: i64,
    fresh_id: u128,
) -> (s: TenantSubscription)
    requires
        now + thirty_days_ms() <= i64::MAX,
    ensures
        s.id == (match existing { Some(e) => e.id, None => fresh_id }),
        s.created_time == (match existing { Some(e) => e.created_time, None => now }),
        s.updated_time == now,
        s.tenant_id == tenant_id,
        s.plan_id == plan_id,
        s.stripe_customer_id matches Some(c) && c@ == (match f.customer { Some(x) => x@, None => Seq::<char>::empty() }),
        s.stripe_subscription_id == f.subscription,
        s.billing_cycle@ == (match f.billing_cycle { Some(x) => x@, None => "monthly"@ }),
        s.status@ == "active"@,
        s.current_period_start == Some(now),
        s.current_period_end == Some((now + thirty_days_ms()) as i64),
        s.trial_end is None && !s.cancel_at_period_end && s.canceled_at is None,
{
    let customer = match f.customer { Some(c) => c, None => String::new() };
    let cycle = match f.billing_cycle { Some(c) => c, None => "monthly".to_owned() };
    let (id, created) = match existing {
        Some(e) => (e.id, e.created_time),
        None => (fresh_id, now),
    };
    TenantSubscription {
        id,
        created_time: created,
        updated_time: now,
        tenant_id,
        plan_id,
        stripe_customer_id: Some(customer),
        stripe_subscription_id: f.subscription,
        billing_cycle: cycle,
        status: "active".to_owned(),
        current_period_start: Some(now),
        current_period_end: Some(now + 30 * 24 * 3600 * 1000),
        trial_end: None,
        cancel_at_period_end: false,
        canceled_at: None,
    }
}

/// A status change of a tenant's subscription.
pub struct StatusUpdate {
    pub status: String,
    pub period_end: Option<i64>,
    pub cancel_at_period_end: bool,
}

/// Seconds to milliseconds, for a time Stripe may or may not give.
pub open spec fn ms_of(secs: Option<i64>) -> Option<int> {
    match secs { Some(t) => Some(t * 1000), None => None }
}

pub open spec fn secs_fit(secs: Option<i64>) -> bool {
    match secs { Some(t) => i64::MIN <= t * 1000 <= i64::MAX, None => true }
}

pub fn secs_to_ms(secs: Option<i64>) -> (r: Option<i64>)
    requires
        secs_fit(secs),
    ensures
        r matches Some(v) ==> ms_of(secs) == Some(v as int),
        r is None <==> secs is None,
{
    match secs {
        Some(t) => Some(t * 1000),
        None => None,
    }
}

/// An updated subscription event: its status (`active` when absent), period end and
/// cancellation flag (`false` when absent).
pub fn subscription_updated_status(status: Option<String>, period_end_secs: Option<i64>, cancel: Option<bool>) -> (u: StatusUpdate)
    requires
        secs_fit(period_end_secs),
    ensures
        u.status@ == (match status { Some(s) => s@, None => "active"@ }),
        (match u.period_end { Some(v) => ms_of(period_end_secs) == Some(v as int), None => period_end_secs is None }),
        u.cancel_at_period_end == (match cancel { Some(b) => b, None => false }),
{
    StatusUpdate {
        status: match status { Some(s) => s, None => "active".to_owned() },
        period_end: secs_to_ms(period_end_secs),
        cancel_at_period_end: match cancel { Some(b) => b, None => false },
    }
}

/// A paid invoice makes the subscription active until the invoice's period end.
pub fn invoice_paid_status(period_end_secs: Option<i64>) -> (u: StatusUpdate)
    requires
        secs_fit(period_end_secs),
    ensures
        u.status@ == "active"@,
        (match u.period_end { Some(v) => ms_of(period_end_secs) == Some(v as int), None => period_end_secs is None }),
        !u.cancel_at_period_end,
{
    StatusUpdate { status: "active".to_owned(), period_end: secs_to_ms(period_end_secs), cancel_at_period_end: false }
}

/// A failed payment makes the subscription past due.
pub fn invoice_failed_status() -> (u: StatusUpdate)
    ensures
        u.status@ == "past_due"@,
        u.period_end is None,
        !u.cancel_at_period_end,
{
    StatusUpdate { status: "past_due".to_owned(), period_end: None, cancel_at_period_end: false }
}

/// Cancelling keeps the subscription active until the period ends; reactivating
/// withdraws that.
pub fn cancellation_status(cancel: bool) -> (u: StatusUpdate)
    ensures
        u.status@ == "active"@,
        u.period_end is None,
        u.cancel_at_period_end == cancel,
{
    StatusUpdate { status: "active".to_owned(), period_end: None, cancel_at_period_end: cancel }
}

/// A deleted Stripe subscription moves the tenant to the free plan: status
/// `canceled`, cancelled at Stripe's time (or `now`), no period end, no pending
/// cancellation; the rest is kept.
pub fn downgraded_subscription(s: TenantSubscription, free_plan_id: u128, canceled_at_secs: Option<i64>, now: i64) -> (r: TenantSubscription)
    requires
        secs_fit(canceled_at_secs),
    ensures
        r.id == s.id && r.created_time == s.created_time && r.tenant_id == s.tenant_id,
        r.plan_id == free_plan_id,
        r.status@ == "canceled"@,
        (match canceled_at_secs {
            Some(t) => r.canceled_at matches Some(v) && v == t * 1000,
            None => r.canceled_at == Some(now),
        }),
        !r.cancel_at_period_end,
        r.current_period_end is None,
        r.updated_time == now,
        r.stripe_customer_id == s.stripe_customer_id,
        r.stripe_subscription_id == s.stripe_subscription_id,
        r.billing_cycle == s.billing_cycle,
        r.current_period_start == s.current_period_start,
        r.trial_end == s.trial_end,
{
    let canceled = match secs_to_ms(canceled_at_secs) {
        Some(v) => Some(v),
        None => Some(now),
    };
    TenantSubscription {
        id: s.id,
        created_time: s.created_time,
        updated_time: now,
        tenant_id: s.tenant_id,
        plan_id: free_plan_id,
        stripe_customer_id: s.stripe_customer_id,
        stripe_subscription_id: s.stripe_subscription_id,
        billing_cycle: s.billing_cycle,
        status: "canceled".to_owned(),
        current_period_start: s.current_period_start,
        current_period_end: None,
        trial_end: s.trial_end,
        cancel_at_period_end: false,
        canceled_at: canceled,
    }
}

// ── Usage ───────────────────────────────────────────────────────────────────

/// One usage counter with its limit.
pub struct UsageMetric {
    pub key: String,
    pub value: i64,
    pub limit: i64,
}

pub fn usage_metric(key: &str, value: i64, limit: i64) -> (m: UsageMetric)
    ensures
        m.key@ == key@ && m.value == value && m.limit == limit,
{
    UsageMetric { key: key.to_owned(), value, limit }
}

/// A quota as the usage page shows it, but for its percentage: the counter, its
/// limit and the status of the counter's state.
pub struct QuotaCounts {
    pub used: i64,
    pub limit: i64,
    pub status: String,
}

pub fn quota_counts(m: &UsageMetric, state: ApiUsageStateValue) -> (q: QuotaCounts)
    ensures
        q.used == m.value,
        q.limit == m.limit,
        q.status@ == usage_state_name(state),
{
    QuotaCounts { used: m.value, limit: m.limit, status: quota_status(state) }
}

/// A tenant's usage in one billing period.
pub struct TenantApiUsage {
    pub tenant_id: u128,
    pub billing_period: String,
    pub transport_msg: UsageMetric,
    pub transport_dp: UsageMetric,
    pub re_exec: UsageMetric,
    pub js_exec: UsageMetric,
    pub email: UsageMetric,
    pub sms: UsageMetric,
    pub alarm: UsageMetric,
    pub active_devices: UsageMetric,
    pub storage_dp: UsageMetric,
    pub rpc: UsageMetric,
    pub rule_engine_exec: UsageMetric,
}

pub open spec fn fresh_metric(m: UsageMetric, key: Seq<char>, limit: int) -> bool {
    m.key@ == key && m.value == 0 && m.limit == limit
}

/// The usage of a tenant that has none recorded yet: every counter at zero, limited
/// by the plan (messages and data points by the monthly messages, rule-engine and
/// script runs by the monthly script runs, e-mails, SMS, alarms and devices by their
/// own limits; storage, RPC and rule-engine executions unlimited, written as 0).
pub fn empty_usage(tenant_id: u128, period: String, plan: &SubscriptionPlan) -> (u: TenantApiUsage)
    ensures
        u.tenant_id == tenant_id,
        u.billing_period == period,
        fresh_metric(u.transport_msg, "TRANSPORT_MSG"@, plan.max_transport_msgs_month as int),
        fresh_metric(u.transport_dp, "TRANSPORT_DP"@, plan.max_transport_msgs_month as int),
        fresh_metric(u.re_exec, "RE_EXEC"@, plan.max_js_execs_month as int),
        fresh_metric(u.js_exec, "JS_EXEC"@, plan.max_js_execs_month as int),
        fresh_metric(u.email, "EMAIL"@, plan.max_emails_month as int),
        fresh_metric(u.sms, "SMS"@, plan.max_sms_month as int),
        fresh_metric(u.alarm, "ALARM"@, plan.max_alarms as int),
        fresh_metric(u.active_devices, "ACTIVE_DEVICES"@, plan.max_devices as int),
        fresh_metric(u.storage_dp, "STORAGE_DP"@, 0),
        fresh_metric(u.rpc, "RPC"@, 0),
        fresh_metric(u.rule_engine_exec, "RULE_ENGINE_EXEC"@, 0),
{
    TenantApiUsage {
        tenant_id,
        billing_period: period,
        transport_msg: usage_metric("TRANSPORT_MSG", 0, plan.max_transport_msgs_month),
        transport_dp: usage_metric("TRANSPORT_DP", 0, plan.max_transport_msgs_month),
        re_exec: usage_metric("RE_EXEC", 0, plan.max_js_execs_month),
        js_exec: usage_metric("JS_EXEC", 0, plan.max_js_execs_month),
        email: usage_metric("EMAIL", 0, plan.max_emails_month as i64),
        sms: usage_metric("SMS", 0, plan.max_sms_month as i64),
        alarm: usage_metric("ALARM", 0, plan.max_alarms as i64),
        active_devices: usage_metric("ACTIVE_DEVICES", 0, plan.max_devices as i64),
        storage_dp: usage_metric("STORAGE_DP", 0, 0),
        rpc: usage_metric("RPC", 0, 0),
        rule_engine_exec: usage_metric("RULE_ENGINE_EXEC", 0, 0),
    }
}

// ── Billing periods ─────────────────────────────────────────────────────────

/// The start and end (inclusive) of a billing period, in milliseconds.
pub struct PeriodRange {
    pub start: i64,
    pub end: i64,
}

/// Days from 1970-01-01 to the date `y-m-d` of the proleptic Gregorian calendar.
pub open spec fn days_from_civil(y: int, m: int, d: int) -> int {
    let y2 = if m <= 2 { y - 1 } else { y };
    let era = y2 / 400;
    let yoe = y2 - era * 400;
    let mp = if m > 2 { m - 3 } else { m + 9 };
    let doy = (153 * mp + 2) / 5 + d - 1;
    let doe = yoe * 365 + yoe / 4 - yoe / 100 + doy;
    era * 146097 + doe - 719468
}

/// The first year and the last year that `chrono`'s dates cover.
pub open spec fn chrono_min_year() -> int { -262143int }
pub open spec fn chrono_max_year() -> int { 262142int }

/// Midnight UTC of the first day of `month` in `year`, in milliseconds since the
/// epoch, when that date exists in `chrono`'s range.
pub open spec fn month_start(year: int, month: int) -> Option<int> {
    if 1 <= month <= 12 && chrono_min_year() <= year <= chrono_max_year() {
        Some(days_from_civil(year, month, 1) * 86_400_000)
    } else {
        None
    }
}

/// `NaiveDate::from_ymd_opt(year, month, 1)`, at midnight, as UTC milliseconds.
/// `chrono` gives a date for months 1 to 12 of the years it covers and none
/// otherwise; the milliseconds are those of that midnight in the proleptic
/// Gregorian calendar.
#[verifier::external_body]
fn month_start_millis(year: i32, month: u32) -> (r: Option<i64>)
    ensures
        r matches Some(v) ==> month_start(year as int, month as int) == Some(v as int),
        r is None <==> month_start(year as int, month as int) is None,
{
    chrono::NaiveDate::from_ymd_opt(year, month, 1)
        .and_then(|d| d.and_hms_opt(0, 0, 0))
        .map(|dt| chrono::Utc.from_utc_datetime(&dt).timestamp_millis())
}

/// The year and month a period text `YYYY-MM` gives: the text before the first `-`
/// read as an `i32`, the text after it as a `u32`.
pub open spec fn period_fields(p: Seq<char>) -> Option<(int, int)> {
    match first_index_of(p, '-') {
        Some(i) => {
            let y = parse_int(p.subrange(0, i), true, i32::MIN as int, i32::MAX as int);
            let m = parse_int(p.subrange(i + 1, p.len() as int), false, 0, u32::MAX as int);
            if y is Some && m is Some { Some((y->0, m->0)) } else { None }
        },
        None => None,
    }
}

/// The range of a billing period: from its month's first midnight to the
/// millisecond before the next month's; each bound is 0 when its date does not
/// exist, and both are 0 when the text is not a period.
pub open spec fn period_range(p: Seq<char>) -> (int, int) {
    match period_fields(p) {
        Some((y, m)) => {
            let start = match month_start(y, m) { Some(v) => v, None => 0 };
            let (ny, nm) = if m == 12 { (y + 1, 1int) } else { (y, m + 1) };
            let end = match month_start(ny, nm) { Some(v) => v - 1, None => 0 };
            (start, end)
        },
        None => (0, 0),
    }
}

/// Periods whose next month cannot be written as an `i32` year and `u32` month.
pub open spec fn period_computable(p: Seq<char>) -> bool {
    match period_fields(p) {
        Some((y, m)) => m != u32::MAX as int && !(m == 12 && y == i32::MAX as int),
        None => true,
    }
}

pub fn billing_period_range(period: &str) -> (r: PeriodRange)
    requires
        period_computable(period@),
    ensures
        r.start == period_range(period@).0,
        r.end == period_range(period@).1,
{
    let v = chars_of(period);
    match find_char(v.as_slice(), '-') {
        Some(i) => {
            assert(i < v.len());
            let head = slice_chars(v.as_slice(), 0, i);
            let tail = slice_chars(v.as_slice(), i + 1, v.len());
            match (parse_i32(head.as_slice()), parse_u32(tail.as_slice())) {
                (Some(year), Some(month)) => {
                    let start = match month_start_millis(year, month) {
                        Some(ms) => ms,
                        None => 0,
                    };
                    let (ny, nm) = if month == 12 { (year + 1, 1u32) } else { (year, month + 1) };
                    let end = match month_start_millis(ny, nm) {
                        Some(ms) => ms - 1,
                        None => 0,
                    };
                    PeriodRange { start, end }
                },
                _ => PeriodRange { start: 0, end: 0 },
            }
        },
        None => PeriodRange { start: 0, end: 0 },
    }
}

proof fn lemma_month_days(y: int, m: int)
    requires
        1 <= m <= 12,
    ensures
        28 <= (if m == 12 { days_from_civil(y + 1, 1, 1) } else { days_from_civil(y, m + 1, 1) })
            - days_from_civil(y, m, 1) <= 31,
{
    let y2 = if m <= 2 { y - 1 } else { y };
    let era = y2 / 400;
    let yoe = y2 - era * 400;
    assert(0 <= yoe < 400);
    if m == 2 {
        let era3 = y / 400;
        let yoe3 = y - era3 * 400;
        assert(0 <= yoe3 < 400);
        if yoe == 399 {
            assert(era3 == era + 1 && yoe3 == 0);
        } else {
            assert(era3 == era && yoe3 == yoe + 1);
        }
    } else if m == 12 {
        let era1 = y / 400;
        let yoe1 = y - era1 * 400;
        assert(y2 == y);
        assert(era1 == era && yoe1 == yoe);
    }
}

/// A billing period of a month that `chrono` covers, and whose next month it covers
/// too, runs from that month's first millisecond to the last, one to the next: it
/// starts before it ends and spans 28 to 31 whole days.
pub proof fn lemma_period_spans_its_month(p: Seq<char>)
    requires
        period_fields(p) matches Some((y, m)) && month_start(y, m) is Some
            && month_start(if m == 12 { y + 1 } else { y }, if m == 12 { 1 } else { m + 1 }) is Some,
    ensures
        period_range(p).0 < period_range(p).1,
        28 * 86_400_000 <= period_range(p).1 + 1 - period_range(p).0 <= 31 * 86_400_000,
{
    let (y, m) = period_fields(p)->0;
    lemma_month_days(y, m);
    let d0 = days_from_civil(y, m, 1);
    let d1 = if m == 12 { days_from_civil(y + 1, 1, 1) } else { days_from_civil(y, m + 1, 1) };
    assert(d1 * 86_400_000 - d0 * 86_400_000 == (d1 - d0) * 86_400_000);
}

} // verus!
