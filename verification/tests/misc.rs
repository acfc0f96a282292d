use vl_api::admin::{build_info, disk_totals, features_info, no_update, settings_not_found};
use vl_api::admin_analytics::{arr_cents, format_cents, top_tenants_limit};
use vl_api::backup::{backup_file_name, import_target, include_telemetry, schedule_from_request, SetScheduleRequest};
use vl_api::common::found_or_not_found;
use vl_api::component_descriptor::{check_component_type, component_query, ComponentQuery};
use vl_api::entity_versions::{
    json_diff, repository_settings, restore_message, version_not_found, version_summary, JsonMember, ListVersionsParams,
};
use vl_api::error::ApiError;
use vl_api::health::{health_report, readiness, HealthDetails, HealthInputs};
use vl_api::housekeeper::{default_limit, housekeeper_access, ListRunsQuery};
use vl_api::security::SecurityContext;
use vl_api::text::i64_text;

fn ctx(authority: &str) -> SecurityContext {
    SecurityContext { user_id: 1, tenant_id: 9, customer_id: None, authority: authority.into(), jti: String::new(), exp: 0 }
}

fn m(k: &str, v: &str) -> JsonMember {
    JsonMember { key: k.into(), value: v.into() }
}

#[test]
fn decimal_text_of_i64() {
    assert_eq!(i64_text(0), "0");
    assert_eq!(i64_text(-45), "-45");
    assert_eq!(i64_text(i64::MIN), i64::MIN.to_string());
    assert_eq!(i64_text(i64::MAX), i64::MAX.to_string());
}

#[test]
fn not_found_messages_name_the_id() {
    match found_or_not_found::<u8>(None, "Alarm", 1, "is not found") {
        Err(ApiError::NotFound(m)) => assert_eq!(m, "Alarm [00000000-0000-0000-0000-000000000001] is not found"),
        _ => panic!(),
    }
    assert_eq!(found_or_not_found(Some(3u8), "Alarm", 1, "x").ok(), Some(3));
}

#[test]
fn snapshot_diff_by_key() {
    let from = Some(vec![m("a", "1"), m("b", "2"), m("c", "3")]);
    let to = Some(vec![m("b", "2"), m("c", "4"), m("d", "5")]);
    let d = json_diff(&from, &to);
    assert_eq!(d.added.iter().map(|x| x.key.clone()).collect::<Vec<_>>(), vec!["d"]);
    assert_eq!(d.removed.iter().map(|x| x.key.clone()).collect::<Vec<_>>(), vec!["a"]);
    assert_eq!(d.changed, vec![("c".to_string(), "3".to_string(), "4".to_string())]);
    let d = json_diff(&None, &Some(vec![m("x", "1")]));
    assert_eq!(d.added.len(), 1);
    assert!(d.removed.is_empty() && d.changed.is_empty());
}

#[test]
fn version_lists_and_messages() {
    let p = ListVersionsParams { page: Some(-3), page_size: Some(500) };
    assert_eq!(p.window(), (0, 100));
    assert_eq!(ListVersionsParams { page: None, page_size: Some(0) }.window(), (0, 1));
    assert_eq!(version_summary(0, 10, 25), (3, true));
    assert_eq!(version_summary(2, 10, 25), (3, false));
    match version_not_found(-2) { ApiError::NotFound(m) => assert_eq!(m, "Version -2 not found"), _ => panic!() }
    assert_eq!(restore_message(None, 4), "Restored to version 4");
    assert_eq!(restore_message(Some("m".into()), 4), "m");
    assert!(!repository_settings().enabled);
}

#[test]
fn component_type_queries() {
    assert!(matches!(component_query(None), ComponentQuery::All));
    assert!(matches!(component_query(Some("  ".into())), ComponentQuery::All));
    assert!(matches!(component_query(Some(" , ,".into())), ComponentQuery::Nothing));
    match component_query(Some("FILTER, ACTION ,,".into())) {
        ComponentQuery::Types(v) => assert_eq!(v, vec!["FILTER".to_string(), "ACTION".to_string()]),
        _ => panic!(),
    }
    match check_component_type("  ") { Err(ApiError::BadRequest(m)) => assert_eq!(m, "componentType is required"), _ => panic!() }
}

#[test]
fn admin_information() {
    assert_eq!(build_info("1.2.3", Some(""), "vl-api").rust_version, "1.75");
    assert_eq!(build_info("1.2.3", Some("1.80"), "vl-api").rust_version, "1.80");
    assert_eq!(disk_totals(&vec![(100, 40), (50, 50)]), (150, 60));
    assert!(features_info().two_fa_enabled);
    let u = no_update("1.0");
    assert!(!u.update_available && u.latest_version == "1.0");
    match settings_not_found("mail") { ApiError::NotFound(m) => assert_eq!(m, "Settings [mail] is not found"), _ => panic!() }
}

#[test]
fn analytics_limits() {
    assert_eq!(top_tenants_limit(None), 20);
    assert_eq!(top_tenants_limit(Some("7")), 7);
    assert_eq!(top_tenants_limit(Some("700")), 100);
    assert_eq!(top_tenants_limit(Some("x")), 20);
    assert_eq!(arr_cents(1000), 12000);
}

#[test]
fn export_query_defaults() {
    assert!(!include_telemetry(None));
    assert!(include_telemetry(Some(true)));
}

#[test]
fn set_schedule_request_minimal() {
    let c = schedule_from_request(SetScheduleRequest { cron: "0 0 * * *".into(), include_telemetry: None, output_dir: None });
    assert_eq!(c.cron, "0 0 * * *");
    assert!(!c.include_telemetry);
    assert_eq!(c.output_dir, "/var/vielang/backups");
}

#[test]
fn backup_targets_and_names() {
    assert_eq!(import_target(&ctx("TENANT_ADMIN"), None).ok(), Some(9));
    match import_target(&ctx("TENANT_ADMIN"), Some(3)) {
        Err(ApiError::Forbidden(m)) => assert_eq!(m, "SYS_ADMIN required to specify targetTenantId"),
        _ => panic!(),
    }
    assert_eq!(import_target(&ctx("SYS_ADMIN"), Some(3)).ok(), Some(3));
    assert_eq!(backup_file_name(1, 99), "backup-00000000-0000-0000-0000-000000000001-99.json");
}

#[test]
fn health_verdict_follows_database() {
    let inp = HealthInputs { db_ok: false, pool_size: 5, pool_idle: 2, rule_engine_running: true, cache_kind: "Caffeine".into(),
        queue_kind: "InMemory".into(), version: "1".into(), uptime_secs: 3 };
    let r = health_report(inp);
    assert!(!r.ok);
    assert_eq!(r.status, "DEGRADED");
    assert_eq!(r.components[0].1.status, "DOWN");
    match &r.components[1].1.details { Some(HealthDetails::Kind(k)) => assert_eq!(k, "caffeine"), _ => panic!() }
    assert_eq!(r.components[2].1.status, "UP");
    let ready = readiness(true);
    assert!(ready.ready);
    assert_eq!(ready.status, "UP");
    assert!(ready.reason.is_none());
    let not_ready = readiness(false);
    assert!(!not_ready.ready);
    assert_eq!(not_ready.status, "DOWN");
    assert_eq!(not_ready.reason.as_deref(), Some("database unavailable"));
}

#[test]
fn housekeeper_is_for_system_admins() {
    assert_eq!(default_limit(), 50);
    assert_eq!(ListRunsQuery::defaults().limit, 50);
    match housekeeper_access(&ctx("TENANT_ADMIN")) {
        Err(ApiError::Forbidden(m)) => assert_eq!(m, "SYS_ADMIN authority required"),
        _ => panic!(),
    }
}

#[test]
fn format_cents_dollars() {
    assert_eq!(format_cents(5000), "$50");
}

#[test]
fn format_cents_thousands() {
    assert_eq!(format_cents(150_000), "$1.5K");
}

#[test]
fn format_cents_millions() {
    assert_eq!(format_cents(250_000_000), "$2.5M");
}

#[test]
fn format_cents_small_and_negative_amounts() {
    assert_eq!(format_cents(0), "$0");
    assert_eq!(format_cents(99), "$0");
    assert_eq!(format_cents(-250), "$-2");
    assert_eq!(format_cents(99_999), "$999");
    assert_eq!(format_cents(100_000), "$1.0K");
    assert_eq!(format_cents(99_999_999), "$1000.0K");
    assert_eq!(format_cents(100_000_000), "$1.0M");
}

fn float_display(cents: i64) -> String {
    let dollars = cents / 100;
    if dollars >= 1_000_000 {
        format!("${:.1}M", dollars as f64 / 1_000_000.0)
    } else if dollars >= 1_000 {
        format!("${:.1}K", dollars as f64 / 1_000.0)
    } else {
        format!("${}", dollars)
    }
}

#[test]
fn format_cents_matches_float_display() {
    let mut samples: Vec<i64> = vec![
        i64::MAX,
        i64::MIN,
        i64::MAX - 1,
        125_000_000,
        105_000,
        125_000,
        135_000,
        995_000,
        199_950_000_000,
        25_000_000_000,
        35_000_000_000,
        900_719_925_474_099_300,
        900_719_925_474_099_200,
        900_719_925_474_099_100,
        450_359_962_737_049_650,
    ];
    let mut v: i64 = 100_000;
    while v < i64::MAX / 3 {
        samples.push(v);
        samples.push(v + 4_999);
        samples.push(v + 5_000);
        samples.push(v * 3 + 7);
        v = v + v / 7 + 13;
    }
    let mut c: i64 = 100_000;
    while c < 2_000_000 {
        samples.push(c);
        c += 100;
    }
    for cents in samples {
        assert_eq!(format_cents(cents), float_display(cents), "cents = {}", cents);
    }
}
