use vl_api::alarms::{
    alarm_from_request, alarm_notification, alarm_query_window, alarm_status, check_alarm_tenant, entity_type_str,
    parse_entity_type_str, parse_severity_str, severity_str, status_str, AlarmCommentResponse, AlarmComment,
    AlarmResponse, AlarmSeverity, AlarmStatus, EntityType, ListAlarmParams, SaveAlarmRequest,
};
use vl_api::error::ApiError;
use vl_api::ids::IdResponse;

fn request(originator: Option<IdResponse>) -> SaveAlarmRequest {
    SaveAlarmRequest {
        id: None,
        tenant_id: Some(IdResponse::tenant(99)),
        originator_id: originator,
        alarm_type: "High Temp".into(),
        severity: Some("major".into()),
        start_ts: None,
        end_ts: Some(50),
        propagate: Some(true),
        propagate_to_owner: None,
        propagate_to_tenant: None,
        details: None,
    }
}

#[test]
fn severity_names_read_in_any_case() {
    assert_eq!(parse_severity_str("critical"), AlarmSeverity::Critical);
    assert_eq!(parse_severity_str("Major"), AlarmSeverity::Major);
    assert_eq!(parse_severity_str("MINOR"), AlarmSeverity::Minor);
    assert_eq!(parse_severity_str("warning"), AlarmSeverity::Warning);
    assert_eq!(parse_severity_str("bogus"), AlarmSeverity::Indeterminate);
    assert_eq!(parse_severity_str(""), AlarmSeverity::Indeterminate);
}

#[test]
fn severity_names_round_trip() {
    for s in [AlarmSeverity::Critical, AlarmSeverity::Major, AlarmSeverity::Minor, AlarmSeverity::Warning, AlarmSeverity::Indeterminate] {
        assert_eq!(parse_severity_str(severity_str(s)), s);
    }
}

#[test]
fn entity_type_names_round_trip_except_alarm_and_rule_node() {
    let all = [
        EntityType::Tenant, EntityType::Customer, EntityType::User, EntityType::Dashboard, EntityType::Asset,
        EntityType::Device, EntityType::RuleChain, EntityType::EntityView, EntityType::TenantProfile,
        EntityType::DeviceProfile, EntityType::AssetProfile, EntityType::Edge, EntityType::OtaPackage,
    ];
    for t in all {
        assert_eq!(parse_entity_type_str(entity_type_str(&t)), t);
    }
    assert_eq!(parse_entity_type_str(entity_type_str(&EntityType::AlarmEntity)), EntityType::Device);
    assert_eq!(parse_entity_type_str(entity_type_str(&EntityType::RuleNode)), EntityType::Device);
    assert_eq!(parse_entity_type_str("asset_profile"), EntityType::AssetProfile);
    assert_eq!(parse_entity_type_str("whatever"), EntityType::Device);
}

#[test]
fn alarm_status_follows_flags() {
    assert_eq!(alarm_status(false, false), AlarmStatus::ActiveUnack);
    assert_eq!(alarm_status(false, true), AlarmStatus::ActiveAck);
    assert_eq!(alarm_status(true, false), AlarmStatus::ClearedUnack);
    assert_eq!(alarm_status(true, true), AlarmStatus::ClearedAck);
    assert_eq!(status_str(AlarmStatus::ClearedAck), "CLEARED_ACK");
}

#[test]
fn save_request_needs_an_originator() {
    match alarm_from_request(1, request(None), 10, 5) {
        Err(ApiError::BadRequest(m)) => assert_eq!(m, "originatorId is required"),
        _ => panic!("expected a refusal"),
    }
}

#[test]
fn save_request_builds_alarm_with_defaults() {
    let a = alarm_from_request(1, request(Some(IdResponse::new(3, "asset"))), 10, 5).ok().unwrap();
    assert_eq!(a.id, 5);
    assert_eq!(a.tenant_id, 1);
    assert_eq!(a.originator_id, 3);
    assert_eq!(a.originator_type, EntityType::Asset);
    assert_eq!(a.severity, AlarmSeverity::Major);
    assert_eq!(a.start_ts, 10);
    assert_eq!(a.end_ts, 50);
    assert!(a.propagate);
    assert!(!a.propagate_to_owner);
    assert!(!a.acknowledged && !a.cleared);
    let r = AlarmResponse::from_alarm(a);
    assert_eq!(r.status, "ACTIVE_UNACK");
    assert_eq!(r.severity, "MAJOR");
    assert_eq!(r.originator_id.entity_type, "ASSET");
    assert_eq!(r.id.entity_type, "ALARM");
    assert!(r.originator_name.is_none());
}

#[test]
fn notification_only_for_tenants_with_admins() {
    let a = alarm_from_request(1, request(Some(IdResponse::new(0x0123456789abcdef0123456789abcdef, "DEVICE"))), 10, 5).ok().unwrap();
    assert!(alarm_notification(&a, 0).is_none());
    let (subject, text) = alarm_notification(&a, 2).unwrap();
    assert_eq!(subject, "Alarm: High Temp");
    assert_eq!(text, "[MAJOR] High Temp on 01234567-89ab-cdef-0123-456789abcdef");
}

#[test]
fn alarm_reads_are_tenant_scoped() {
    assert!(check_alarm_tenant(1, 1).is_ok());
    match check_alarm_tenant(1, 2) { Err(ApiError::Forbidden(m)) => assert_eq!(m, "Access denied"), _ => panic!() }
}

#[test]
fn alarm_queries_default_and_cap_page_size() {
    assert_eq!(alarm_query_window(None, None), (0, 10, 0));
    assert_eq!(alarm_query_window(Some(3), Some(5000)), (3, 1000, 3000));
    let l = ListAlarmParams { page_size: None, page: Some(2), text_search: Some("x".into()) }.page_link();
    assert_eq!((l.page, l.page_size), (2, 10));
    assert_eq!(l.text_search.as_deref(), Some("x"));
}

#[test]
fn comment_answer_tags_ids() {
    let c = AlarmComment { id: 1, created_time: 2, alarm_id: 3, user_id: Some(4), comment_type: "OTHER".into(), comment: serde_json::Value::Null };
    let r = AlarmCommentResponse::from_comment(c);
    assert_eq!(r.id.entity_type, "ALARM_COMMENT");
    assert_eq!(r.alarm_id.entity_type, "ALARM");
    assert_eq!(r.user_id.unwrap().entity_type, "USER");
}
