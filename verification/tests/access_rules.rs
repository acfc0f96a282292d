use vl_api::admin::{default_auto_commit, jwt_settings_info, tenant_settings_access};
use vl_api::admin_analytics::analytics_access;
use vl_api::audit::customer_scope;
use vl_api::backup::backup_access;
use vl_api::billing::cancellation_status;
use vl_api::cluster::{cluster_access, find_node, synthetic_local_node, ClusterNode};
use vl_api::component_descriptor::descriptor_not_found;
use vl_api::dashboards::dashboard_not_found;
use vl_api::device_profiles::save_created;
use vl_api::devices::claim_for_customer_secret;
use vl_api::entity_versions::{save_repository_settings, version_request_not_found, RepositorySettings};
use vl_api::entity_views::{check_view_assigned, view_identity, view_subtypes};
use vl_api::error::ApiError;
use vl_api::events::invalid_event_type;
use vl_api::geofence::{check_response, delete_outcome};
use vl_api::ids::opt_id;
use vl_api::security::{may_list_tenant_devices, require_same_tenant, SecurityContext};
use vl_api::text::{hex_u128, to_ascii_upper_char};

fn ctx(authority: &str, tenant: u128) -> SecurityContext {
    SecurityContext {
        user_id: 1,
        tenant_id: tenant,
        customer_id: None,
        authority: authority.into(),
        jti: String::new(),
        exp: 0,
    }
}

fn forbidden<T>(r: Result<T, ApiError>, text: &str) -> bool {
    matches!(r, Err(ApiError::Forbidden(ref m)) if m == text)
}

#[test]
fn administrator_only_areas() {
    assert!(analytics_access(&ctx("SYS_ADMIN", 0)).is_ok());
    assert!(forbidden(analytics_access(&ctx("TENANT_ADMIN", 1)), "SYS_ADMIN required"));
    assert!(cluster_access(&ctx("SYS_ADMIN", 0)).is_ok());
    assert!(forbidden(cluster_access(&ctx("CUSTOMER_USER", 1)), "SYS_ADMIN authority required"));
    assert!(backup_access(&ctx("TENANT_ADMIN", 1)).is_ok());
    assert!(backup_access(&ctx("SYS_ADMIN", 0)).is_ok());
    assert!(forbidden(backup_access(&ctx("CUSTOMER_USER", 1)), "TENANT_ADMIN required"));
    assert!(tenant_settings_access(&ctx("TENANT_ADMIN", 1)).is_ok());
    assert!(forbidden(tenant_settings_access(&ctx("CUSTOMER_USER", 1)), "TENANT_ADMIN authority required"));
}

#[test]
fn tenant_boundaries() {
    assert!(require_same_tenant(&ctx("TENANT_ADMIN", 5), 5).is_ok());
    assert!(forbidden(require_same_tenant(&ctx("TENANT_ADMIN", 5), 6), "Access denied"));
    assert!(require_same_tenant(&ctx("SYS_ADMIN", 0), 6).is_ok());
    assert!(may_list_tenant_devices(&ctx("CUSTOMER_USER", 5), 5).is_ok());
    assert!(forbidden(may_list_tenant_devices(&ctx("TENANT_ADMIN", 5), 7), "Access denied"));
}

#[test]
fn claiming_for_a_customer_needs_tenant_admin_and_secret() {
    assert!(forbidden(claim_for_customer_secret(&ctx("CUSTOMER_USER", 1), Some("s".into())), "TENANT_ADMIN required"));
    assert!(matches!(claim_for_customer_secret(&ctx("TENANT_ADMIN", 1), None),
        Err(ApiError::BadRequest(ref m)) if m == "secretKey required"));
    assert!(matches!(claim_for_customer_secret(&ctx("TENANT_ADMIN", 1), Some("s".into())), Ok(ref s) if s == "s"));
}

#[test]
fn not_found_and_refusal_messages() {
    assert!(matches!(dashboard_not_found(1), ApiError::NotFound(ref m)
        if m == "Dashboard [00000000-0000-0000-0000-000000000001] is not found"));
    assert!(matches!(version_request_not_found(0xab), ApiError::NotFound(ref m)
        if m == "Version request 00000000-0000-0000-0000-0000000000ab not found"));
    assert!(matches!(descriptor_not_found("a.B"), ApiError::NotFound(ref m)
        if m == "ComponentDescriptor [a.B] not found"));
    assert!(matches!(invalid_event_type("FOO"), ApiError::BadRequest(ref m) if m == "Invalid event type: FOO"));
    assert!(matches!(delete_outcome(false), Err(ApiError::NotFound(ref m)) if m == "Geofence not found"));
    assert!(delete_outcome(true).is_ok());
    let settings = RepositorySettings { enabled: true, repository_uri: None, default_branch: None, auth_method: None };
    assert!(matches!(save_repository_settings(settings), Err(ApiError::BadRequest(ref m))
        if m == "Git-based version control is not enabled in this deployment"));
}

fn node(id: &str) -> ClusterNode {
    synthetic_local_node(id.into(), "localhost".into(), 8080, 9090)
}

#[test]
fn cluster_nodes_are_found_by_id() {
    let n = node("a");
    assert_eq!(n.status, "ACTIVE");
    assert_eq!(n.service_type, "MONOLITH");
    assert!(!n.is_leader);
    assert_eq!(n.leader_epoch, 0);
    assert_eq!(n.grpc_port, 9090);
    let nodes = vec![node("a"), node("b"), node("b")];
    assert_eq!(find_node(&nodes, "b"), Some(1));
    assert_eq!(find_node(&nodes, "a"), Some(0));
    assert_eq!(find_node(&nodes, "c"), None);
}

#[test]
fn geofence_check_is_inside_when_any_geofence_matches() {
    let r = check_response(vec![]);
    assert!(!r.inside);
    let r = check_response(vec![3, 4]);
    assert!(r.inside);
    assert_eq!(r.geofence_ids, vec![3, 4]);
}

#[test]
fn entity_view_identity_and_assignment() {
    assert!(matches!(view_identity(None, None, 50, 9), Ok((9, 50, 1))));
    assert!(matches!(view_identity(Some(4), Some((10, 3)), 50, 9), Ok((4, 10, 3))));
    assert!(matches!(view_identity(Some(4), None, 50, 9), Err(ApiError::NotFound(ref m))
        if m == "Entity View not found"));
    assert!(check_view_assigned(Some(1)).is_ok());
    assert!(matches!(check_view_assigned(None), Err(ApiError::BadRequest(ref m))
        if m == "Entity View isn't assigned to any customer"));
    let subtypes = view_subtypes(vec!["x".into(), "y".into()]);
    assert_eq!(subtypes.len(), 2);
    assert_eq!(subtypes[1].entity_type, "ENTITY_VIEW");
    assert_eq!(subtypes[1].subtype, "y");
}

#[test]
fn small_builders() {
    assert!(save_created(1));
    assert!(!save_created(2));
    let u = cancellation_status(true);
    assert_eq!(u.status, "active");
    assert!(u.cancel_at_period_end);
    assert!(u.period_end.is_none());
    let a = default_auto_commit();
    assert!(!a.enabled);
    let j = jwt_settings_info(900, 3600);
    assert_eq!(j.token_issuer, "vielang.io");
    assert_eq!(j.token_signing_key, "***");
    assert_eq!(j.refresh_token_exp_time, 3600);
    assert!(opt_id(None, "DEVICE").is_none());
    let id = opt_id(Some(7), "DEVICE").expect("id");
    assert_eq!((id.id, id.entity_type.as_str()), (7, "DEVICE"));
    assert_eq!(hex_u128(0xabc), "00000000000000000000000000000abc");
    assert_eq!(to_ascii_upper_char('q'), 'Q');
    assert_eq!(to_ascii_upper_char('é'), 'é');
    assert!(matches!(customer_scope(5), vl_api::audit::AuditScope::Entity { ref entity_type, entity_id: 5 }
        if entity_type == "CUSTOMER"));
}
