use vl_api::dashboards::{
    add_customers, assigned_json, current_customers, dashboard_from_request, home_dashboard, no_home_dashboard,
    remove_customers, DashboardInfo, DashboardInfoResponse, SaveDashboardRequest, SetHomeDashboardRequest,
};
use vl_api::ids::IdResponse;

#[test]
fn adding_customers_skips_repeats() {
    assert_eq!(add_customers(vec![1, 2], &vec![2, 3, 3, 1, 4]), vec![1, 2, 3, 4]);
    assert_eq!(add_customers(vec![], &vec![]), Vec::<u128>::new());
}

#[test]
fn removing_customers_keeps_the_rest_in_order() {
    assert_eq!(remove_customers(vec![1, 2, 3, 2], &vec![2]), vec![1, 3]);
    assert_eq!(remove_customers(vec![1], &vec![5]), vec![1]);
}

#[test]
fn stored_lists_round_trip() {
    let ids = vec![0x0123456789abcdef0123456789abcdef, 1];
    let json = assigned_json(&ids).unwrap();
    assert_eq!(json, "[\"01234567-89ab-cdef-0123-456789abcdef\",\"00000000-0000-0000-0000-000000000001\"]");
    assert_eq!(current_customers(&Some(json)), ids);
    assert!(assigned_json(&vec![]).is_none());
    assert!(current_customers(&Some("not json".into())).is_empty());
    assert!(current_customers(&Some("[\"nope\"]".into())).is_empty());
    assert!(current_customers(&None).is_empty());
}

#[test]
fn saved_dashboard_defaults() {
    let req = SaveDashboardRequest { id: None, tenant_id: None, title: Some("T".into()), configuration: None, mobile_hide: None, mobile_order: Some(3) };
    let d = dashboard_from_request(5, req, 10, 11);
    assert_eq!((d.id, d.tenant_id, d.created_time, d.version), (11, 5, 10, 1));
    assert!(!d.mobile_hide);
    let h = home_dashboard(SetHomeDashboardRequest { dashboard_id: Some(IdResponse::dashboard(4)), hidden_dashboard_toolbar: None });
    assert_eq!(h.dashboard_id, Some(4));
    assert!(!h.hidden_dashboard_toolbar);
    assert!(no_home_dashboard().dashboard_id.is_none());
}

#[test]
fn dashboard_info_parses_assigned_customers() {
    let info = DashboardInfo { id: 1, created_time: 2, tenant_id: 3, title: None, assigned_customers: Some("[1,2]".into()), mobile_hide: false, mobile_order: None };
    let r = DashboardInfoResponse::from_info(info);
    assert!(r.assigned_customers.is_some());
    let info = DashboardInfo { id: 1, created_time: 2, tenant_id: 3, title: None, assigned_customers: Some("[1,".into()), mobile_hide: false, mobile_order: None };
    assert!(DashboardInfoResponse::from_info(info).assigned_customers.is_none());
}
