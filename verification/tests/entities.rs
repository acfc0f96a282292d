use vl_api::ai_model::{save_ai_model, AiModel, AiModelBody, AiModelId, AiModelResponse};
use vl_api::assets::{asset_from_request, export_assets_csv, Asset, SaveAssetRequest};
use vl_api::customers::{customer_from_request, SaveCustomerRequest};
use vl_api::device_profiles::{
    filter_by_transport, parse_provision_type_str, parse_transport_type_str, profile_from_request, profile_identity,
    provision_type_str, transport_type_str, DeviceProfile, DeviceProfileResponse, DeviceProfileType, DeviceProvisionType,
    DeviceTransportType, SaveDeviceProfileRequest,
};
use vl_api::domain::{save_domain, DomainBody, DomainEntry, DomainResponse};
use vl_api::edge_events::{EdgeEvent, EdgeEventParams, EdgeEventResponse};
use vl_api::edges::{check_assigned, edge_from_request, edge_identity, edge_info, random_key, Edge, SaveEdgeRequest};
use vl_api::entity_views::{view_from_request, viewed_entity, EntityViewListParams, SaveEntityViewRequest};
use vl_api::error::ApiError;
use vl_api::ids::IdResponse;
use vl_api::security::SecurityContext;

fn ctx(authority: &str) -> SecurityContext {
    SecurityContext { user_id: 1, tenant_id: 9, customer_id: None, authority: authority.into(), jti: String::new(), exp: 0 }
}

#[test]
fn ai_model_id_has_entity_type() {
    let id = AiModelId::new(0);
    assert_eq!(id.id, 0);
    assert_eq!(id.entity_type, "AI_MODEL");
}

#[test]
fn ai_model_response_from_entity() {
    let model = AiModel {
        id: 5,
        created_time: 1_700_000_000_000,
        tenant_id: Some(6),
        name: "GPT-4 Adapter".into(),
        configuration: Some(serde_json::from_str("{\"provider\":\"openai\"}").unwrap()),
        additional_info: None,
    };
    let resp = AiModelResponse::from_model(model);
    assert_eq!(resp.id.id, 5);
    assert_eq!(resp.id.entity_type, "AI_MODEL");
    assert_eq!(resp.name, "GPT-4 Adapter");
    assert_eq!(resp.tenant_id, Some(6));
    assert_eq!(resp.created_time, 1_700_000_000_000);
    assert_eq!(resp.configuration, Some(serde_json::from_str("{\"provider\":\"openai\"}").unwrap()));
    assert!(resp.additional_info.is_none());
}

#[test]
fn ai_model_page_params_defaults() {
    let p = vl_api::ai_model::PageParams::defaults();
    assert_eq!(p.page, 0);
    assert_eq!(p.page_size, 10);
    assert_eq!(vl_api::ai_model::default_page_size(), 10);
}

#[test]
fn domain_page_params_defaults() {
    let p = vl_api::domain::PageParams::defaults();
    assert_eq!(p.page, 0);
    assert_eq!(p.page_size, 10);
}

#[test]
fn edge_event_params_defaults() {
    let params = EdgeEventParams::defaults();
    assert_eq!(params.page, 0);
    assert_eq!(params.page_size, 20);
    assert!(params.start_time.is_none());
    assert!(params.end_time.is_none());
    assert!(params.action.is_none());
    let big = EdgeEventParams { page: 1, page_size: 5000, start_time: None, end_time: None, action: None };
    assert_eq!(big.page_link().page_size, 1000);
}

#[test]
fn edge_event_converts_from_entity() {
    let event = EdgeEvent { id: 1, created_time: 5000, seq_id: 7, tenant_id: 2, edge_id: 3, edge_event_type: "ALARM".into(),
        edge_event_action: "UPDATED".into(), entity_id: None, body: None, uid: None };
    let resp = EdgeEventResponse::from_event(event);
    assert_eq!(resp.id, 1);
    assert_eq!(resp.seq_id, 7);
    assert!(resp.entity_id.is_none());
    assert!(resp.body.is_none());
}

#[test]
fn domain_entry_converts_to_response() {
    let entry = DomainEntry { id: 4, created_time: 1000, tenant_id: 5, name: "test.io".into(), oauth2_enabled: true, propagate_to_edge: true };
    let resp = DomainResponse::from_entry(entry);
    assert_eq!(resp.id.id, 4);
    assert_eq!(resp.id.entity_type, "DOMAIN");
    assert_eq!(resp.name, "test.io");
    assert!(resp.oauth2_enabled);
}

#[test]
fn saves_need_administrators() {
    let body = AiModelBody { id_text: Some("00000000-0000-0000-0000-00000000000a".into()), name: None, configuration: None, additional_info: None };
    match save_ai_model(&ctx("CUSTOMER_USER"), body) { Err(ApiError::Forbidden(m)) => assert_eq!(m, "Admin access required"), _ => panic!() }
    let body = AiModelBody { id_text: Some("00000000-0000-0000-0000-00000000000a".into()), name: None, configuration: None, additional_info: None };
    let m = save_ai_model(&ctx("SYS_ADMIN"), body).ok().unwrap();
    assert_eq!(m.id, 10);
    assert_eq!(m.name, "Unnamed Model");
    assert_eq!(m.tenant_id, None);
    let body = AiModelBody { id_text: None, name: Some("n".into()), configuration: None, additional_info: None };
    assert_eq!(save_ai_model(&ctx("TENANT_ADMIN"), body).ok().unwrap().tenant_id, Some(9));
    let d = save_domain(&ctx("TENANT_ADMIN"), DomainBody { id_text: Some("bad".into()), name: None, oauth2_enabled: None, propagate_to_edge: Some(true) }).ok().unwrap();
    assert_eq!(d.name, "");
    assert!(!d.oauth2_enabled && d.propagate_to_edge);
    assert_eq!(d.tenant_id, 9);
}

#[test]
fn transport_and_provision_names() {
    assert_eq!(parse_transport_type_str("mqtt"), DeviceTransportType::Mqtt);
    assert_eq!(parse_transport_type_str("LwM2m"), DeviceTransportType::Lwm2m);
    assert_eq!(parse_transport_type_str("http"), DeviceTransportType::Default);
    for t in [DeviceTransportType::Default, DeviceTransportType::Mqtt, DeviceTransportType::Coap, DeviceTransportType::Lwm2m, DeviceTransportType::Snmp] {
        assert_eq!(parse_transport_type_str(transport_type_str(t)), t);
    }
    for p in [DeviceProvisionType::Disabled, DeviceProvisionType::AllowCreateNewDevices, DeviceProvisionType::CheckPreProvisionedDevices, DeviceProvisionType::X509CertificateChain] {
        assert_eq!(parse_provision_type_str(provision_type_str(p)), p);
    }
}

fn profile_req(id: Option<u128>) -> SaveDeviceProfileRequest {
    SaveDeviceProfileRequest { id: id.map(IdResponse::profile), name: "p".into(), description: None, image: None, profile_type: None,
        transport_type: Some("coap".into()), provision_type: None, profile_data: None, default_rule_chain_id: None,
        default_dashboard_id: Some(IdResponse::dashboard(3)), default_queue_name: None, firmware_id: None, software_id: None }
}

#[test]
fn device_profile_save() {
    match profile_identity(Some(1), None, 5, 6) { Err(ApiError::NotFound(m)) => assert_eq!(m, "Entity not found"), _ => panic!() }
    assert_eq!(profile_identity(Some(1), Some((2, 3)), 5, 6).ok().unwrap(), (1, 2, 3));
    assert_eq!(profile_identity(None, Some((2, 3)), 5, 6).ok().unwrap(), (6, 5, 1));
    let p = profile_from_request(9, profile_req(None), 6, 5, 1);
    assert_eq!(p.transport_type, DeviceTransportType::Coap);
    assert_eq!(p.provision_type, DeviceProvisionType::Disabled);
    assert_eq!(p.device_profile_type, DeviceProfileType::Default);
    assert!(!p.is_default);
    let r = DeviceProfileResponse::from_profile(p);
    assert_eq!(r.transport_type, "COAP");
    assert_eq!(r.profile_type, "DEFAULT");
    assert_eq!(r.default_dashboard_id.unwrap().entity_type, "DASHBOARD");
}

#[test]
fn profile_infos_filter_by_transport_name() {
    let mk = |t: DeviceTransportType, n: &str| -> DeviceProfile { profile_from_request(9, SaveDeviceProfileRequest { transport_type: Some(transport_type_str(t).into()), name: n.into(), ..profile_req(None) }, 1, 1, 1) };
    let ps = vec![mk(DeviceTransportType::Mqtt, "a"), mk(DeviceTransportType::Coap, "b"), mk(DeviceTransportType::Mqtt, "c")];
    let infos = filter_by_transport(&ps, &Some("MQTT".into()));
    assert_eq!(infos.iter().map(|i| i.name.clone()).collect::<Vec<_>>(), vec!["a", "c"]);
    assert_eq!(filter_by_transport(&ps, &None).len(), 3);
    assert_eq!(filter_by_transport(&ps, &Some("mqtt ".into())).len(), 0);
}

#[test]
fn edges_generate_keys() {
    let k = random_key();
    assert_eq!(k.len(), 32);
    assert!(k.chars().all(|c| c.is_ascii_hexdigit() && !c.is_ascii_uppercase()));
    match edge_identity(Some(1), None, 0, 0) { Err(ApiError::NotFound(m)) => assert_eq!(m, "Edge not found"), _ => panic!() }
    let req = SaveEdgeRequest { id: None, name: "e".into(), edge_type: None, label: None, routing_key: Some("rk".into()), secret: None,
        tenant_id: None, customer_id: None, additional_info: None };
    let e: Edge = edge_from_request(9, req, 1, 2, 1);
    assert_eq!(e.edge_type, "DEFAULT");
    assert_eq!(e.routing_key, "rk");
    assert_eq!(e.secret.len(), 32);
    let info = edge_info(e, Some(("C".into(), true)));
    assert!(info.customer_title.is_none());
    match check_assigned(None) { Err(ApiError::BadRequest(m)) => assert_eq!(m, "Edge isn't assigned to any customer"), _ => panic!() }
}

#[test]
fn entity_views_need_an_entity() {
    let req = SaveEntityViewRequest { id: None, name: "v".into(), ev_type: None, tenant_id: None, customer_id: None,
        entity_id: None, keys: None, start_time_ms: None, end_time_ms: Some(9), additional_info: None };
    match viewed_entity(&req) { Err(ApiError::BadRequest(m)) => assert_eq!(m, "entityId is required"), _ => panic!() }
    let v = view_from_request(9, req, (3, "DEVICE".into()), 1, 2, 1);
    assert_eq!(v.entity_view_type, "DEFAULT");
    assert_eq!((v.start_ts, v.end_ts), (0, 9));
    let p = EntityViewListParams { page_size: None, page: None, text_search: None, ev_type: Some(String::new()) };
    assert!(p.type_filter().is_none());
}

#[test]
fn assets_take_the_default_profile() {
    let req = SaveAssetRequest { id: None, name: "a".into(), asset_type: None, label: None, tenant_id: None, customer_id: None,
        asset_profile_id: None, additional_info: None };
    match asset_from_request(9, req, 1, 2, None) {
        Err(ApiError::BadRequest(m)) => assert_eq!(m, "No default asset profile. Create one or provide assetProfileId."),
        _ => panic!(),
    }
    let req = SaveAssetRequest { id: None, name: "a".into(), asset_type: None, label: None, tenant_id: None, customer_id: None,
        asset_profile_id: None, additional_info: None };
    let a: Asset = asset_from_request(9, req, 1, 2, Some(7)).ok().unwrap();
    assert_eq!(a.asset_profile_id, 7);
    assert_eq!(a.asset_type, "default");
    let csv = String::from_utf8(export_assets_csv(&vec![a]).ok().unwrap()).unwrap();
    assert_eq!(csv, "name,type,label,assetProfileId,createdTime\na,default,,00000000-0000-0000-0000-000000000007,1\n");
}

#[test]
fn customers_need_a_tenant() {
    let req = SaveCustomerRequest { id: None, title: "c".into(), tenant_id: None, country: None, city: None, email: None, phone: None };
    match customer_from_request(req, 1, 2) { Err(ApiError::BadRequest(m)) => assert_eq!(m, "tenantId is required"), _ => panic!() }
}
