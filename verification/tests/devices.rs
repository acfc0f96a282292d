use vl_api::devices::{
    claiming_customer, claiming_data, credentials_from_request, default_credentials, device_from_request,
    device_ids, device_with_credentials, export_devices_csv, linked_eui, normalize_dev_eui, parse_credentials_type,
    provisioning_status, qr_claim, qr_image, qr_payload, CredentialsResponse, Device, DeviceCredentialsType,
    DeviceIdsParams, DeviceResponse, DeviceWithCredentialsRequest, PageParams, SaveCredentialsRequest,
    SaveDeviceRequest,
};
use vl_api::error::ApiError;
use vl_api::ids::IdResponse;
use vl_api::security::SecurityContext;

fn ctx(authority: &str, tenant: u128) -> SecurityContext {
    SecurityContext { user_id: 1, tenant_id: tenant, customer_id: None, authority: authority.into(), jti: String::new(), exp: 0 }
}

fn save_req(profile: Option<u128>, tenant: Option<u128>) -> SaveDeviceRequest {
    SaveDeviceRequest {
        id: None,
        name: "sensor-1".into(),
        device_type: None,
        label: Some("Lab".into()),
        tenant_id: tenant.map(IdResponse::tenant),
        customer_id: None,
        device_profile_id: profile.map(IdResponse::profile),
        additional_info: None,
    }
}

fn device(name: &str, tenant: u128) -> Device {
    Device {
        id: 0x0123456789abcdef0123456789abcdef,
        created_time: 1700000000000,
        tenant_id: tenant,
        customer_id: None,
        name: name.into(),
        device_type: "default".into(),
        label: None,
        device_profile_id: 0x0123456789abcdef0123456789abcdef,
        firmware_id: None,
        software_id: None,
        additional_info: None,
        version: 1,
    }
}

#[test]
fn device_needs_a_profile() {
    match device_from_request(5, save_req(None, None), 10, 7) {
        Err(ApiError::BadRequest(m)) => assert_eq!(m, "deviceProfileId is required"),
        _ => panic!(),
    }
    let d = device_from_request(5, save_req(Some(9), None), 10, 7).ok().unwrap();
    assert_eq!(d.tenant_id, 5);
    assert_eq!(d.id, 7);
    assert_eq!(d.device_type, "default");
    assert_eq!(d.device_profile_id, 9);
    let d2 = device_from_request(5, save_req(Some(9), Some(6)), 10, 7).ok().unwrap();
    assert_eq!(d2.tenant_id, 6);
    let r = DeviceResponse::from_device(d2);
    assert_eq!(r.device_profile_id.entity_type, "DEVICE_PROFILE");
}

#[test]
fn combined_save_checks_tenant_first() {
    let creds = SaveCredentialsRequest { credentials_type: Some("MQTT_BASIC".into()), credentials_id: "c".into(), credentials_value: None };
    let req = DeviceWithCredentialsRequest { device: save_req(None, None), credentials: creds };
    match device_with_credentials(req, 1, 2, 3) { Err(ApiError::BadRequest(m)) => assert_eq!(m, "tenantId is required"), _ => panic!() }
    let creds = SaveCredentialsRequest { credentials_type: Some("MQTT_BASIC".into()), credentials_id: "c".into(), credentials_value: None };
    let req = DeviceWithCredentialsRequest { device: save_req(Some(4), Some(6)), credentials: creds };
    let (d, c) = device_with_credentials(req, 1, 2, 3).ok().unwrap();
    assert_eq!(c.device_id, d.id);
    assert_eq!(c.credentials_type, DeviceCredentialsType::MqttBasic);
}

#[test]
fn credentials_types_are_exact_names() {
    assert_eq!(parse_credentials_type(&Some("X509_CERTIFICATE".into())), DeviceCredentialsType::X509Certificate);
    assert_eq!(parse_credentials_type(&Some("lwm2m_credentials".into())), DeviceCredentialsType::AccessToken);
    assert_eq!(parse_credentials_type(&None), DeviceCredentialsType::AccessToken);
    let c = credentials_from_request(1, SaveCredentialsRequest { credentials_type: None, credentials_id: "tok".into(), credentials_value: None }, 2, 3);
    let r = CredentialsResponse::from_credentials(c);
    assert_eq!(r.credentials_type, "ACCESS_TOKEN");
    assert_eq!(r.id.entity_type, "DEVICE_CREDENTIALS");
    let d = default_credentials(8, 9);
    assert_eq!(d.credentials_id.len(), 36);
    assert_eq!(d.credentials_id.matches('-').count(), 4);
}

#[test]
fn device_id_lists_skip_blank_and_bad_pieces() {
    let p = DeviceIdsParams { device_ids: Some(" 01234567-89ab-cdef-0123-456789abcdef ,,bad, 00000000-0000-0000-0000-000000000001".into()) };
    assert_eq!(device_ids(&p), vec![0x0123456789abcdef0123456789abcdef, 1]);
    assert!(device_ids(&DeviceIdsParams { device_ids: None }).is_empty());
}

#[test]
fn page_params_default_to_first_ten() {
    let p = PageParams { page_size: None, page: None, text_search: None };
    let l = p.to_page_link();
    assert_eq!((l.page, l.page_size), (0, 10));
    assert_eq!(p.export_page_link().page_size, 10000);
}

#[test]
fn claiming_defaults_to_a_day() {
    let (s, e) = claiming_data(None, None, 1000);
    assert_eq!(s, "");
    assert_eq!(e, 1000 + 86_400_000);
    assert_eq!(claiming_data(Some("k".into()), Some(5), 1000), ("k".to_string(), 1005));
    match claiming_customer(&ctx("TENANT_ADMIN", 1)) {
        Err(ApiError::Forbidden(m)) => assert_eq!(m, "Only CUSTOMER_USER can claim devices"),
        _ => panic!(),
    }
}

#[test]
fn provisioning_status_reports_claims() {
    let s = provisioning_status("x".into(), None);
    assert_eq!(s.status, "NOT_FOUND");
    let mut d = device("x", 1);
    d.customer_id = Some(3);
    let s = provisioning_status("x".into(), Some((d, None)));
    assert_eq!(s.status, "CLAIMED");
    assert_eq!(s.credentials_type.as_deref(), Some("ACCESS_TOKEN"));
    let s = provisioning_status("x".into(), Some((device("x", 1), None)));
    assert_eq!(s.status, "PROVISIONED");
}

#[test]
fn dev_eui_is_trimmed_lowered_and_checked() {
    assert_eq!(normalize_dev_eui("  0011AABBCCDDEEFF ").ok().unwrap(), "0011aabbccddeeff");
    match normalize_dev_eui("0011AABBCCDDEEF") {
        Err(ApiError::BadRequest(m)) => assert_eq!(m, "devEui must be 16 hex chars (8-byte EUI-64)"),
        _ => panic!(),
    }
    assert!(normalize_dev_eui("0011AABBCCDDEEFG").is_err());
    assert!(linked_eui(None).is_err());
}

#[test]
fn qr_payload_is_json_with_escapes() {
    assert_eq!(qr_payload("dev \"1\"", "abc"), "{\"deviceName\":\"dev \\\"1\\\"\",\"secretKey\":\"abc\"}");
}

#[test]
fn qr_claim_checks_access_and_tenant() {
    match qr_claim(&ctx("CUSTOMER_USER", 1), Some(device("d", 1)), 1, 0) {
        Err(ApiError::Forbidden(m)) => assert_eq!(m, "TENANT_ADMIN required to generate QR code"),
        _ => panic!(),
    }
    match qr_claim(&ctx("TENANT_ADMIN", 1), None, 0x0123456789abcdef0123456789abcdef, 0) {
        Err(ApiError::NotFound(m)) => assert_eq!(m, "Device [01234567-89ab-cdef-0123-456789abcdef] not found"),
        _ => panic!(),
    }
    match qr_claim(&ctx("TENANT_ADMIN", 1), Some(device("d", 2)), 1, 0) {
        Err(ApiError::Forbidden(m)) => assert_eq!(m, "Device belongs to a different tenant"),
        _ => panic!(),
    }
    let q = qr_claim(&ctx("SYS_ADMIN", 1), Some(device("d", 2)), 1, 5).ok().unwrap();
    assert_eq!(q.secret.len(), 32);
    assert!(q.secret.chars().all(|c| c.is_ascii_alphanumeric()));
    assert_eq!(q.expiry, 5 + 86_400_000);
    let png = qr_image(&q.payload).ok().unwrap();
    assert_eq!(&png[..8], &[0x89, b'P', b'N', b'G', 0x0d, 0x0a, 0x1a, 0x0a]);
}

#[test]
fn device_export_is_csv() {
    let mut d = device("a,b", 1);
    d.label = Some("L".into());
    let bytes = export_devices_csv(&vec![d, device("c", 1)]).ok().unwrap();
    let text = String::from_utf8(bytes).unwrap();
    assert_eq!(text, "name,type,label,deviceProfileId,createdTime\n\"a,b\",default,L,01234567-89ab-cdef-0123-456789abcdef,1700000000000\nc,default,,01234567-89ab-cdef-0123-456789abcdef,1700000000000\n");
}
