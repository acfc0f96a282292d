use vl_api::api_keys::{create_api_key, generate_api_key, hash_key, key_prefix, reach_api_key, CreateApiKeyRequest};
use vl_api::cluster::{leader_view, node_not_found, partition_layout, partitions_summary, ClusterLeaderInfo};
use vl_api::error::ApiError;
use vl_api::security::SecurityContext;

fn ctx(authority: &str, user: u128) -> SecurityContext {
    SecurityContext { user_id: user, tenant_id: 9, customer_id: None, authority: authority.into(), jti: "j".into(), exp: 0 }
}

#[test]
fn generated_key_has_correct_prefix() {
    let key = generate_api_key();
    assert!(key.starts_with("vielang_live_"));
    assert_eq!(key.len(), "vielang_live_".len() + 32);
}

#[test]
fn hash_is_64_hex_chars() {
    let h = hash_key("vielang_live_test");
    assert_eq!(h.len(), 64);
    assert!(h.chars().all(|c| c.is_ascii_hexdigit()));
}

#[test]
fn hash_is_sha256_hex() {
    assert_eq!(hash_key("abc"), "ba7816bf8f01cfea414140de5dae2223b00361a396177a9cb410ff61f20015ad");
}

#[test]
fn key_prefix_is_first_twenty() {
    assert_eq!(key_prefix("vielang_live_abcdefghijk"), "vielang_live_abcdefg");
    assert_eq!(key_prefix("short"), "short");
}

#[test]
fn created_key_stores_hash_and_prefix() {
    let r = create_api_key(&ctx("TENANT_ADMIN", 4), CreateApiKeyRequest { name: "ci".into(), scopes: vec!["read".into()], expires_at: None });
    assert_eq!(r.key.key_hash, hash_key(&r.raw_key));
    assert_eq!(r.key.key_prefix, r.raw_key[..20]);
    assert!(r.key.enabled);
    assert_eq!(r.key.user_id, 4);
    assert_eq!(r.key.tenant_id, 9);
}

#[test]
fn keys_are_reached_by_owner_or_system_admin() {
    let r = create_api_key(&ctx("TENANT_ADMIN", 4), CreateApiKeyRequest { name: "ci".into(), scopes: vec![], expires_at: None });
    match reach_api_key(&ctx("TENANT_ADMIN", 5), Some(r.key)) { Err(ApiError::Forbidden(m)) => assert_eq!(m, "Access denied"), _ => panic!() }
    match reach_api_key(&ctx("SYS_ADMIN", 5), None) { Err(ApiError::NotFound(m)) => assert_eq!(m, "API key not found"), _ => panic!() }
    let r = create_api_key(&ctx("TENANT_ADMIN", 4), CreateApiKeyRequest { name: "ci".into(), scopes: vec![], expires_at: None });
    assert!(reach_api_key(&ctx("SYS_ADMIN", 5), Some(r.key)).is_ok());
}

#[test]
fn round_robin_gives_each_node_eight_partitions() {
    let l = partition_layout(3, Some(1));
    assert_eq!(l.total_partitions, 24);
    assert_eq!(l.assigned_partitions, vec![1, 4, 7, 10, 13, 16, 19, 22]);
    let solo = partition_layout(0, None);
    assert_eq!(solo.total_partitions, 8);
    assert_eq!(solo.assigned_partitions, (0..8).collect::<Vec<i32>>());
    assert_eq!(partitions_summary(0, 4), (1, 4));
}

#[test]
fn leader_is_local_when_ids_match() {
    let l = ClusterLeaderInfo { leader_node_id: Some("n1".into()), host: None, grpc_port: Some(1), leader_epoch: 3, is_local: false };
    assert!(leader_view(Some(l), "n1").is_local);
    let none = leader_view(None, "n1");
    assert!(!none.is_local && none.leader_node_id.is_none() && none.leader_epoch == 0);
    match node_not_found("n9") { ApiError::NotFound(m) => assert_eq!(m, "Cluster node 'n9' not found"), _ => panic!() }
}
