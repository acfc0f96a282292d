use vl_api::assets::{parse_kv_value, KvValue};
use vl_api::auth::signup_profile;
use vl_api::billing::{checkout_stripe, checkout_tenant_found, quota_status, ApiUsageStateValue};
use vl_api::entity_versions::{json_diff, JsonMember};
use vl_api::error::ApiError;
use vl_api::export::write_csv;

fn member(k: &str, v: &str) -> JsonMember {
    JsonMember { key: k.into(), value: v.into() }
}

fn row(fields: &[&str]) -> Vec<String> {
    fields.iter().map(|f| f.to_string()).collect()
}

#[test]
fn csv_of_one_width_is_written() {
    let bytes = write_csv(&vec![row(&["a", "b"]), row(&["x", "y z"]), row(&["1", "2,3"])]).ok().unwrap();
    assert_eq!(String::from_utf8(bytes).unwrap(), "a,b\nx,y z\n1,\"2,3\"\n");
    let empty = write_csv(&vec![]).ok().unwrap();
    assert!(empty.is_empty());
}

#[test]
fn csv_of_uneven_width_is_an_internal_error() {
    match write_csv(&vec![row(&["a", "b"]), row(&["x"])]) {
        Err(ApiError::Internal(m)) => assert!(m.starts_with("CSV write error: ")),
        _ => panic!("expected an internal error"),
    }
}

#[test]
fn snapshot_diff_with_itself_is_empty() {
    let a = Some(vec![member("a", "1"), member("b", "[2]"), member("c", "\"x\"")]);
    let d = json_diff(&a, &a);
    assert!(d.added.is_empty() && d.removed.is_empty() && d.changed.is_empty());
}

#[test]
fn snapshot_diff_swapped_reverses_changes() {
    let a = Some(vec![member("a", "1"), member("b", "2"), member("c", "3")]);
    let b = Some(vec![member("c", "4"), member("b", "2"), member("d", "5")]);
    let ab = json_diff(&a, &b);
    let ba = json_diff(&b, &a);
    let keys = |v: &Vec<JsonMember>| v.iter().map(|m| m.key.clone()).collect::<Vec<_>>();
    assert_eq!(keys(&ab.added), keys(&ba.removed));
    assert_eq!(keys(&ab.removed), keys(&ba.added));
    assert_eq!(ab.changed, vec![("c".to_string(), "3".to_string(), "4".to_string())]);
    assert_eq!(ba.changed, vec![("c".to_string(), "4".to_string(), "3".to_string())]);
}

#[test]
fn key_value_cells_read_as_booleans_documents_and_integers() {
    assert!(matches!(parse_kv_value("TRUE"), KvValue::Bool(true)));
    assert!(matches!(parse_kv_value("False"), KvValue::Bool(false)));
    match parse_kv_value("{\"a\":1}") {
        KvValue::Json(v) => assert_eq!(v["a"], 1),
        _ => panic!("expected a document"),
    }
    assert!(matches!(parse_kv_value("[1,2]"), KvValue::Json(_)));
    assert!(matches!(parse_kv_value("{not json}"), KvValue::Other));
    assert!(matches!(parse_kv_value("-42"), KvValue::Int(-42)));
    assert!(matches!(parse_kv_value("+7"), KvValue::Int(7)));
    assert!(matches!(parse_kv_value("2.5"), KvValue::Other));
    assert!(matches!(parse_kv_value("hello"), KvValue::Other));
}

#[test]
fn checkout_and_signup_refusals() {
    assert!(checkout_stripe(true).is_ok());
    assert!(matches!(checkout_stripe(false), Err(ApiError::NotImplemented(ref m)) if m == "Stripe not configured"));
    assert!(matches!(checkout_tenant_found(Some(3)), Ok(3)));
    assert!(matches!(checkout_tenant_found::<u8>(None), Err(ApiError::NotFound(ref m)) if m == "Tenant not found"));
    assert!(matches!(signup_profile(Some(9)), Ok(9)));
    assert!(matches!(signup_profile(None), Err(ApiError::Internal(ref m))
        if m == "No default tenant profile configured"));
}

#[test]
fn quota_status_names_the_usage_state() {
    assert_eq!(quota_status(ApiUsageStateValue::Enabled), "ENABLED");
    assert_eq!(quota_status(ApiUsageStateValue::Warning), "WARNING");
    assert_eq!(quota_status(ApiUsageStateValue::Disabled), "DISABLED");
}

#[test]
fn csv_lines_quote_what_needs_it() {
    let bytes = write_csv(&vec![row(&[""]), row(&["a\"b"]), row(&["x\ry"]), row(&["é"])]).ok().unwrap();
    assert_eq!(String::from_utf8(bytes).unwrap(), "\"\"\n\"a\"\"b\"\n\"x\ry\"\né\n");
    let bytes = write_csv(&vec![row(&["", ""]), row(&[]), ]);
    assert!(bytes.is_err());
    let bytes = write_csv(&vec![row(&["", ""])]).ok().unwrap();
    assert_eq!(String::from_utf8(bytes).unwrap(), ",\n");
    let bytes = write_csv(&vec![row(&[])]).ok().unwrap();
    assert_eq!(String::from_utf8(bytes).unwrap(), "\"\"\n");
}

#[test]
fn metric_to_quota_converts_correctly() {
    let m = vl_api::billing::usage_metric("TEST", 42, 100);
    let q = vl_api::billing::quota_counts(&m, ApiUsageStateValue::Warning);
    assert_eq!(q.used, 42);
    assert_eq!(q.limit, 100);
    assert_eq!(q.status, "WARNING");
}
