use vl_api::bulk_import::{
    BulkImport, BulkImportColumn, BulkImportColumnType, BulkImportMapping, BulkImportRequest, ImportAction, ImportKind,
};
use vl_api::error::ApiError;

fn request(file: &str, header: bool, update: bool) -> BulkImportRequest {
    BulkImportRequest {
        file: file.into(),
        mapping: BulkImportMapping {
            columns: vec![
                BulkImportColumn { column_type: BulkImportColumnType::Name, key: None },
                BulkImportColumn { column_type: BulkImportColumnType::Type, key: None },
                BulkImportColumn { column_type: BulkImportColumnType::AccessToken, key: None },
            ],
            delimiter: ',',
            header,
            update,
        },
    }
}

/// Runs an import against a store that knows `existing` names; returns the result
/// and the names created.
fn run(kind: ImportKind, req: BulkImportRequest, existing: &[&str]) -> (BulkImport, Vec<String>, Vec<String>) {
    let mut b = BulkImport::new(kind, req);
    b.on_default_profile(Some(42)).ok().unwrap();
    let mut created = Vec::new();
    let mut tokens = Vec::new();
    loop {
        match b.next_action() {
            ImportAction::FindByName { name } => {
                let found = existing.contains(&name.as_str());
                b.on_lookup(found);
            }
            ImportAction::UpdateExisting { .. } => b.on_saved(Ok(())),
            ImportAction::Create { name, profile_id, .. } => {
                assert_eq!(profile_id, 42);
                created.push(name);
                b.on_saved(Ok(()));
            }
            ImportAction::SaveAccessToken { token } => {
                tokens.push(token);
                b.on_token_saved();
            }
            ImportAction::FindDefaultProfile => panic!("profile already known"),
            ImportAction::Finish => break,
        }
    }
    (b, created, tokens)
}

#[test]
fn import_counts_every_record() {
    let file = "name,type,token\nd1,sensor,tok1\n,sensor,\nd2,,\nd3,x,\n";
    let (b, created, tokens) = run(ImportKind::Device, request(file, true, false), &["d3"]);
    assert_eq!(b.result.created, 2);
    assert_eq!(b.result.updated, 0);
    assert_eq!(b.result.errors.len(), 2);
    assert_eq!(b.result.created + b.result.updated + b.result.errors.len(), 4);
    assert_eq!(created, vec!["d1".to_string(), "d2".to_string()]);
    assert_eq!(tokens[0], "tok1");
    assert_eq!(tokens[1].len(), 20);
    assert_eq!(b.result.errors[0].line, 3);
    assert_eq!(b.result.errors[0].message, "Name is required");
    assert_eq!(b.result.errors[1].line, 5);
    assert_eq!(b.result.errors[1].message, "Device 'd3' already exists");
}

#[test]
fn import_updates_when_allowed() {
    let (b, created, _) = run(ImportKind::Asset, request("a1,t,\na2,t,\n", false, true), &["a1"]);
    assert_eq!(b.result.updated, 1);
    assert_eq!(b.result.created, 1);
    assert_eq!(created, vec!["a2".to_string()]);
}

#[test]
fn import_needs_a_default_profile() {
    let mut b = BulkImport::new(ImportKind::Asset, request("a\n", false, false));
    match b.on_default_profile(None) {
        Err(ApiError::BadRequest(m)) => assert_eq!(m, "No default asset profile found"),
        _ => panic!(),
    }
}

#[test]
fn failed_saves_are_refusals() {
    let mut b = BulkImport::new(ImportKind::Device, request("x,t,\n", false, false));
    b.on_default_profile(Some(1)).ok().unwrap();
    assert!(matches!(b.next_action(), ImportAction::FindByName { .. }));
    b.on_lookup(false);
    assert!(matches!(b.next_action(), ImportAction::Create { .. }));
    b.on_saved(Err("disk full".into()));
    assert!(matches!(b.next_action(), ImportAction::Finish));
    assert_eq!(b.result.errors[0].message, "Failed to create: disk full");
    assert_eq!(b.result.errors[0].line, 1);
}
