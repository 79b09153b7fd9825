use appcontrol_repository::auth::{
    api_key_hash, certificate_pinned, digest_hex, local_admin_external_id,
};
use appcontrol_repository::catalog::{builtin_catalog_types, total_inserted, CatalogRow};
use appcontrol_repository::commands::{command_result_status, stored_exit_code};
use appcontrol_repository::db::{DbUuid, Timestamp};
use appcontrol_repository::id_rows::{id_or_nil, keep_parsed_ids};
use appcontrol_repository::placeholders::{in_list_statement, numbered_placeholders, placeholder};
use appcontrol_repository::repositories::{PgAgentRepository, SqlitePermissionRepository};
use appcontrol_repository::rows::{state_counts_or_zero, AppStateCount};
use appcontrol_repository::text::text_eq;
use appcontrol_repository::components::{after_hostname_lookup, HostLookupStep};
use appcontrol_repository::manual_tasks::{open_pending_decision, PendingDecision};
use uuid::Uuid;

#[test]
fn placeholders_are_numbered_and_joined() {
    assert_eq!(numbered_placeholders(1, 3), "$1, $2, $3");
    assert_eq!(numbered_placeholders(4, 2), "$4, $5");
    assert_eq!(numbered_placeholders(9, 3), "$9, $10, $11");
    assert_eq!(numbered_placeholders(1, 0), "");
    assert_eq!(placeholder(12), "$12");
    assert_eq!(placeholder(0), "$0");
}

#[test]
fn in_list_statement_wraps_placeholders() {
    assert_eq!(
        in_list_statement("SELECT id FROM t WHERE id IN (", 1, 2, ") AND org = $3"),
        "SELECT id FROM t WHERE id IN ($1, $2) AND org = $3"
    );
}

#[test]
fn builtin_catalog_has_eight_types_in_order() {
    let types = builtin_catalog_types();
    assert_eq!(types.len(), 8);
    let keys: Vec<&str> = types.iter().map(|t| t.type_key).collect();
    assert_eq!(
        keys,
        vec!["database", "middleware", "appserver", "webfront", "service", "batch", "custom", "application"]
    );
    assert_eq!(types[0].label, "Database");
    assert_eq!(types[0].description, "SQL, NoSQL, or data stores");
    assert_eq!(types[0].icon, "database");
    assert_eq!(types[0].color, "#1565C0");
    assert_eq!(types[0].category, "database");
    assert_eq!(types[7].description, "Reference to another app (synthetic)");
    assert_eq!(types[7].color, "#3B82F6");
    for (i, t) in types.iter().enumerate() {
        assert_eq!(t.display_order, i as i32);
    }
}

#[test]
fn seeding_counts_inserted_rows() {
    assert_eq!(total_inserted(&vec![1, 0, 1, 1, 0, 0, 1, 1]), 5);
    assert_eq!(total_inserted(&vec![]), 0);
}

#[test]
fn catalog_row_becomes_entry() {
    let id = Uuid::new_v4();
    let org = Uuid::new_v4();
    let row = CatalogRow {
        id: DbUuid(id),
        org_id: DbUuid(org),
        type_key: "custom".to_string(),
        label: "Custom".to_string(),
        description: None,
        icon: "box".to_string(),
        color: "#455A64".to_string(),
        category: Some("other".to_string()),
        default_check_cmd: Some("true".to_string()),
        default_start_cmd: None,
        default_stop_cmd: None,
        default_env_vars: None,
        display_order: 6,
        is_builtin: true,
        created_at: Timestamp { secs: 1, nanos: 2 },
        updated_at: Timestamp { secs: 3, nanos: 4 },
    };
    let e = row.into_entry();
    assert_eq!(e.id, id);
    assert_eq!(e.org_id, org);
    assert_eq!(e.type_key, "custom");
    assert_eq!(e.category.as_deref(), Some("other"));
    assert_eq!(e.default_check_cmd.as_deref(), Some("true"));
    assert_eq!(e.display_order, 6);
    assert!(e.is_builtin);
    assert_eq!(e.updated_at, Timestamp { secs: 3, nanos: 4 });
}

#[test]
fn api_key_hash_is_hex_sha256() {
    assert_eq!(
        api_key_hash("abc"),
        "ba7816bf8f01cfea414140de5dae2223b00361a396177a9cb410ff61f20015ad"
    );
    assert_eq!(
        api_key_hash(""),
        "e3b0c44298fc1c149afbf4c8996fb92427ae41e4649b934ca495991b7852b855"
    );
    assert_eq!(api_key_hash("ac_live_key").len(), 64);
}

#[test]
fn digest_hex_is_lowercase_two_digits_per_byte() {
    assert_eq!(digest_hex(&vec![0x00, 0x0f, 0xa0, 0xff]), "000fa0ff");
    assert_eq!(digest_hex(&vec![]), "");
}

#[test]
fn local_admin_id_prefixes_slug() {
    assert_eq!(local_admin_external_id("acme"), "local-admin-acme");
}

#[test]
fn pinning_requires_stored_matching_fingerprint() {
    assert!(certificate_pinned(&Some(Some("AB:CD".to_string())), "AB:CD"));
    assert!(!certificate_pinned(&Some(Some("AB:CD".to_string())), "AB:CE"));
    assert!(!certificate_pinned(&Some(None), "AB:CD"));
    assert!(!certificate_pinned(&None, "AB:CD"));
    assert!(!certificate_pinned(&Some(Some(String::new())), "x"));
}

#[test]
fn command_status_and_exit_code() {
    assert_eq!(command_result_status(0), "completed");
    assert_eq!(command_result_status(1), "failed");
    assert_eq!(command_result_status(-1), "failed");
    assert_eq!(stored_exit_code(3), 3);
    assert_eq!(stored_exit_code(-2), -2);
    assert_eq!(stored_exit_code(70000), 70000i32 as i16);
}

#[test]
fn parsed_ids_keep_order_and_drop_bad_rows() {
    let a = Uuid::new_v4();
    let b = Uuid::new_v4();
    let rows = vec![
        (a.to_string(), "RUNNING".to_string()),
        ("not-a-uuid".to_string(), "FAILED".to_string()),
        (b.to_string(), "STOPPED".to_string()),
    ];
    let r = keep_parsed_ids(rows);
    assert_eq!(r, vec![(a, "RUNNING".to_string()), (b, "STOPPED".to_string())]);
}

#[test]
fn text_equality_is_exact() {
    assert!(text_eq("RUNNING", "RUNNING"));
    assert!(!text_eq("RUNNING", "RUNNIN"));
    assert!(!text_eq("é", "e"));
    assert!(text_eq("", ""));
}

#[test]
fn repositories_hold_their_pool() {
    let r = PgAgentRepository::new(7u32);
    assert_eq!(*r.pool(), 7);
    let s = SqlitePermissionRepository::new("pool".to_string());
    assert_eq!(s.pool(), "pool");
}

#[test]
fn missing_counts_are_zero() {
    let zero = AppStateCount { total: 0, running: 0, degraded: 0, failed: 0 };
    assert_eq!(state_counts_or_zero(None), zero);
    let c = AppStateCount { total: 5, running: 3, degraded: 1, failed: 1 };
    assert_eq!(state_counts_or_zero(Some(c)), c);
}

#[test]
fn pending_row_is_reused_or_created() {
    let existing = Uuid::new_v4();
    let fresh = Uuid::new_v4();
    let d = open_pending_decision(Some(existing), fresh);
    assert!(matches!(d, PendingDecision::Reuse(id) if id == existing));
    assert_eq!(d.pending_id(), existing);
    let d = open_pending_decision(None, fresh);
    assert!(matches!(d, PendingDecision::Create(id) if id == fresh));
    assert_eq!(d.pending_id(), fresh);
}

#[test]
fn host_lookup_falls_back_to_ip_addresses() {
    let id = Uuid::new_v4();
    assert!(matches!(after_hostname_lookup(Some(id)), HostLookupStep::Resolved(x) if x == id));
    assert!(matches!(after_hostname_lookup(None), HostLookupStep::ByIpAddress));
}

#[test]
fn uuid_text_forms_read_as_their_bits() {
    let bits: u128 = 0x550e8400e29b41d4a716446655440000;
    let want = Uuid::from_u128(bits);
    assert_eq!(id_or_nil("550e8400e29b41d4a716446655440000"), want);
    assert_eq!(id_or_nil("550e8400-e29b-41d4-a716-446655440000"), want);
    assert_eq!(id_or_nil("550E8400-E29B-41D4-A716-446655440000"), want);
    assert_eq!(id_or_nil("{550e8400-e29b-41d4-a716-446655440000}"), want);
    assert_eq!(id_or_nil("URN:uuid:550e8400-e29b-41d4-a716-446655440000"), want);
    assert_eq!(id_or_nil("550e8400-e29b-41d4-a716-44665544000g"), Uuid::nil());
    assert_eq!(id_or_nil("550e8400:e29b-41d4-a716-446655440000"), Uuid::nil());
}
