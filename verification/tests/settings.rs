use cliproxy_admin::admin::{create_request_from_form, created_redirect, patch_from_update_form, validate_create_request};
use cliproxy_admin::config::{trim_trailing_slashes, AppConfig};
use cliproxy_admin::db::sqlite_file_path;
use cliproxy_admin::error::ErrorKind;
use cliproxy_admin::keygen::{api_key_from_suffix, key_id_from_ulid, new_api_key, new_key_id};
use cliproxy_admin::listing::{page_offset, search_pattern, status_clause, usage_event_limit};
use cliproxy_admin::models::{ApiKeyStatus, CreateKeyForm, CreateKeyRequest, ListFilter, UpdateKeyForm};

#[test]
fn config_defaults_and_checks() {
    let c = AppConfig::from_settings(None, None, None, Some("  secret ".into())).ok().unwrap();
    assert_eq!(c.bind_addr, "127.0.0.1:8318");
    assert_eq!(c.database_url, "sqlite://./data/admin.db");
    assert_eq!(c.upstream_base_url, "http://localhost:8317");
    assert_eq!(c.upstream_bearer_key, "secret");
    let c = AppConfig::from_settings(Some("0.0.0.0:1".into()), Some("sqlite::memory:".into()), Some("http://u///".into()), Some("k".into()))
        .ok()
        .unwrap();
    assert_eq!(c.upstream_base_url, "http://u");
    assert_eq!(c.bind_addr, "0.0.0.0:1");
    let e = AppConfig::from_settings(None, None, None, None).err().unwrap();
    assert_eq!(e.kind, ErrorKind::Config);
    assert_eq!(e.message, "missing env UPSTREAM_BEARER_KEY. set it in .env or process environment");
    let e = AppConfig::from_settings(None, None, None, Some("   ".into())).err().unwrap();
    assert_eq!(e.message, "UPSTREAM_BEARER_KEY cannot be empty");
    assert_eq!(trim_trailing_slashes("///"), "");
}

#[test]
fn sqlite_paths() {
    assert_eq!(sqlite_file_path("sqlite://./data/admin.db").as_deref(), Some("./data/admin.db"));
    assert_eq!(sqlite_file_path("  sqlite:data.db?mode=rwc#x ").as_deref(), Some("data.db"));
    assert_eq!(sqlite_file_path("sqlite:///C:/db/a.db").as_deref(), Some("C:/db/a.db"));
    assert_eq!(sqlite_file_path("sqlite:///var/a.db").as_deref(), Some("/var/a.db"));
    assert_eq!(sqlite_file_path("sqlite::memory:"), None);
    assert_eq!(sqlite_file_path("sqlite://:memory:"), None);
    assert_eq!(sqlite_file_path("postgres://x"), None);
    assert_eq!(sqlite_file_path("sqlite://?mode=memory"), None);
    assert_eq!(sqlite_file_path("sqlite:///é:x").as_deref(), Some("/é:x"));
}

#[test]
fn key_ids_and_api_keys() {
    assert_eq!(key_id_from_ulid("01ARZ3NDEKTSV4RRFFQ69G5FAV"), "01arz3ndektsv4rrffq69g5fav");
    let id = new_key_id();
    assert_eq!(id.len(), 26);
    assert_eq!(id, id.to_lowercase());
    assert_eq!(api_key_from_suffix(&['A', 'b', '9']), "cpa_ab9");
    let k = new_api_key();
    assert_eq!(k.len(), 32);
    assert!(k.starts_with("cpa_"));
    assert!(k[4..].chars().all(|c| c.is_ascii_digit() || c.is_ascii_lowercase()));
    assert_ne!(new_api_key(), new_api_key());
}

#[test]
fn listing_parameters() {
    let f = ListFilter { status: Some(ApiKeyStatus::Active), search: Some("  demo ".into()), page: 3, page_size: 20 };
    assert_eq!(page_offset(&f), 40);
    assert_eq!(status_clause(&f), Some("active"));
    assert_eq!(search_pattern(&f).as_deref(), Some("%demo%"));
    let f = ListFilter { status: None, search: Some("  ".into()), page: 1, page_size: 200 };
    assert_eq!(page_offset(&f), 0);
    assert_eq!(status_clause(&f), None);
    assert_eq!(search_pattern(&f), None);
    assert_eq!(usage_event_limit(None), 100);
    assert_eq!(usage_event_limit(Some(0)), 1);
    assert_eq!(usage_event_limit(Some(9999)), 500);
    assert_eq!(usage_event_limit(Some(42)), 42);
}

#[test]
fn admin_requests() {
    let ok = validate_create_request(&CreateKeyRequest { name: " team ".into(), token_limit: 5, notes: None }).ok().unwrap();
    assert_eq!(ok, "team");
    let e = validate_create_request(&CreateKeyRequest { name: "  ".into(), token_limit: 5, notes: None }).err().unwrap();
    assert_eq!(e.message, "name cannot be empty");
    let e = validate_create_request(&CreateKeyRequest { name: "x".into(), token_limit: 0, notes: None }).err().unwrap();
    assert_eq!(e.message, "token_limit must be > 0");
    assert!(create_request_from_form(CreateKeyForm { name: " ".into(), token_limit: 5, notes: None }).is_none());
    assert!(create_request_from_form(CreateKeyForm { name: "a".into(), token_limit: -5, notes: None }).is_none());
    let r = create_request_from_form(CreateKeyForm { name: " a ".into(), token_limit: 5, notes: Some("n".into()) }).unwrap();
    assert_eq!(r.name, "a");
    let p = patch_from_update_form(UpdateKeyForm { name: "b".into(), token_limit: 9, notes: None });
    assert_eq!(p.notes.as_deref(), Some(""));
    assert_eq!(p.token_limit, Some(9));
    assert!(p.status.is_none());
    assert_eq!(created_redirect("cpa_1"), "/admin?msg=created&new_key=cpa_1");
}
