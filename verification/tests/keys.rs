use cliproxy_admin::error::ErrorKind;
use cliproxy_admin::keys::{
    disable_key_manual, disable_key_quota, enable_key, new_key_record, patch_key,
    record_usage_and_consume, reset_usage, soft_delete_key,
};
use cliproxy_admin::models::{ApiKeyRecord, PatchKeyRequest, TokenUsage};

fn key(limit: i64) -> ApiKeyRecord {
    new_key_record(
        "k1".to_string(),
        "demo".to_string(),
        "cpa_demo".to_string(),
        limit,
        Some("notes".to_string()),
        100,
    )
    .ok()
    .unwrap()
}

fn patch() -> PatchKeyRequest {
    PatchKeyRequest { name: None, token_limit: None, notes: None, status: None }
}

#[test]
fn key_quota_flow() {
    let key = key(10);
    assert_eq!(key.status, "active");
    let (updated, event) = record_usage_and_consume(
        Some(key),
        "k1",
        TokenUsage { total_tokens: 10, ..TokenUsage::default() },
        "/v1/models",
        Some("gpt-4.1"),
        200,
        Some("rid-1"),
        200,
    )
    .ok()
    .unwrap();
    assert_eq!(updated.consumed_tokens, 10);
    assert_eq!(updated.status, "disabled");
    assert_eq!(updated.disabled_reason.as_deref(), Some("quota_exceeded"));
    assert_eq!(event.total_tokens, 10);
    assert_eq!(event.model.as_deref(), Some("gpt-4.1"));
    assert_eq!(event.request_id.as_deref(), Some("rid-1"));
}

#[test]
fn new_key_needs_positive_limit() {
    let e = new_key_record("a".into(), "b".into(), "c".into(), 0, None, 1).err().unwrap();
    assert_eq!(e.kind, ErrorKind::BadRequest);
    assert_eq!(e.message, "token_limit must be > 0");
    let k = key(5);
    assert_eq!(k.consumed_tokens, 0);
    assert_eq!(k.created_at, 100);
    assert_eq!(k.updated_at, 100);
}

#[test]
fn usage_of_inactive_key_is_not_counted() {
    let k = disable_key_manual(Some(key(10)), 150).ok().unwrap();
    assert_eq!(k.status, "disabled");
    assert_eq!(k.disabled_reason.as_deref(), Some("manual"));
    let (k, e) = record_usage_and_consume(Some(k), "k1", TokenUsage::with_total(3), "/v1/chat/completions", None, 200, None, 160)
        .ok()
        .unwrap();
    assert_eq!(k.consumed_tokens, 0);
    assert_eq!(k.updated_at, 150);
    assert_eq!(e.total_tokens, 3);
}

#[test]
fn usage_of_missing_key_is_not_found() {
    let e = record_usage_and_consume(None, "x", TokenUsage::with_total(3), "/", None, 200, None, 1).err().unwrap();
    assert_eq!(e.kind, ErrorKind::NotFound);
}

#[test]
fn usage_past_the_counter_is_refused() {
    let mut k = key(i64::MAX);
    k.consumed_tokens = i64::MAX - 1;
    let e = record_usage_and_consume(Some(k), "k1", TokenUsage::with_total(5), "/", None, 200, None, 1).err().unwrap();
    assert_eq!(e.kind, ErrorKind::Internal);
}

#[test]
fn usage_below_limit_keeps_key_active() {
    let (k, _) = record_usage_and_consume(Some(key(10)), "k1", TokenUsage::with_total(4), "/", None, 200, None, 300)
        .ok()
        .unwrap();
    assert_eq!(k.consumed_tokens, 4);
    assert_eq!(k.status, "active");
    assert_eq!(k.updated_at, 300);
}

#[test]
fn enable_after_reset() {
    let (k, _) = record_usage_and_consume(Some(key(10)), "k1", TokenUsage::with_total(12), "/", None, 200, None, 300)
        .ok()
        .unwrap();
    assert_eq!(k.status, "disabled");
    let e = enable_key(Some(k), 310).err().unwrap();
    assert_eq!(e.message, "key has exhausted quota, reset usage first");
    let (k, _) = record_usage_and_consume(Some(key(10)), "k1", TokenUsage::with_total(12), "/", None, 200, None, 300)
        .ok()
        .unwrap();
    let k = reset_usage(Some(k), 320).ok().unwrap();
    assert_eq!(k.consumed_tokens, 0);
    let k = enable_key(Some(k), 330).ok().unwrap();
    assert_eq!(k.status, "active");
    assert_eq!(k.disabled_reason, None);
    assert_eq!(k.disabled_at, None);
}

#[test]
fn deleted_key_is_gone() {
    let k = soft_delete_key(Some(key(10)), 400).ok().unwrap();
    assert_eq!(k.status, "deleted");
    assert_eq!(k.deleted_at, Some(400));
    assert_eq!(k.disabled_at, Some(400));
    let dup = ApiKeyRecord { ..k };
    let e = soft_delete_key(Some(dup), 401).err().unwrap();
    assert_eq!(e.kind, ErrorKind::NotFound);
    assert_eq!(e.message, "key not found");
    assert_eq!(enable_key(None, 1).err().unwrap().kind, ErrorKind::NotFound);
    assert_eq!(reset_usage(None, 1).err().unwrap().kind, ErrorKind::NotFound);
    assert_eq!(disable_key_manual(None, 1).err().unwrap().kind, ErrorKind::NotFound);
}

#[test]
fn delete_keeps_earlier_disable_time() {
    let k = disable_key_manual(Some(key(10)), 150).ok().unwrap();
    let k = soft_delete_key(Some(k), 400).ok().unwrap();
    assert_eq!(k.disabled_at, Some(150));
}

#[test]
fn quota_disable_only_touches_exhausted_active_keys() {
    let k = disable_key_quota(key(10), 5);
    assert_eq!(k.status, "active");
    let mut k = key(10);
    k.consumed_tokens = 10;
    let k = disable_key_quota(k, 5);
    assert_eq!(k.status, "disabled");
    assert_eq!(k.disabled_reason.as_deref(), Some("quota_exceeded"));
    assert_eq!(k.disabled_at, Some(5));
}

#[test]
fn patch_edits_fields() {
    let p = PatchKeyRequest {
        name: Some("  renamed ".to_string()),
        token_limit: Some(50),
        notes: Some("   ".to_string()),
        status: Some(" Disabled ".to_string()),
    };
    let k = patch_key(key(10), p, 500).ok().unwrap();
    assert_eq!(k.name, "renamed");
    assert_eq!(k.token_limit, 50);
    assert_eq!(k.notes, None);
    assert_eq!(k.status, "disabled");
    assert_eq!(k.disabled_reason.as_deref(), Some("manual"));
    assert_eq!(k.disabled_at, Some(500));
    assert_eq!(k.updated_at, 500);
}

#[test]
fn patch_errors() {
    let e = patch_key(key(10), PatchKeyRequest { name: Some(" ".into()), ..patch() }, 1).err().unwrap();
    assert_eq!(e.message, "name cannot be empty");
    let e = patch_key(key(10), PatchKeyRequest { token_limit: Some(-1), ..patch() }, 1).err().unwrap();
    assert_eq!(e.message, "token_limit must be > 0");
    let e = patch_key(key(10), PatchKeyRequest { status: Some("paused".into()), ..patch() }, 1).err().unwrap();
    assert_eq!(e.message, "invalid status, expected active|disabled");
    let e = patch_key(key(10), PatchKeyRequest { status: Some("deleted".into()), ..patch() }, 1).err().unwrap();
    assert_eq!(e.message, "use delete endpoint for deleted status");
    let mut k = key(10);
    k.consumed_tokens = 8;
    let e = patch_key(k, PatchKeyRequest { token_limit: Some(8), status: Some("active".into()), ..patch() }, 1)
        .err()
        .unwrap();
    assert_eq!(e.message, "key has exhausted quota, reset usage first");
    let gone = soft_delete_key(Some(key(10)), 2).ok().unwrap();
    let e = patch_key(gone, patch(), 3).err().unwrap();
    assert_eq!(e.kind, ErrorKind::NotFound);
}

#[test]
fn patch_notes_are_trimmed() {
    let k = patch_key(key(10), PatchKeyRequest { notes: Some(" hi ".into()), ..patch() }, 7).ok().unwrap();
    assert_eq!(k.notes.as_deref(), Some("hi"));
    assert_eq!(k.name, "demo");
    assert_eq!(k.updated_at, 7);
}
