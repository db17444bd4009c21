use cliproxy_admin::keys::{enable_key, new_key_record, patch_key, record_usage_and_consume, reset_usage, soft_delete_key};
use cliproxy_admin::models::{ApiKeyStatus, PatchKeyRequest, TokenUsage};
use cliproxy_admin::proxy::extract_bearer_token;
use cliproxy_admin::token_usage::extract_usage;

#[test]
fn every_status_reads_back() {
    for s in [ApiKeyStatus::Active, ApiKeyStatus::Disabled, ApiKeyStatus::Deleted] {
        assert_eq!(ApiKeyStatus::parse(s.as_str()), Some(s));
    }
}

#[test]
fn normalizing_twice_is_normalizing_once() {
    for u in [
        TokenUsage { input_tokens: 1, output_tokens: 2, reasoning_tokens: 3, cached_tokens: 4, total_tokens: 0 },
        TokenUsage { input_tokens: -9, output_tokens: 2, reasoning_tokens: 3, cached_tokens: 1, total_tokens: -1 },
        TokenUsage { input_tokens: i64::MAX, output_tokens: 1, reasoning_tokens: 0, cached_tokens: 0, total_tokens: 0 },
    ] {
        let once = u.normalize();
        let (a, b, c, d, t) = (once.input_tokens, once.output_tokens, once.reasoning_tokens, once.cached_tokens, once.total_tokens);
        let twice = once.normalize();
        assert_eq!((twice.input_tokens, twice.output_tokens, twice.reasoning_tokens, twice.cached_tokens, twice.total_tokens), (a, b, c, d, t));
        assert!(t >= 0);
    }
}

#[test]
fn reset_makes_exhausted_key_enableable() {
    let k = new_key_record("k".into(), "n".into(), "cpa_k".into(), 3, None, 0).ok().unwrap();
    let (k, _) = record_usage_and_consume(Some(k), "k", TokenUsage::with_total(5), "/", None, 200, None, 1).ok().unwrap();
    assert_eq!(k.status, "disabled");
    let k = reset_usage(Some(k), 2).ok().unwrap();
    let k = enable_key(Some(k), 3).ok().unwrap();
    assert_eq!(k.status, "active");
    assert!(k.consumed_tokens < k.token_limit);
}

#[test]
fn active_keys_keep_tokens_left() {
    let mut k = new_key_record("k".into(), "n".into(), "cpa_k".into(), 10, None, 0).ok().unwrap();
    for n in [3, 3, 3, 3] {
        let (next, _) = record_usage_and_consume(Some(k), "k", TokenUsage::with_total(n), "/", None, 200, None, 1).ok().unwrap();
        if next.status == "active" {
            assert!(next.consumed_tokens < next.token_limit);
        }
        k = next;
    }
    assert_eq!(k.status, "disabled");
    assert_eq!(k.consumed_tokens, 12);
}

#[test]
fn lowering_the_limit_of_an_active_key_keeps_it_active() {
    let k = new_key_record("k".into(), "n".into(), "cpa_k".into(), 10, None, 0).ok().unwrap();
    let (k, _) = record_usage_and_consume(Some(k), "k", TokenUsage::with_total(6), "/", None, 200, None, 1).ok().unwrap();
    let k = patch_key(k, PatchKeyRequest { name: None, token_limit: Some(5), notes: None, status: None }, 2).ok().unwrap();
    assert_eq!(k.status, "active");
    assert!(k.consumed_tokens >= k.token_limit);
}

#[test]
fn deleted_keys_are_final() {
    let k = new_key_record("k".into(), "n".into(), "cpa_k".into(), 10, None, 0).ok().unwrap();
    let k = soft_delete_key(Some(k), 1).ok().unwrap();
    let (k, _) = record_usage_and_consume(Some(k), "k", TokenUsage::with_total(4), "/", None, 200, None, 2).ok().unwrap();
    assert_eq!(k.consumed_tokens, 0);
    assert_eq!(k.status, "deleted");
    assert!(patch_key(k, PatchKeyRequest { name: Some("x".into()), token_limit: None, notes: None, status: None }, 3).is_err());
}

#[test]
fn extracted_totals_are_not_negative() {
    for body in [&br#"{"usage":{"total_tokens":-5}}"#[..], b"data: {\"usage\":{\"input_tokens\":-2}}\n", b"{}"] {
        assert!(extract_usage(body, Some("text/event-stream")).total_tokens >= 0);
        assert!(extract_usage(body, None).total_tokens >= 0);
    }
}

#[test]
fn bearer_tokens_read_back() {
    for t in ["a", "cpa_123", "x y"] {
        let header = format!("Bearer {t}");
        assert_eq!(extract_bearer_token(Some(&header)), Some(t));
    }
}
