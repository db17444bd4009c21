use cliproxy_admin::models::ApiKeyRecord;
use cliproxy_admin::public_query::{compute_remaining_tokens, key_check_outcome, key_to_check, normalize_api_key};

#[test]
fn normalize_api_key_trims_spaces() {
    let key = normalize_api_key("  sk-demo-key  ");
    assert_eq!(key, "sk-demo-key");
}

#[test]
fn compute_remaining_tokens_clamps_to_zero() {
    assert_eq!(compute_remaining_tokens(100, 40), 60);
    assert_eq!(compute_remaining_tokens(100, 100), 0);
    assert_eq!(compute_remaining_tokens(100, 130), 0);
}

fn record(status: &str, limit: i64, consumed: i64) -> ApiKeyRecord {
    ApiKeyRecord {
        id: "k".to_string(),
        name: "n".to_string(),
        api_key: "cpa_x".to_string(),
        token_limit: limit,
        consumed_tokens: consumed,
        status: status.to_string(),
        disabled_reason: None,
        notes: None,
        created_at: 0,
        updated_at: 0,
        disabled_at: None,
        deleted_at: None,
    }
}

#[test]
fn check_of_empty_key_is_refused() {
    assert_eq!(key_to_check(" \t ").unwrap_err(), "请输入有效的 API Key");
    assert_eq!(key_to_check(" cpa_a ").unwrap(), "cpa_a");
}

#[test]
fn check_outcomes() {
    let b = key_check_outcome(Ok(Some(record("active", 50, 20)))).ok().unwrap();
    assert_eq!(b.status, "active");
    assert_eq!(b.remaining_tokens, 30);
    assert_eq!(key_check_outcome(Ok(None)).err().unwrap(), "未找到该 Key");
    assert_eq!(key_check_outcome(Err(())).err().unwrap(), "查询失败，请稍后重试");
}

#[test]
fn whitespace_of_any_kind_is_trimmed() {
    assert_eq!(normalize_api_key("\u{3000}\u{a0}key\u{2029}\r\n"), "key");
}
