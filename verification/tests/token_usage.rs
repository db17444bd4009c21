use cliproxy_admin::json::{parse_json_bytes, parse_json_text, JsonValue};
use cliproxy_admin::models::TokenUsage;
use cliproxy_admin::token_usage::{
    extract_model_from_request, extract_model_from_response, extract_usage, extract_usage_from_sse,
    first_i64, usage_from_json,
};

#[test]
fn parse_openai_usage_json() {
    let body = br#"{
      "id":"chatcmpl-1",
      "model":"gpt-4.1",
      "usage":{"prompt_tokens":11,"completion_tokens":7,"total_tokens":18}
    }"#;
    let usage = extract_usage(body, Some("application/json"));
    assert_eq!(usage.input_tokens, 11);
    assert_eq!(usage.output_tokens, 7);
    assert_eq!(usage.total_tokens, 18);
}

#[test]
fn parse_responses_usage_json() {
    let body = br#"{
      "response":{
        "usage":{
          "input_tokens":10,
          "output_tokens":4,
          "output_tokens_details":{"reasoning_tokens":2},
          "input_tokens_details":{"cached_tokens":1},
          "total_tokens":14
        }
      }
    }"#;
    let usage = extract_usage(body, Some("application/json"));
    assert_eq!(usage.input_tokens, 10);
    assert_eq!(usage.output_tokens, 4);
    assert_eq!(usage.reasoning_tokens, 2);
    assert_eq!(usage.cached_tokens, 1);
    assert_eq!(usage.total_tokens, 14);
}

#[test]
fn parse_sse_usage() {
    let body = b"data: {\"id\":\"x\"}\n\ndata: {\"usage\":{\"prompt_tokens\":2,\"completion_tokens\":3,\"total_tokens\":5},\"model\":\"m1\"}\n\ndata: [DONE]\n";
    let usage = extract_usage(body, Some("text/event-stream"));
    assert_eq!(usage.total_tokens, 5);
    assert_eq!(
        extract_model_from_response(body, Some("text/event-stream")),
        Some("m1".to_string())
    );
}

#[test]
fn empty_body_gives_zero_usage() {
    let usage = extract_usage(b"", Some("application/json"));
    assert_eq!(usage.total_tokens, 0);
    assert_eq!(usage.input_tokens, 0);
}

#[test]
fn invalid_json_gives_zero_usage() {
    let usage = extract_usage(b"not json", None);
    assert_eq!(usage.total_tokens, 0);
}

#[test]
fn missing_total_is_summed() {
    let body = br#"{"usage":{"prompt_tokens":3,"completion_tokens":4,"completion_tokens_details":{"reasoning_tokens":5}}}"#;
    let usage = extract_usage(body, None);
    assert_eq!(usage.reasoning_tokens, 5);
    assert_eq!(usage.total_tokens, 12);
}

#[test]
fn cached_tokens_count_when_nothing_else_does() {
    let body = br#"{"usage":{"prompt_tokens_details":{"cached_tokens":6}}}"#;
    let usage = extract_usage(body, None);
    assert_eq!(usage.cached_tokens, 6);
    assert_eq!(usage.total_tokens, 6);
}

#[test]
fn negative_totals_become_zero() {
    let body = br#"{"usage":{"prompt_tokens":-3,"total_tokens":-1}}"#;
    let usage = extract_usage(body, None);
    assert_eq!(usage.total_tokens, 0);
}

#[test]
fn content_type_is_matched_without_case() {
    let body = b"data: {\"usage\":{\"total_tokens\":9}}\n";
    let usage = extract_usage(body, Some("Text/Event-Stream; charset=utf-8"));
    assert_eq!(usage.total_tokens, 9);
}

#[test]
fn sse_keeps_last_positive_usage() {
    let body = b"data: {\"usage\":{\"total_tokens\":3}}\r\ndata: {\"usage\":{\"total_tokens\":7}}\r\n  data:data: {\"usage\":{\"total_tokens\":0}}\nevent: x\n";
    let usage = extract_usage_from_sse(body);
    assert_eq!(usage.total_tokens, 7);
}

#[test]
fn sse_repeated_data_prefix_is_stripped() {
    let body = b"data:data: {\"usage\":{\"total_tokens\":4},\"model\":\"m2\"}";
    assert_eq!(extract_usage_from_sse(body).total_tokens, 4);
    assert_eq!(extract_model_from_response(body, Some("text/event-stream")), Some("m2".to_string()));
}

#[test]
fn sse_not_utf8_gives_zero_usage() {
    let body: &[u8] = &[0xff, 0xfe, b'\n'];
    assert_eq!(extract_usage_from_sse(body).total_tokens, 0);
    assert_eq!(extract_model_from_response(body, Some("text/event-stream")), None);
}

#[test]
fn request_model_is_read() {
    assert_eq!(
        extract_model_from_request(br#"{"model":"gpt-4o","messages":[]}"#),
        Some("gpt-4o".to_string())
    );
    assert_eq!(extract_model_from_request(br#"{"model":5}"#), None);
    assert_eq!(extract_model_from_request(b""), None);
}

#[test]
fn response_model_falls_back_to_nested() {
    assert_eq!(
        extract_model_from_response(br#"{"response":{"model":"o3"}}"#, None),
        Some("o3".to_string())
    );
    assert_eq!(
        extract_model_from_response(br#"{"model":"a","response":{"model":"b"}}"#, None),
        Some("a".to_string())
    );
}

#[test]
fn parsed_json_has_members() {
    let doc = parse_json_bytes(br#"{"a":{"b":7},"c":"x","big":18446744073709551615,"f":1.5}"#).unwrap();
    let b = doc.get("a").and_then(|a| a.get("b")).and_then(|b| b.as_i64());
    assert_eq!(b, Some(7));
    assert_eq!(doc.get("c").and_then(|c| c.as_str()), Some("x"));
    assert_eq!(doc.get("big").and_then(|v| v.as_i64()), None);
    assert_eq!(doc.get("f").and_then(|v| v.as_i64()), None);
    assert!(doc.get("zzz").is_none());
    assert!(parse_json_text("{").is_none());
    assert!(parse_json_text("[1,2]").is_some());
}

#[test]
fn first_i64_skips_non_integers() {
    let s = JsonValue::Str("1".to_string());
    let n = JsonValue::Number(Some(4));
    assert_eq!(first_i64(Some(&s), Some(&n), None, None), 4);
    assert_eq!(first_i64(None, None, None, None), 0);
}

#[test]
fn usage_prefers_top_level_usage() {
    let doc = parse_json_bytes(br#"{"usage":{"input_tokens":1},"response":{"usage":{"input_tokens":2}}}"#).unwrap();
    let u = usage_from_json(&doc);
    assert_eq!(u.input_tokens, 1);
    assert_eq!(u.total_tokens, 0);
}

#[test]
fn normalize_fills_total() {
    let u = TokenUsage { input_tokens: 2, output_tokens: 3, reasoning_tokens: 1, cached_tokens: 9, total_tokens: 0 };
    assert_eq!(u.normalize().total_tokens, 6);
    let u = TokenUsage { input_tokens: 0, output_tokens: 0, reasoning_tokens: 0, cached_tokens: 9, total_tokens: -4 };
    assert_eq!(u.normalize().total_tokens, 9);
    let u = TokenUsage::with_total(11);
    assert_eq!(u.normalize().total_tokens, 11);
    let twice = TokenUsage { input_tokens: 5, output_tokens: 0, reasoning_tokens: 0, cached_tokens: 0, total_tokens: 0 }
        .normalize()
        .normalize();
    assert_eq!(twice.total_tokens, 5);
}
