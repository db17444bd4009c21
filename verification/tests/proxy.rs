use cliproxy_admin::error::ErrorKind;
use cliproxy_admin::keys::new_key_record;
use cliproxy_admin::proxy::{
    admit_key, build_upstream_url, call_model, client_key, extract_bearer_token, request_id,
    should_forward_body,
    should_skip_request_header, should_skip_response_header, KeyAdmission,
};

#[test]
fn bearer_token_is_read() {
    assert_eq!(extract_bearer_token(Some("Bearer cpa_abc")), Some("cpa_abc"));
    assert_eq!(extract_bearer_token(Some("bearer   cpa_abc  ")), Some("cpa_abc"));
    assert_eq!(extract_bearer_token(Some("Basic cpa_abc")), None);
    assert_eq!(extract_bearer_token(Some("Bearer    ")), None);
    assert_eq!(extract_bearer_token(Some("Bearer")), None);
    assert_eq!(extract_bearer_token(None), None);
    assert_eq!(extract_bearer_token(Some("Bearer a b")), Some("a b"));
}

#[test]
fn missing_token_is_unauthorized() {
    let e = client_key(Some("Token x")).err().unwrap();
    assert_eq!(e.kind, ErrorKind::Unauthorized);
    assert_eq!(e.message, "missing Authorization Bearer <api_key>");
    assert_eq!(client_key(Some("Bearer t")).ok(), Some("t"));
}

#[test]
fn headers_that_stay_behind() {
    for h in ["Host", "content-length", "AUTHORIZATION", "Connection", "proxy-connection", "Upgrade", "keep-alive", "Transfer-Encoding"] {
        assert!(should_skip_request_header(h), "{h}");
    }
    assert!(!should_skip_request_header("content-type"));
    assert!(should_skip_response_header("Content-Length"));
    assert!(should_skip_response_header("connection"));
    assert!(should_skip_response_header("transfer-encoding"));
    assert!(!should_skip_response_header("host"));
}

#[test]
fn upstream_url() {
    assert_eq!(build_upstream_url("http://h:1", "/v1/models", None), "http://h:1/v1/models");
    assert_eq!(build_upstream_url("http://h:1", "/v1/x", Some("a=1")), "http://h:1/v1/x?a=1");
}

#[test]
fn admission_of_keys() {
    assert!(matches!(admit_key(None), KeyAdmission::Denied(e) if e.kind == ErrorKind::Unauthorized));
    let mut k = new_key_record("k".into(), "n".into(), "cpa_x".into(), 10, None, 0).ok().unwrap();
    assert!(matches!(admit_key(Some(&k)), KeyAdmission::Granted));
    k.consumed_tokens = 10;
    match admit_key(Some(&k)) {
        KeyAdmission::DisableAndDeny(e) => {
            assert_eq!(e.kind, ErrorKind::Forbidden);
            assert_eq!(e.message, "api key quota exhausted and has been disabled");
        }
        _ => panic!("expected a quota refusal"),
    }
    k.status = "disabled".into();
    match admit_key(Some(&k)) {
        KeyAdmission::Denied(e) => assert_eq!(e.message, "api key is disabled"),
        _ => panic!("expected a refusal"),
    }
}

#[test]
fn request_ids() {
    assert_eq!(request_id(Some("rid-7")), "rid-7");
    let fresh = request_id(None);
    assert_eq!(fresh.len(), 26);
    assert!(fresh.chars().all(|c| c.is_ascii_digit() || c.is_ascii_lowercase()));
}

#[test]
fn model_of_a_call() {
    assert_eq!(call_model(br#"{"model":"req"}"#, br#"{"model":"resp"}"#, None), Some("req".to_string()));
    assert_eq!(call_model(b"", br#"{"model":"resp"}"#, None), Some("resp".to_string()));
    assert_eq!(call_model(b"", b"", None), None);
}

#[test]
fn body_goes_upstream_unless_get_head_or_empty() {
    assert!(should_forward_body("POST", 3));
    assert!(should_forward_body("PUT", 1));
    assert!(!should_forward_body("POST", 0));
    assert!(!should_forward_body("GET", 3));
    assert!(!should_forward_body("HEAD", 3));
}
