use base64::{engine::general_purpose::STANDARD, Engine as _};
use cliproxy_admin::admin_auth::{extract_basic_credentials, is_authorized, WWW_AUTH_HEADER_VALUE};

#[test]
fn parses_basic_credentials() {
    let encoded = STANDARD.encode("adminops:S7rong!Token#Keeper2026");
    let header = format!("Basic {encoded}");
    let result = extract_basic_credentials(Some(&header)).expect("should parse");
    assert_eq!(result.0, "adminops");
    assert_eq!(result.1, "S7rong!Token#Keeper2026");
}

#[test]
fn rejects_non_basic_scheme() {
    let result = extract_basic_credentials(Some("Bearer abc"));
    assert!(result.is_none());
}

#[test]
fn rejects_invalid_base64_payload() {
    let result = extract_basic_credentials(Some("Basic not_base64"));
    assert!(result.is_none());
}

#[test]
fn rejects_missing_password_separator() {
    let encoded = STANDARD.encode("adminops-no-colon");
    let header = format!("Basic {encoded}");
    let result = extract_basic_credentials(Some(&header));
    assert!(result.is_none());
}

#[test]
fn header_constant_is_valid() {
    http::HeaderValue::from_static("Basic realm=\"CLIProxyAPI Admin\", charset=\"UTF-8\"");
    http::HeaderValue::from_static(WWW_AUTH_HEADER_VALUE);
    assert_eq!(http::header::WWW_AUTHENTICATE.as_str(), "www-authenticate");
}

#[test]
fn scheme_is_matched_without_case_and_password_keeps_colons() {
    let encoded = STANDARD.encode("u:p:q");
    let header = format!("bAsIc {encoded}");
    let (u, p) = extract_basic_credentials(Some(&header)).unwrap();
    assert_eq!(u, "u");
    assert_eq!(p, "p:q");
}

#[test]
fn missing_header_or_space_is_rejected() {
    assert!(extract_basic_credentials(None).is_none());
    assert!(extract_basic_credentials(Some("Basic")).is_none());
}

#[test]
fn decoded_bytes_must_be_utf8() {
    let encoded = STANDARD.encode([0xffu8, b':', b'x']);
    assert!(extract_basic_credentials(Some(&format!("Basic {encoded}"))).is_none());
}

#[test]
fn authorization_compares_both_parts() {
    let header = format!("Basic {}", STANDARD.encode("admin:secret"));
    assert!(is_authorized(Some(&header), "admin", "secret"));
    assert!(!is_authorized(Some(&header), "admin", "other"));
    assert!(!is_authorized(None, "admin", "secret"));
}
