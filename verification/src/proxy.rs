//! Decisions of the forwarding proxy: which credentials a request presents, whether its key
//! may be used, which headers pass, where the request goes and how the call is recorded.

use vstd::prelude::*;
use crate::error::{AppError, ErrorKind};
use crate::models::ApiKeyRecord;
use crate::keys::{exhausted, fails_with};
use crate::keygen::{is_ascii_alnum, new_key_id};
use crate::text::lower_char;
use crate::token_usage::{
    extract_model_from_request, extract_model_from_response, opt_chars, opt_str_chars, request_model,
    response_body_model,
};
use crate::text::{
    chars_eq_ignore_ascii_case, chars_of, eq_ignore_case, find_char_in, lower, split_once, str_eq,
    to_ascii_lowercase, trim, trim_bounds,
};

verus! {

/// The token of an `Authorization: Bearer <token>` value: the trimmed text after the first
/// space, where the scheme before it is `bearer` in any ASCII case and the token is not empty.
pub open spec fn bearer_token(h: Seq<char>) -> Option<Seq<char>> {
    match split_once(h, ' ') {
        Some((scheme, rest)) => if eq_ignore_case(scheme, "bearer"@) && trim(rest).len() > 0 {
            Some(trim(rest))
        } else {
            None
        },
        None => None,
    }
}

/// The bearer token of an `Authorization` header value (see `bearer_token`).
pub fn extract_bearer_token(raw: Option<&str>) -> (r: Option<&str>)
    ensures
        r is Some == (raw is Some && bearer_token(raw->0@) is Some),
        r matches Some(t) ==> t@ == bearer_token(raw->0@)->0,
{
    let raw = match raw {
        Some(h) => h,
        None => return None,
    };
    let v = chars_of(raw);
    assert(v@.subrange(0, v@.len() as int) == v@);
    let sp = match find_char_in(v.as_slice(), 0, v.len(), ' ') {
        Some(i) => i,
        None => return None,
    };
    assert(v@.take(sp as int) == v@.subrange(0, sp as int));
    assert(v@.skip(sp + 1) == v@.subrange(sp + 1, v@.len() as int));
    assert(split_once(raw@, ' ') == Some((v@.take(sp as int), v@.skip(sp + 1))));
    let (a, b) = trim_bounds(v.as_slice(), sp + 1, v.len());
    assert(trim(v@.skip(sp + 1)) == v@.subrange(a as int, b as int));
    if !chars_eq_ignore_ascii_case(v.as_slice(), 0, sp, "bearer") || a == b {
        return None;
    }
    Some(raw.substring_char(a, b))
}

/// Whether a request header stays behind when a request is forwarded: the hop-by-hop
/// headers, the length, the host and the client's own credentials.
pub open spec fn skipped_request_header(name: Seq<char>) -> bool {
    let l = lower(name);
    ||| l == "host"@
    ||| l == "content-length"@
    ||| l == "authorization"@
    ||| l == "connection"@
    ||| l == "proxy-connection"@
    ||| l == "upgrade"@
    ||| l == "keep-alive"@
    ||| l == "transfer-encoding"@
}

/// Whether a response header stays behind when a response is passed back.
pub open spec fn skipped_response_header(name: Seq<char>) -> bool {
    let l = lower(name);
    ||| l == "content-length"@
    ||| l == "connection"@
    ||| l == "transfer-encoding"@
}

pub fn should_skip_request_header(name: &str) -> (r: bool)
    ensures
        r == skipped_request_header(name@),
{
    let l = to_ascii_lowercase(name);
    let l = l.as_str();
    str_eq(l, "host") || str_eq(l, "content-length") || str_eq(l, "authorization") || str_eq(
        l,
        "connection",
    ) || str_eq(l, "proxy-connection") || str_eq(l, "upgrade") || str_eq(l, "keep-alive")
        || str_eq(l, "transfer-encoding")
}

pub fn should_skip_response_header(name: &str) -> (r: bool)
    ensures
        r == skipped_response_header(name@),
        r ==> lower(name@) == "content-length"@ || lower(name@) == "connection"@ || lower(name@)
            == "transfer-encoding"@,
        lower(name@) == "content-type"@ ==> !r,
{
    proof {
        crate::laws::only_framing_response_headers_dropped(name@);
    }
    let l = to_ascii_lowercase(name);
    let l = l.as_str();
    str_eq(l, "content-length") || str_eq(l, "connection") || str_eq(l, "transfer-encoding")
}

/// The upstream address of a request: the base address, the request path, and the query
/// after a `?` where the request has one.
pub fn build_upstream_url(base_url: &str, path: &str, query: Option<&str>) -> (r: String)
    ensures
        r@ == (match query {
            Some(q) => base_url@ + path@ + "?"@ + q@,
            None => base_url@ + path@,
        }),
{
    let mut url = String::from_str(base_url);
    url.append(path);
    if let Some(q) = query {
        url.append("?");
        url.append(q);
    }
    url
}

/// Whether a request's body goes upstream: a non-empty body of any method but `GET` and
/// `HEAD` (method names as HTTP writes them, in upper case).
pub fn should_forward_body(method: &str, body_len: usize) -> (r: bool)
    ensures
        r == (method@ != "GET"@ && method@ != "HEAD"@ && body_len > 0),
{
    !str_eq(method, "GET") && !str_eq(method, "HEAD") && body_len > 0
}

/// Whether a proxied call may go ahead with a key.
pub enum KeyAdmission {
    /// The key is active and has tokens left.
    Granted,
    /// The call is refused with this error.
    Denied(AppError),
    /// The key has no tokens left: it is to be disabled for its quota, and the call refused
    /// with this error.
    DisableAndDeny(AppError),
}

/// Decides on a call whose bearer token found `record` (`None`: no key has that token).
pub fn admit_key(record: Option<&ApiKeyRecord>) -> (r: KeyAdmission)
    ensures
        record is None <==> (r matches KeyAdmission::Denied(e) && e.is(ErrorKind::Unauthorized, "invalid api key"@)),
        (record is Some && !record->0@.is_active()) <==> (r matches KeyAdmission::Denied(e) && e.is(ErrorKind::Forbidden, "api key is disabled"@)),
        (record is Some && exhausted(record->0@)) <==> (r matches KeyAdmission::DisableAndDeny(e) && e.is(
            ErrorKind::Forbidden,
            "api key quota exhausted and has been disabled"@,
        )),
        r is Granted <==> (record is Some && record->0@.is_active() && record->0@.consumed_tokens < record->0@.token_limit),
{
    proof {
        reveal_strlit("invalid api key");
        reveal_strlit("api key is disabled");
        assert("invalid api key"@[0] != "api key is disabled"@[0]);
    }
    let k = match record {
        Some(k) => k,
        None => return KeyAdmission::Denied(AppError::unauthorized("invalid api key")),
    };
    if !crate::models::ApiKeyStatus::Active.is_text_of(&k.status) {
        return KeyAdmission::Denied(AppError::forbidden("api key is disabled"));
    }
    if k.consumed_tokens >= k.token_limit {
        return KeyAdmission::DisableAndDeny(
            AppError::forbidden("api key quota exhausted and has been disabled"),
        );
    }
    KeyAdmission::Granted
}

/// The token of a proxied call, or the refusal of a call that presents none.
pub fn client_key(authorization: Option<&str>) -> (r: Result<&str, AppError>)
    ensures
        (authorization is None || bearer_token(authorization->0@) is None) <==> fails_with(
            r,
            ErrorKind::Unauthorized,
            "missing Authorization Bearer <api_key>"@,
        ),
        r is Ok <==> (authorization is Some && bearer_token(authorization->0@) is Some),
        r matches Ok(t) ==> t@ == bearer_token(authorization->0@)->0,
{
    match extract_bearer_token(authorization) {
        Some(t) => Ok(t),
        None => Err(AppError::unauthorized("missing Authorization Bearer <api_key>")),
    }
}


/// The id a proxied call is recorded under: the client's `x-request-id`, or else a fresh
/// key id.
pub fn request_id(header: Option<&str>) -> (r: String)
    ensures
        header matches Some(h) ==> r@ == h@,
        header is None ==> r@.len() == 26 && forall|i: int| 0 <= i < 26 ==> #[trigger] r@[i] == lower_char(r@[i]) && is_ascii_alnum(r@[i]),
{
    match header {
        Some(h) => String::from_str(h),
        None => new_key_id(),
    }
}

/// The model a proxied call is recorded with: the one the request names, else the one the
/// response names.
pub fn call_model(request_body: &[u8], response_body: &[u8], content_type: Option<&str>) -> (r: Option<String>)
    ensures
        opt_chars(r) == (match request_model(request_body@) {
            Some(m) => Some(m),
            None => response_body_model(response_body@, opt_str_chars(content_type)),
        }),
{
    match extract_model_from_request(request_body) {
        Some(m) => Some(m),
        None => extract_model_from_response(response_body, content_type),
    }
}

} // verus!
