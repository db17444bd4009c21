//! HTTP Basic credentials of the admin interface.

use vstd::prelude::*;
use vstd::utf8::{decode_utf8, encode_utf8, valid_utf8};
use base64::Engine;
use crate::text::{
    chars_eq_ignore_ascii_case, chars_of, eq_ignore_case, find_char_in, split_once, str_eq, utf8_text,
};

verus! {

/// The `WWW-Authenticate` value sent with a refusal.
pub const WWW_AUTH_HEADER_VALUE: &'static str = "Basic realm=\"CLIProxyAPI Admin\", charset=\"UTF-8\"";

/// The bytes that `base64::engine::general_purpose::STANDARD.decode` gives for `input`, or
/// `None` where it reports an error.
pub uninterp spec fn base64_standard_decoded(input: Seq<u8>) -> Option<Seq<u8>>;

/// `STANDARD.decode` of the `base64` crate: standard alphabet, padding as written by the
/// encoder; the result is the named decoding of the input bytes.
#[verifier::external_body]
fn decode_base64_standard(input: &[u8]) -> (r: Option<Vec<u8>>)
    ensures
        match r {
            Some(b) => base64_standard_decoded(input@) == Some(b@),
            None => base64_standard_decoded(input@) is None,
        },
{
    base64::engine::general_purpose::STANDARD.decode(input).ok()
}

/// The user name and password of an `Authorization: Basic <base64>` value: the scheme before
/// the first space is `basic` in any ASCII case, the rest decodes from base64 to UTF-8 text,
/// and that text splits at its first colon.
pub open spec fn basic_credentials(h: Seq<char>) -> Option<(Seq<char>, Seq<char>)> {
    match split_once(h, ' ') {
        Some((scheme, encoded)) => if !eq_ignore_case(scheme, "basic"@) {
            None
        } else {
            match base64_standard_decoded(encode_utf8(encoded)) {
                Some(bytes) => if valid_utf8(bytes) {
                    split_once(decode_utf8(bytes), ':')
                } else {
                    None
                },
                None => None,
            }
        },
        None => None,
    }
}

/// The credentials of an `Authorization` header value (see `basic_credentials`).
pub fn extract_basic_credentials(auth_header: Option<&str>) -> (r: Option<(String, String)>)
    ensures
        r is Some == (auth_header is Some && basic_credentials(auth_header->0@) is Some),
        r matches Some((u, p)) ==> basic_credentials(auth_header->0@) == Some((u@, p@)),
{
    let h = match auth_header {
        Some(h) => h,
        None => return None,
    };
    let v = chars_of(h);
    assert(v@.subrange(0, v@.len() as int) == v@);
    let sp = match find_char_in(v.as_slice(), 0, v.len(), ' ') {
        Some(i) => i,
        None => return None,
    };
    assert(v@.take(sp as int) == v@.subrange(0, sp as int));
    if !chars_eq_ignore_ascii_case(v.as_slice(), 0, sp, "basic") {
        return None;
    }
    let encoded = h.substring_char(sp + 1, v.len());
    assert(encoded@ == v@.skip(sp + 1));
    let decoded = match decode_base64_standard(encoded.as_bytes()) {
        Some(d) => d,
        None => return None,
    };
    let text = match utf8_text(decoded.as_slice()) {
        Some(t) => t,
        None => return None,
    };
    let w = chars_of(text);
    assert(w@.subrange(0, w@.len() as int) == w@);
    let colon = match find_char_in(w.as_slice(), 0, w.len(), ':') {
        Some(i) => i,
        None => return None,
    };
    let user = text.substring_char(0, colon);
    let pass = text.substring_char(colon + 1, w.len());
    assert(user@ == w@.take(colon as int));
    assert(pass@ == w@.skip(colon + 1));
    Some((String::from_str(user), String::from_str(pass)))
}

/// Whether an `Authorization` header value presents exactly the given user name and password.
pub fn is_authorized(auth_header: Option<&str>, username: &str, password: &str) -> (r: bool)
    ensures
        r == (auth_header is Some && basic_credentials(auth_header->0@) == Some((username@, password@))),
{
    match extract_basic_credentials(auth_header) {
        Some((u, p)) => str_eq(u.as_str(), username) && str_eq(p.as_str(), password),
        None => false,
    }
}

} // verus!
