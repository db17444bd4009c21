//! Fresh identifiers and API keys.

use vstd::prelude::*;
use rand::Rng;
use crate::text::{lower, lower_char, string_from_chars, to_ascii_lowercase, to_lower_char};

verus! {

/// A character of the Crockford base-32 alphabet in which ULIDs are written.
pub open spec fn is_ulid_char(c: char) -> bool {
    ('0' <= c && c <= '9') || ('A' <= c && c <= 'Z' && c != 'I' && c != 'L' && c != 'O' && c != 'U')
}

/// An ASCII letter or digit.
pub open spec fn is_ascii_alnum(c: char) -> bool {
    ('0' <= c && c <= '9') || ('A' <= c && c <= 'Z') || ('a' <= c && c <= 'z')
}

/// The text of a new ULID (`Ulid::new().to_string()`): its 26 characters are from the
/// Crockford base-32 alphabet. Which ULID comes back depends on the clock and on chance.
#[verifier::external_body]
fn ulid_text() -> (r: String)
    ensures
        r@.len() == 26,
        forall|i: int| 0 <= i < 26 ==> is_ulid_char(#[trigger] r@[i]),
{
    ulid::Ulid::new().to_string()
}

/// `n` characters drawn from `rand`'s `Alphanumeric` distribution by the thread's generator:
/// each is an ASCII letter or digit. Which ones come back depends on chance.
#[verifier::external_body]
fn random_alphanumeric(n: usize) -> (r: Vec<char>)
    ensures
        r@.len() == n,
        forall|i: int| 0 <= i < n ==> is_ascii_alnum(#[trigger] r@[i]),
{
    rand::thread_rng().sample_iter(&rand::distributions::Alphanumeric).take(n).map(char::from).collect()
}

/// A ULID text in lower case.
pub fn key_id_from_ulid(ulid: &str) -> (r: String)
    ensures
        r@ == lower(ulid@),
{
    to_ascii_lowercase(ulid)
}

/// A new key id: a fresh ULID in lower case, 26 lower-case letters and digits.
pub fn new_key_id() -> (r: String)
    ensures
        r@.len() == 26,
        forall|i: int| 0 <= i < 26 ==> #[trigger] r@[i] == lower_char(r@[i]) && is_ascii_alnum(r@[i]),
{
    let u = ulid_text();
    let r = key_id_from_ulid(u.as_str());
    assert forall|i: int| 0 <= i < 26 implies #[trigger] r@[i] == lower_char(r@[i]) && is_ascii_alnum(r@[i]) by {
        assert(is_ulid_char(u@[i]));
        assert(r@[i] == lower_char(u@[i]));
        let c = u@[i];
        if 'A' <= c && c <= 'Z' {
            assert((c as u32) + 32 <= 'z' as u32);
        }
    }
    r
}

/// An API key from its random part: `cpa_` and the part in lower case.
pub fn api_key_from_suffix(suffix: &[char]) -> (r: String)
    ensures
        r@ == "cpa_"@ + lower(suffix@),
{
    let mut out: Vec<char> = Vec::new();
    out.push('c');
    out.push('p');
    out.push('a');
    out.push('_');
    let ghost prefix = out@;
    proof {
        reveal_strlit("cpa_");
        assert(prefix =~= "cpa_"@);
    }
    for i in 0..suffix.len()
        invariant
            prefix == "cpa_"@,
            out@ == prefix + lower(suffix@.take(i as int)),
    {
        out.push(to_lower_char(suffix[i]));
        assert(lower(suffix@.take(i + 1)) == lower(suffix@.take(i as int)).push(lower_char(suffix@[i as int])));
        assert(out@ =~= prefix + lower(suffix@.take(i + 1)));
    }
    assert(suffix@.take(suffix@.len() as int) == suffix@);
    string_from_chars(out.as_slice())
}

/// A new API key: `cpa_` and 28 random lower-case letters and digits.
pub fn new_api_key() -> (r: String)
    ensures
        r@.len() == 32,
        r@.take(4) == "cpa_"@,
        forall|i: int| 4 <= i < 32 ==> #[trigger] r@[i] == lower_char(r@[i]) && is_ascii_alnum(r@[i]),
{
    let suffix = random_alphanumeric(28);
    let r = api_key_from_suffix(suffix.as_slice());
    proof {
        reveal_strlit("cpa_");
        assert(r@.take(4) =~= "cpa_"@);
        assert forall|i: int| 4 <= i < 32 implies #[trigger] r@[i] == lower_char(r@[i]) && is_ascii_alnum(r@[i]) by {
            assert(r@[i] == lower_char(suffix@[i - 4]));
            assert(is_ascii_alnum(suffix@[i - 4]));
        }
    }
    r
}

} // verus!
