//! JSON documents as the usage extraction reads them, and the parsing of JSON text.

use vstd::prelude::*;
use crate::text::str_eq;

verus! {

/// A JSON value. Numbers keep what the extraction reads of them: their value when they are
/// integers that fit in an `i64`. Object members keep their text order; parsed objects
/// hold each key once.
pub enum JsonValue {
    Null,
    Bool(bool),
    Number(Option<i64>),
    Str(String),
    Array(Vec<JsonValue>),
    Object(Vec<(String, JsonValue)>),
}

/// The value of the first member of `members` whose key is `key`.
pub open spec fn find_member(members: Seq<(String, JsonValue)>, key: Seq<char>) -> Option<JsonValue>
    decreases members.len(),
{
    if members.len() == 0 {
        None
    } else if members[0].0@ == key {
        Some(members[0].1)
    } else {
        find_member(members.drop_first(), key)
    }
}

impl JsonValue {
    /// `Value::get` with a key: the member's value, for objects only.
    pub open spec fn member(self, key: Seq<char>) -> Option<JsonValue> {
        match self {
            JsonValue::Object(members) => find_member(members@, key),
            _ => None,
        }
    }

    /// `Value::as_i64`.
    pub open spec fn int_value(self) -> Option<i64> {
        match self {
            JsonValue::Number(n) => n,
            _ => None,
        }
    }

    /// `Value::as_str`, by characters.
    pub open spec fn text_value(self) -> Option<Seq<char>> {
        match self {
            JsonValue::Str(s) => Some(s@),
            _ => None,
        }
    }

    pub fn get(&self, key: &str) -> (r: Option<&JsonValue>)
        ensures
            r is Some == self.member(key@) is Some,
            r matches Some(v) ==> *v == self.member(key@)->0,
    {
        match self {
            JsonValue::Object(members) => {
                let mut i: usize = 0;
                assert(members@.skip(0) == members@);
                while i < members.len()
                    invariant
                        i <= members@.len(),
                        self.member(key@) == find_member(members@, key@),
                        find_member(members@, key@) == find_member(members@.skip(i as int), key@),
                    decreases members@.len() - i,
                {
                    assert(members@.skip(i as int).drop_first() == members@.skip(i + 1));
                    assert(members@.skip(i as int)[0] == members@[i as int]);
                    if str_eq(members[i].0.as_str(), key) {
                        return Some(&members[i].1);
                    }
                    i = i + 1;
                }
                None
            },
            _ => None,
        }
    }

    pub fn as_i64(&self) -> (r: Option<i64>)
        ensures
            r == self.int_value(),
    {
        match self {
            JsonValue::Number(n) => *n,
            _ => None,
        }
    }

    pub fn as_str(&self) -> (r: Option<&str>)
        ensures
            r is Some == self.text_value() is Some,
            r matches Some(s) ==> s@ == self.text_value()->0,
    {
        match self {
            JsonValue::Str(s) => Some(s.as_str()),
            _ => None,
        }
    }
}


/// `serde_json::Value`, the document that the parser hands back.
#[verifier::external_type_specification]
#[verifier::external_body]
pub struct ExJsonDocument(serde_json::Value);

/// The document that `serde_json::from_slice::<serde_json::Value>` reads from `bytes`,
/// or `None` where it reports an error.
pub uninterp spec fn json_of_bytes(bytes: Seq<u8>) -> Option<JsonValue>;

/// The document that `serde_json::from_str::<serde_json::Value>` reads from `text`,
/// or `None` where it reports an error.
pub uninterp spec fn json_of_text(text: Seq<char>) -> Option<JsonValue>;

/// Moves a parsed `serde_json::Value` into a `JsonValue`, variant by variant; a number keeps
/// what `serde_json::Number::as_i64` gives. Nothing is stated of it: the two parsing items
/// below state their results as a whole.
#[verifier::external_body]
fn from_document(v: serde_json::Value) -> JsonValue {
    match v {
        serde_json::Value::Null => JsonValue::Null,
        serde_json::Value::Bool(b) => JsonValue::Bool(b),
        serde_json::Value::Number(n) => JsonValue::Number(n.as_i64()),
        serde_json::Value::String(s) => JsonValue::Str(s),
        serde_json::Value::Array(a) => JsonValue::Array(a.into_iter().map(from_document).collect()),
        serde_json::Value::Object(m) => JsonValue::Object(
            m.into_iter().map(|(k, v)| (k, from_document(v))).collect(),
        ),
    }
}

/// `serde_json::from_slice` into a `serde_json::Value`; the result is the named document
/// of the bytes, `None` where serde_json reports an error.
#[verifier::external_body]
pub fn parse_json_bytes(bytes: &[u8]) -> (r: Option<JsonValue>)
    ensures
        r == json_of_bytes(bytes@),
{
    match serde_json::from_slice::<serde_json::Value>(bytes) {
        Ok(v) => Some(from_document(v)),
        Err(_) => None,
    }
}

/// `serde_json::from_str` into a `serde_json::Value`; the result is the named document
/// of the text, `None` where serde_json reports an error.
#[verifier::external_body]
pub fn parse_json_text(text: &str) -> (r: Option<JsonValue>)
    ensures
        r == json_of_text(text@),
{
    match serde_json::from_str::<serde_json::Value>(text) {
        Ok(v) => Some(from_document(v)),
        Err(_) => None,
    }
}

} // verus!
