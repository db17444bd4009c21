//! The public balance check of a key.

use vstd::prelude::*;
use crate::models::{remaining_of, remaining_tokens, ApiKeyRecord};
use crate::text::{trim, trim_str};

verus! {

/// What the public page shows of a key.
pub struct PublicKeyBalanceView {
    pub status: String,
    pub token_limit: i64,
    pub consumed_tokens: i64,
    pub remaining_tokens: i64,
}

/// A key as typed into the check form, without surrounding whitespace.
pub fn normalize_api_key(value: &str) -> (r: String)
    ensures
        r@ == trim(value@),
{
    String::from_str(trim_str(value))
}

/// Tokens left under a limit (see `remaining_of`).
pub fn compute_remaining_tokens(token_limit: i64, consumed_tokens: i64) -> (r: i64)
    ensures
        r == remaining_of(token_limit, consumed_tokens),
        r >= 0,
        0 <= consumed_tokens <= token_limit ==> r == token_limit - consumed_tokens,
{
    remaining_tokens(token_limit, consumed_tokens)
}

/// The message for a check without a key.
pub open spec fn empty_key_message() -> Seq<char> {
    "请输入有效的 API Key"@
}

/// The message for a key that no record has.
pub open spec fn unknown_key_message() -> Seq<char> {
    "未找到该 Key"@
}

/// The message for a lookup that failed.
pub open spec fn lookup_failed_message() -> Seq<char> {
    "查询失败，请稍后重试"@
}

/// A typed key to look up, or the message for a key that is empty once trimmed.
pub fn key_to_check(value: &str) -> (r: Result<String, String>)
    ensures
        match r {
            Ok(k) => trim(value@).len() > 0 && k@ == trim(value@),
            Err(m) => trim(value@).len() == 0 && m@ == empty_key_message(),
        },
{
    let key = normalize_api_key(value);
    if key.as_str().unicode_len() == 0 {
        Err(String::from_str("请输入有效的 API Key"))
    } else {
        Ok(key)
    }
}

/// The answer to a balance check, from the lookup of the key: its balance where a record
/// has the key, else the message for an unknown key, or for a failed lookup.
pub fn key_check_outcome(lookup: Result<Option<ApiKeyRecord>, ()>) -> (r: Result<PublicKeyBalanceView, String>)
    ensures
        match lookup {
            Ok(Some(k)) => r matches Ok(b) && b.status@ == k.status@ && b.token_limit == k.token_limit
                && b.consumed_tokens == k.consumed_tokens && b.remaining_tokens == remaining_of(
                k.token_limit,
                k.consumed_tokens,
            ),
            Ok(None) => r matches Err(m) && m@ == unknown_key_message(),
            Err(()) => r matches Err(m) && m@ == lookup_failed_message(),
        },
{
    match lookup {
        Ok(Some(row)) => {
            let remaining_tokens = compute_remaining_tokens(row.token_limit, row.consumed_tokens);
            Ok(PublicKeyBalanceView {
                status: row.status,
                token_limit: row.token_limit,
                consumed_tokens: row.consumed_tokens,
                remaining_tokens,
            })
        },
        Ok(None) => Err(String::from_str("未找到该 Key")),
        Err(()) => Err(String::from_str("查询失败，请稍后重试")),
    }
}

} // verus!
