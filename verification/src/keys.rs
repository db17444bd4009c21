//! The lifecycle of an API key: creation, edits, enabling and disabling, deletion, usage
//! resets and the accounting of consumed tokens. Each operation takes the stored record
//! (`None` where no record has the id) and the current time, and gives the record to store.

use vstd::prelude::*;
use crate::error::{AppError, ErrorKind};
use crate::models::{
    normalized, opt_view, ApiKeyRecord, ApiKeyStatus, KeyView, NewUsageEvent, PatchKeyRequest,
    TokenUsage,
};
use crate::text::{trim, trim_str};

verus! {

/// The error that a result holds has this kind and message.
pub open spec fn fails_with<T>(r: Result<T, AppError>, kind: ErrorKind, message: Seq<char>) -> bool {
    r matches Err(e) && e.is(kind, message)
}

/// The three status texts differ.
pub proof fn lemma_status_texts_distinct()
    ensures
        "active"@ != "disabled"@,
        "active"@ != "deleted"@,
        "disabled"@ != "deleted"@,
{
    reveal_strlit("active");
    reveal_strlit("disabled");
    reveal_strlit("deleted");
    assert("active"@.len() != "disabled"@.len());
    assert("active"@[0] != "deleted"@[0]);
    assert("disabled"@[1] != "deleted"@[1]);
}

/// The stored text of a status.
pub fn status_text(status: ApiKeyStatus) -> (r: String)
    ensures
        r@ == status.text(),
{
    String::from_str(status.as_str())
}

fn text(s: &str) -> (r: String)
    ensures
        r@ == s@,
{
    String::from_str(s)
}

/// A new key: active, nothing consumed, created now. Refused unless the limit is positive.
pub fn new_key_record(
    id: String,
    name: String,
    api_key: String,
    token_limit: i64,
    notes: Option<String>,
    now: i64,
) -> (r: Result<ApiKeyRecord, AppError>)
    ensures
        token_limit <= 0 <==> fails_with(r, ErrorKind::BadRequest, "token_limit must be > 0"@),
        r is Ok <==> token_limit > 0,
        r matches Ok(k) ==> k@ == (KeyView {
            id: id@,
            name: name@,
            api_key: api_key@,
            token_limit,
            consumed_tokens: 0,
            status: "active"@,
            disabled_reason: None,
            notes: opt_view(notes),
            created_at: now,
            updated_at: now,
            disabled_at: None,
            deleted_at: None,
        }),
        r matches Ok(k) ==> k@.within_quota(),
{
    if token_limit <= 0 {
        return Err(AppError::bad_request("token_limit must be > 0"));
    }
    Ok(ApiKeyRecord {
        id,
        name,
        api_key,
        token_limit,
        consumed_tokens: 0,
        status: status_text(ApiKeyStatus::Active),
        disabled_reason: None,
        notes,
        created_at: now,
        updated_at: now,
        disabled_at: None,
        deleted_at: None,
    })
}

/// A patch with its texts as characters.
pub struct PatchView {
    pub name: Option<Seq<char>>,
    pub token_limit: Option<i64>,
    pub notes: Option<Seq<char>>,
    pub status: Option<Seq<char>>,
}

impl View for PatchKeyRequest {
    type V = PatchView;

    open spec fn view(&self) -> PatchView {
        PatchView {
            name: opt_view(self.name),
            token_limit: self.token_limit,
            notes: opt_view(self.notes),
            status: opt_view(self.status),
        }
    }
}

/// A key after the name, limit and notes of a patch: names and notes are trimmed, and
/// notes that trim to nothing are cleared.
pub open spec fn with_fields(cur: KeyView, p: PatchView) -> KeyView {
    KeyView {
        name: match p.name {
            Some(n) => trim(n),
            None => cur.name,
        },
        token_limit: match p.token_limit {
            Some(l) => l,
            None => cur.token_limit,
        },
        notes: match p.notes {
            Some(n) => if trim(n).len() == 0 {
                None
            } else {
                Some(trim(n))
            },
            None => cur.notes,
        },
        ..cur
    }
}

/// Whether a patch is refused, and why: edits of a deleted key, an empty name, a limit that
/// is not positive, an unknown or `deleted` status, and activation of an exhausted key.
pub open spec fn patch_error(cur: KeyView, p: PatchView) -> Option<(ErrorKind, Seq<char>)> {
    let base = with_fields(cur, p);
    if cur.is_deleted() {
        Some((ErrorKind::NotFound, "key not found"@))
    } else if p.name is Some && trim(p.name->0).len() == 0 {
        Some((ErrorKind::BadRequest, "name cannot be empty"@))
    } else if p.token_limit is Some && p.token_limit->0 <= 0 {
        Some((ErrorKind::BadRequest, "token_limit must be > 0"@))
    } else if p.status is Some && ApiKeyStatus::parse_spec(p.status->0) is None {
        Some((ErrorKind::BadRequest, "invalid status, expected active|disabled"@))
    } else if p.status is Some && ApiKeyStatus::parse_spec(p.status->0) == Some(ApiKeyStatus::Deleted) {
        Some((ErrorKind::BadRequest, "use delete endpoint for deleted status"@))
    } else if p.status is Some && ApiKeyStatus::parse_spec(p.status->0) == Some(ApiKeyStatus::Active)
        && base.consumed_tokens >= base.token_limit {
        Some((ErrorKind::BadRequest, "key has exhausted quota, reset usage first"@))
    } else {
        None
    }
}

/// The key that an accepted patch leaves: the edited fields, the requested status with its
/// reason and time, and `now` as the update time.
pub open spec fn patched(cur: KeyView, p: PatchView, now: i64) -> KeyView {
    let base = with_fields(cur, p);
    let b = KeyView { updated_at: now, ..base };
    match p.status {
        Some(st) => match ApiKeyStatus::parse_spec(st) {
            Some(ApiKeyStatus::Active) => KeyView {
                status: "active"@,
                disabled_reason: None,
                disabled_at: None,
                ..b
            },
            Some(ApiKeyStatus::Disabled) => KeyView {
                status: "disabled"@,
                disabled_reason: Some("manual"@),
                disabled_at: Some(now),
                ..b
            },
            _ => b,
        },
        None => b,
    }
}

/// A trimmed copy of an optional text, `None` where it trims to nothing.
fn trimmed_notes(notes: &String) -> (r: Option<String>)
    ensures
        opt_view(r) == (if trim(notes@).len() == 0 {
            None
        } else {
            Some(trim(notes@))
        }),
{
    let t = trim_str(notes.as_str());
    if t.unicode_len() == 0 {
        None
    } else {
        Some(text(t))
    }
}

/// Applies an edit of name, limit, notes and status to a stored key (see `patch_error` and
/// `patched`).
pub fn patch_key(current: ApiKeyRecord, patch: PatchKeyRequest, now: i64) -> (r: Result<
    ApiKeyRecord,
    AppError,
>)
    ensures
        match patch_error(current@, patch@) {
            Some((kind, message)) => fails_with(r, kind, message),
            None => r matches Ok(k) && k@ == patched(current@, patch@, now),
        },
        r matches Ok(k) ==> (patch@.status matches Some(st) && ApiKeyStatus::parse_spec(st)
            == Some(ApiKeyStatus::Active) ==> k@.status == "active"@ && k@.disabled_reason is None
            && k@.disabled_at is None),
        r matches Ok(k) ==> (patch@.status matches Some(st) && ApiKeyStatus::parse_spec(st)
            == Some(ApiKeyStatus::Disabled) ==> k@.status == "disabled"@ && k@.disabled_reason
            == Some("manual"@) && k@.disabled_at == Some(now)),
        r matches Ok(k) ==> (patch@.status is None ==> k@.status == current@.status),
        r matches Ok(k) ==> k@.consumed_tokens == current@.consumed_tokens && k@.id == current@.id,
        r matches Ok(k) ==> (current@.within_quota() && !(patch@.status is None
            && patch@.token_limit is Some && patch@.token_limit->0 <= current@.consumed_tokens)
            ==> k@.within_quota()),
{
    proof {
        lemma_status_texts_distinct();
    }
    let ghost cur = current@;
    let ghost p = patch@;
    let mut current = current;
    if ApiKeyStatus::Deleted.is_text_of(&current.status) {
        return Err(AppError::not_found("key not found"));
    }
    if let Some(name) = &patch.name {
        let t = trim_str(name.as_str());
        if t.unicode_len() == 0 {
            return Err(AppError::bad_request("name cannot be empty"));
        }
        current.name = text(t);
    }
    if let Some(token_limit) = patch.token_limit {
        if token_limit <= 0 {
            return Err(AppError::bad_request("token_limit must be > 0"));
        }
        current.token_limit = token_limit;
    }
    if let Some(notes) = &patch.notes {
        current.notes = trimmed_notes(notes);
    }
    assert(current@ == with_fields(cur, p));
    if let Some(status) = &patch.status {
        match ApiKeyStatus::parse(status.as_str()) {
            None => {
                return Err(AppError::bad_request("invalid status, expected active|disabled"));
            },
            Some(ApiKeyStatus::Active) => {
                if current.consumed_tokens >= current.token_limit {
                    return Err(AppError::bad_request("key has exhausted quota, reset usage first"));
                }
                current.status = status_text(ApiKeyStatus::Active);
                current.disabled_reason = None;
                current.disabled_at = None;
            },
            Some(ApiKeyStatus::Disabled) => {
                current.status = status_text(ApiKeyStatus::Disabled);
                current.disabled_reason = Some(text("manual"));
                current.disabled_at = Some(now);
            },
            Some(ApiKeyStatus::Deleted) => {
                return Err(AppError::bad_request("use delete endpoint for deleted status"));
            },
        }
    }
    current.updated_at = now;
    Ok(current)
}


/// The key after a deletion: marked deleted by hand, with its deletion time and, where it
/// had none, a disable time.
pub open spec fn deleted(cur: KeyView, now: i64) -> KeyView {
    KeyView {
        status: "deleted"@,
        disabled_reason: Some("manual"@),
        deleted_at: Some(now),
        updated_at: now,
        disabled_at: match cur.disabled_at {
            Some(t) => Some(t),
            None => Some(now),
        },
        ..cur
    }
}

/// Marks a key deleted; a missing or already deleted key is not found.
pub fn soft_delete_key(current: Option<ApiKeyRecord>, now: i64) -> (r: Result<ApiKeyRecord, AppError>)
    ensures
        (current is None || current->0@.is_deleted()) <==> fails_with(r, ErrorKind::NotFound, "key not found"@),
        r is Ok <==> (current is Some && !current->0@.is_deleted()),
        r matches Ok(k) ==> k@ == deleted(current->0@, now) && k@.within_quota(),
{
    proof {
        lemma_status_texts_distinct();
    }
    let mut k = match current {
        Some(k) => k,
        None => return Err(AppError::not_found("key not found")),
    };
    if ApiKeyStatus::Deleted.is_text_of(&k.status) {
        return Err(AppError::not_found("key not found"));
    }
    k.status = status_text(ApiKeyStatus::Deleted);
    k.disabled_reason = Some(text("manual"));
    k.deleted_at = Some(now);
    k.updated_at = now;
    if k.disabled_at.is_none() {
        k.disabled_at = Some(now);
    }
    Ok(k)
}

/// The key after it is disabled by hand.
pub open spec fn manually_disabled(cur: KeyView, now: i64) -> KeyView {
    KeyView {
        status: "disabled"@,
        disabled_reason: Some("manual"@),
        disabled_at: Some(now),
        updated_at: now,
        ..cur
    }
}

/// Disables an active key by hand; a key that is not active is handed back unchanged, a
/// missing or deleted key is not found.
pub fn disable_key_manual(current: Option<ApiKeyRecord>, now: i64) -> (r: Result<ApiKeyRecord, AppError>)
    ensures
        (current is None || current->0@.is_deleted()) <==> fails_with(r, ErrorKind::NotFound, "key not found"@),
        r is Ok <==> (current is Some && !current->0@.is_deleted()),
        r matches Ok(k) ==> k@ == (if current->0@.is_active() {
            manually_disabled(current->0@, now)
        } else {
            current->0@
        }),
        r matches Ok(k) ==> (current->0@.within_quota() ==> k@.within_quota()),
{
    proof {
        lemma_status_texts_distinct();
    }
    let mut k = match current {
        Some(k) => k,
        None => return Err(AppError::not_found("key not found")),
    };
    if ApiKeyStatus::Active.is_text_of(&k.status) {
        k.status = status_text(ApiKeyStatus::Disabled);
        k.disabled_reason = Some(text("manual"));
        k.disabled_at = Some(now);
        k.updated_at = now;
        return Ok(k);
    }
    if ApiKeyStatus::Deleted.is_text_of(&k.status) {
        return Err(AppError::not_found("key not found"));
    }
    Ok(k)
}

/// Whether a key is active with no tokens left.
pub open spec fn exhausted(k: KeyView) -> bool {
    k.is_active() && k.consumed_tokens >= k.token_limit
}

/// The key after the quota check: an exhausted key is disabled for its quota.
pub open spec fn quota_checked(cur: KeyView, now: i64) -> KeyView {
    if exhausted(cur) {
        KeyView {
            status: "disabled"@,
            disabled_reason: Some("quota_exceeded"@),
            disabled_at: Some(now),
            updated_at: now,
            ..cur
        }
    } else {
        cur
    }
}

/// Disables a key that is active and has used up its tokens; any other key is unchanged.
pub fn disable_key_quota(current: ApiKeyRecord, now: i64) -> (r: ApiKeyRecord)
    ensures
        r@ == quota_checked(current@, now),
        r@.within_quota(),
{
    proof {
        lemma_status_texts_distinct();
    }
    let mut k = current;
    if ApiKeyStatus::Active.is_text_of(&k.status) && k.consumed_tokens >= k.token_limit {
        k.status = status_text(ApiKeyStatus::Disabled);
        k.disabled_reason = Some(text("quota_exceeded"));
        k.disabled_at = Some(now);
        k.updated_at = now;
    }
    k
}

/// The key after it is enabled.
pub open spec fn enabled(cur: KeyView, now: i64) -> KeyView {
    KeyView { status: "active"@, disabled_reason: None, disabled_at: None, updated_at: now, ..cur }
}

/// Enables a key that has tokens left; a missing or deleted key is not found, an exhausted
/// one is refused.
pub fn enable_key(current: Option<ApiKeyRecord>, now: i64) -> (r: Result<ApiKeyRecord, AppError>)
    ensures
        (current is None || current->0@.is_deleted()) <==> fails_with(r, ErrorKind::NotFound, "key not found"@),
        (current is Some && !current->0@.is_deleted() && current->0@.consumed_tokens
            >= current->0@.token_limit) <==> fails_with(
            r,
            ErrorKind::BadRequest,
            "key has exhausted quota, reset usage first"@,
        ),
        r is Ok <==> (current is Some && !current->0@.is_deleted() && current->0@.consumed_tokens
            < current->0@.token_limit),
        r matches Ok(k) ==> k@ == enabled(current->0@, now) && k@.within_quota(),
{
    proof {
        lemma_status_texts_distinct();
    }
    let mut k = match current {
        Some(k) => k,
        None => return Err(AppError::not_found("key not found")),
    };
    if ApiKeyStatus::Deleted.is_text_of(&k.status) {
        return Err(AppError::not_found("key not found"));
    }
    if k.consumed_tokens >= k.token_limit {
        return Err(AppError::bad_request("key has exhausted quota, reset usage first"));
    }
    k.status = status_text(ApiKeyStatus::Active);
    k.disabled_reason = None;
    k.disabled_at = None;
    k.updated_at = now;
    Ok(k)
}

/// Sets the consumed tokens of a key back to 0; a missing or deleted key is not found.
pub fn reset_usage(current: Option<ApiKeyRecord>, now: i64) -> (r: Result<ApiKeyRecord, AppError>)
    ensures
        (current is None || current->0@.is_deleted()) <==> fails_with(r, ErrorKind::NotFound, "key not found"@),
        r is Ok <==> (current is Some && !current->0@.is_deleted()),
        r matches Ok(k) ==> k@ == (KeyView { consumed_tokens: 0, updated_at: now, ..current->0@ }),
        r matches Ok(k) ==> (current->0@.token_limit > 0 ==> k@.within_quota()),
{
    proof {
        lemma_status_texts_distinct();
    }
    let mut k = match current {
        Some(k) => k,
        None => return Err(AppError::not_found("key not found")),
    };
    if ApiKeyStatus::Deleted.is_text_of(&k.status) {
        return Err(AppError::not_found("key not found"));
    }
    k.consumed_tokens = 0;
    k.updated_at = now;
    Ok(k)
}

/// The key after one upstream call is counted: an active key consumes the normalized total
/// and is disabled for its quota once it has none left; other keys are unchanged.
pub open spec fn consumed(cur: KeyView, usage: TokenUsage, now: i64) -> KeyView {
    if cur.is_active() {
        quota_checked(
            KeyView {
                consumed_tokens: (cur.consumed_tokens + normalized(usage).total_tokens) as i64,
                updated_at: now,
                ..cur
            },
            now,
        )
    } else {
        cur
    }
}

/// Whether counting a call would take the consumed tokens of an active key past `i64::MAX`.
pub open spec fn consume_overflows(cur: KeyView, usage: TokenUsage) -> bool {
    cur.is_active() && cur.consumed_tokens + normalized(usage).total_tokens > i64::MAX
}

/// Counts one upstream call of a key: the key after `consumed`, and the usage event with the
/// normalized counts. A missing key is not found; a count past `i64::MAX` is refused.
pub fn record_usage_and_consume(
    current: Option<ApiKeyRecord>,
    key_id: &str,
    usage: TokenUsage,
    path: &str,
    model: Option<&str>,
    upstream_status: i64,
    request_id: Option<&str>,
    now: i64,
) -> (r: Result<(ApiKeyRecord, NewUsageEvent), AppError>)
    ensures
        current is None <==> fails_with(r, ErrorKind::NotFound, "key not found"@),
        (current is Some && consume_overflows(current->0@, usage)) <==> fails_with(
            r,
            ErrorKind::Internal,
            "consumed token count overflow"@,
        ),
        r is Ok <==> (current is Some && !consume_overflows(current->0@, usage)),
        r matches Ok((k, e)) ==> {
            &&& k@ == consumed(current->0@, usage, now)
            &&& k@.within_quota()
            &&& e.api_key_id@ == key_id@
            &&& opt_view(e.request_id) == (match request_id {
                Some(s) => Some(s@),
                None => None,
            })
            &&& e.path@ == path@
            &&& opt_view(e.model) == (match model {
                Some(s) => Some(s@),
                None => None,
            })
            &&& e.input_tokens == usage.input_tokens
            &&& e.output_tokens == usage.output_tokens
            &&& e.reasoning_tokens == usage.reasoning_tokens
            &&& e.cached_tokens == usage.cached_tokens
            &&& e.total_tokens == normalized(usage).total_tokens
            &&& e.upstream_status == upstream_status
            &&& e.created_at == now
        },
        r matches Ok((k, e)) ==> (current->0@.is_active() ==> k@.consumed_tokens
            == current->0@.consumed_tokens + e.total_tokens),
        r matches Ok((k, e)) ==> (!current->0@.is_active() ==> k@ == current->0@),
        r matches Ok((k, e)) ==> (usage.total_tokens > 0 ==> e.total_tokens == usage.total_tokens),
{
    proof {
        lemma_status_texts_distinct();
    }
    let usage = usage.normalize();
    let mut k = match current {
        Some(k) => k,
        None => return Err(AppError::not_found("key not found")),
    };
    if ApiKeyStatus::Active.is_text_of(&k.status) {
        if k.consumed_tokens > i64::MAX - usage.total_tokens {
            return Err(AppError::internal("consumed token count overflow"));
        }
        k.consumed_tokens = k.consumed_tokens + usage.total_tokens;
        k.updated_at = now;
    }
    let event = NewUsageEvent {
        api_key_id: text(key_id),
        request_id: match request_id {
            Some(s) => Some(text(s)),
            None => None,
        },
        path: text(path),
        model: match model {
            Some(s) => Some(text(s)),
            None => None,
        },
        input_tokens: usage.input_tokens,
        output_tokens: usage.output_tokens,
        reasoning_tokens: usage.reasoning_tokens,
        cached_tokens: usage.cached_tokens,
        total_tokens: usage.total_tokens,
        upstream_status,
        created_at: now,
    };
    let k = disable_key_quota(k, now);
    Ok((k, event))
}

} // verus!
