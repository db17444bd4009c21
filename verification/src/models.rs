//! Records, requests and views of API keys and their usage.

use vstd::prelude::*;
use crate::text::{lower, str_eq, to_ascii_lowercase, trim, trim_str};
use vstd::wrapping::i64_specs::{wrapping_add, wrapping_sub};
use chrono::TimeZone;
use crate::datetime::{is_local_time_text, lemma_local_time_text_len};

verus! {

/// Lowest and highest Unix timestamps that have a calendar date.
pub const MIN_TIMESTAMP: i64 = -8334601228800i64;
pub const MAX_TIMESTAMP: i64 = 8210266876799i64;

#[derive(Debug, Clone, Copy, PartialEq, Eq, Structural)]
pub enum ApiKeyStatus {
    Active,
    Disabled,
    Deleted,
}

impl ApiKeyStatus {
    /// The text by which a status is stored.
    pub open spec fn text(self) -> Seq<char> {
        match self {
            ApiKeyStatus::Active => "active"@,
            ApiKeyStatus::Disabled => "disabled"@,
            ApiKeyStatus::Deleted => "deleted"@,
        }
    }

    /// The status that a text names, read without surrounding whitespace and without case.
    pub open spec fn parse_spec(value: Seq<char>) -> Option<ApiKeyStatus> {
        let t = lower(trim(value));
        if t == "active"@ {
            Some(ApiKeyStatus::Active)
        } else if t == "disabled"@ {
            Some(ApiKeyStatus::Disabled)
        } else if t == "deleted"@ {
            Some(ApiKeyStatus::Deleted)
        } else {
            None
        }
    }

    pub fn as_str(self) -> (r: &'static str)
        ensures
            r@ == self.text(),
    {
        match self {
            ApiKeyStatus::Active => "active",
            ApiKeyStatus::Disabled => "disabled",
            ApiKeyStatus::Deleted => "deleted",
        }
    }

    pub fn parse(value: &str) -> (r: Option<Self>)
        ensures
            r == Self::parse_spec(value@),
    {
        let lowered = to_ascii_lowercase(trim_str(value));
        if str_eq(lowered.as_str(), "active") {
            Some(ApiKeyStatus::Active)
        } else if str_eq(lowered.as_str(), "disabled") {
            Some(ApiKeyStatus::Disabled)
        } else if str_eq(lowered.as_str(), "deleted") {
            Some(ApiKeyStatus::Deleted)
        } else {
            None
        }
    }

    /// Whether a stored status text is the text of this status.
    pub fn is_text_of(self, status: &String) -> (r: bool)
        ensures
            r == (status@ == self.text()),
    {
        str_eq(status.as_str(), self.as_str())
    }
}


/// Token counts reported for one upstream response.
pub struct TokenUsage {
    pub input_tokens: i64,
    pub output_tokens: i64,
    pub reasoning_tokens: i64,
    pub cached_tokens: i64,
    pub total_tokens: i64,
}

impl Default for TokenUsage {
    fn default() -> (r: Self)
        ensures
            r.input_tokens == 0 && r.output_tokens == 0 && r.reasoning_tokens == 0
                && r.cached_tokens == 0 && r.total_tokens == 0,
    {
        TokenUsage {
            input_tokens: 0,
            output_tokens: 0,
            reasoning_tokens: 0,
            cached_tokens: 0,
            total_tokens: 0,
        }
    }
}

/// The total that `normalize` settles on. The sums are taken in 64-bit two's complement,
/// as the integer additions of a release build compute them.
pub open spec fn normalized_total(u: TokenUsage) -> i64 {
    let t1 = if u.total_tokens <= 0 {
        wrapping_add(wrapping_add(u.input_tokens, u.output_tokens), u.reasoning_tokens)
    } else {
        u.total_tokens
    };
    let t2 = if t1 <= 0 {
        wrapping_add(
            wrapping_add(wrapping_add(u.input_tokens, u.output_tokens), u.reasoning_tokens),
            u.cached_tokens,
        )
    } else {
        t1
    };
    if t2 < 0 {
        0
    } else {
        t2
    }
}

/// `u` with its total replaced by the normalized total.
pub open spec fn normalized(u: TokenUsage) -> TokenUsage {
    TokenUsage { total_tokens: normalized_total(u), ..u }
}

impl TokenUsage {
    /// A usage with only a total.
    pub fn with_total(total_tokens: i64) -> (r: Self)
        ensures
            r.input_tokens == 0 && r.output_tokens == 0 && r.reasoning_tokens == 0
                && r.cached_tokens == 0 && r.total_tokens == total_tokens,
    {
        TokenUsage {
            input_tokens: 0,
            output_tokens: 0,
            reasoning_tokens: 0,
            cached_tokens: 0,
            total_tokens,
        }
    }

    /// Fills in a missing or non-positive total from the parts: first from input, output and
    /// reasoning tokens, then also counting cached tokens; a total that stays negative becomes 0.
    pub fn normalize(self) -> (r: Self)
        ensures
            r == normalized(self),
            r.total_tokens >= 0,
    {
        let mut u = self;
        if u.total_tokens <= 0 {
            u.total_tokens = u.input_tokens.wrapping_add(u.output_tokens).wrapping_add(
                u.reasoning_tokens,
            );
        }
        if u.total_tokens <= 0 {
            u.total_tokens = u.input_tokens.wrapping_add(u.output_tokens).wrapping_add(
                u.reasoning_tokens,
            ).wrapping_add(u.cached_tokens);
        }
        if u.total_tokens < 0 {
            u.total_tokens = 0;
        }
        u
    }
}


/// The characters of an optional string.
pub open spec fn opt_view(s: Option<String>) -> Option<Seq<char>> {
    match s {
        Some(t) => Some(t@),
        None => None,
    }
}

/// A stored API key.
pub struct ApiKeyRecord {
    pub id: String,
    pub name: String,
    pub api_key: String,
    pub token_limit: i64,
    pub consumed_tokens: i64,
    pub status: String,
    pub disabled_reason: Option<String>,
    pub notes: Option<String>,
    pub created_at: i64,
    pub updated_at: i64,
    pub disabled_at: Option<i64>,
    pub deleted_at: Option<i64>,
}

/// An API key with its texts as characters.
pub struct KeyView {
    pub id: Seq<char>,
    pub name: Seq<char>,
    pub api_key: Seq<char>,
    pub token_limit: i64,
    pub consumed_tokens: i64,
    pub status: Seq<char>,
    pub disabled_reason: Option<Seq<char>>,
    pub notes: Option<Seq<char>>,
    pub created_at: i64,
    pub updated_at: i64,
    pub disabled_at: Option<i64>,
    pub deleted_at: Option<i64>,
}

impl View for ApiKeyRecord {
    type V = KeyView;

    open spec fn view(&self) -> KeyView {
        KeyView {
            id: self.id@,
            name: self.name@,
            api_key: self.api_key@,
            token_limit: self.token_limit,
            consumed_tokens: self.consumed_tokens,
            status: self.status@,
            disabled_reason: opt_view(self.disabled_reason),
            notes: opt_view(self.notes),
            created_at: self.created_at,
            updated_at: self.updated_at,
            disabled_at: self.disabled_at,
            deleted_at: self.deleted_at,
        }
    }
}

impl KeyView {
    pub open spec fn is_active(self) -> bool {
        self.status == "active"@
    }

    pub open spec fn is_deleted(self) -> bool {
        self.status == "deleted"@
    }

    /// An active key has tokens left.
    pub open spec fn within_quota(self) -> bool {
        self.is_active() ==> self.consumed_tokens < self.token_limit
    }
}

/// One recorded upstream call of a key.
pub struct UsageEventRecord {
    pub id: i64,
    pub api_key_id: String,
    pub request_id: Option<String>,
    pub path: String,
    pub model: Option<String>,
    pub input_tokens: i64,
    pub output_tokens: i64,
    pub reasoning_tokens: i64,
    pub cached_tokens: i64,
    pub total_tokens: i64,
    pub upstream_status: i64,
    pub created_at: i64,
}

/// A usage event before the store numbers it.
pub struct NewUsageEvent {
    pub api_key_id: String,
    pub request_id: Option<String>,
    pub path: String,
    pub model: Option<String>,
    pub input_tokens: i64,
    pub output_tokens: i64,
    pub reasoning_tokens: i64,
    pub cached_tokens: i64,
    pub total_tokens: i64,
    pub upstream_status: i64,
    pub created_at: i64,
}

pub struct CreateKeyRequest {
    pub name: String,
    pub token_limit: i64,
    pub notes: Option<String>,
}

pub struct PatchKeyRequest {
    pub name: Option<String>,
    pub token_limit: Option<i64>,
    pub notes: Option<String>,
    pub status: Option<String>,
}

pub struct ListKeysQuery {
    pub status: Option<String>,
    pub search: Option<String>,
    pub page: Option<u32>,
    pub page_size: Option<u32>,
}

pub struct ListKeysResponse {
    pub items: Vec<ApiKeyDto>,
    pub page: u32,
    pub page_size: u32,
    pub total: i64,
}

/// An API key as the admin interface shows it.
pub struct ApiKeyDto {
    pub id: String,
    pub name: String,
    pub api_key: String,
    pub token_limit: i64,
    pub consumed_tokens: i64,
    pub remaining_tokens: i64,
    pub status: String,
    pub disabled_reason: Option<String>,
    pub notes: Option<String>,
    pub created_at: i64,
    pub updated_at: i64,
    pub disabled_at: Option<i64>,
}

/// A usage event as the admin interface shows it.
pub struct UsageEventDto {
    pub id: i64,
    pub request_id: Option<String>,
    pub path: String,
    pub model: Option<String>,
    pub input_tokens: i64,
    pub output_tokens: i64,
    pub reasoning_tokens: i64,
    pub cached_tokens: i64,
    pub total_tokens: i64,
    pub upstream_status: i64,
    pub created_at: i64,
    pub created_at_text: String,
}

pub struct CreateKeyForm {
    pub name: String,
    pub token_limit: i64,
    pub notes: Option<String>,
}

pub struct UpdateKeyForm {
    pub name: String,
    pub token_limit: i64,
    pub notes: Option<String>,
}

/// The listing filter that a query asks for, with page numbers settled.
pub struct ListFilter {
    pub status: Option<ApiKeyStatus>,
    pub search: Option<String>,
    pub page: u32,
    pub page_size: u32,
}


/// Tokens left under a limit: the difference in 64-bit two's complement, as a release build
/// computes it, and 0 where that is negative.
pub open spec fn remaining_of(token_limit: i64, consumed_tokens: i64) -> i64 {
    let d = wrapping_sub(token_limit, consumed_tokens);
    if d < 0 {
        0
    } else {
        d
    }
}

/// Tokens left under a limit (see `remaining_of`).
pub fn remaining_tokens(token_limit: i64, consumed_tokens: i64) -> (r: i64)
    ensures
        r == remaining_of(token_limit, consumed_tokens),
        r >= 0,
        0 <= consumed_tokens <= token_limit ==> r == token_limit - consumed_tokens,
{
    let d = token_limit.wrapping_sub(consumed_tokens);
    if d < 0 {
        0
    } else {
        d
    }
}

/// The view of a stored key that the admin interface shows.
pub open spec fn dto_of(v: ApiKeyRecord) -> ApiKeyDto {
    ApiKeyDto {
        id: v.id,
        name: v.name,
        api_key: v.api_key,
        token_limit: v.token_limit,
        consumed_tokens: v.consumed_tokens,
        remaining_tokens: remaining_of(v.token_limit, v.consumed_tokens),
        status: v.status,
        disabled_reason: v.disabled_reason,
        notes: v.notes,
        created_at: v.created_at,
        updated_at: v.updated_at,
        disabled_at: v.disabled_at,
    }
}

impl From<ApiKeyRecord> for ApiKeyDto {
    fn from(value: ApiKeyRecord) -> (r: Self)
        ensures
            0 <= value.consumed_tokens <= value.token_limit ==> r.remaining_tokens
                == value.token_limit - value.consumed_tokens,
            r.remaining_tokens >= 0,
            r.status@ == value.status@ && r.token_limit == value.token_limit && r.consumed_tokens
                == value.consumed_tokens,
    {
        let remaining_tokens = remaining_tokens(value.token_limit, value.consumed_tokens);
        ApiKeyDto {
            id: value.id,
            name: value.name,
            api_key: value.api_key,
            token_limit: value.token_limit,
            consumed_tokens: value.consumed_tokens,
            remaining_tokens,
            status: value.status,
            disabled_reason: value.disabled_reason,
            notes: value.notes,
            created_at: value.created_at,
            updated_at: value.updated_at,
            disabled_at: value.disabled_at,
        }
    }
}

impl vstd::std_specs::convert::FromSpecImpl<ApiKeyRecord> for ApiKeyDto {
    open spec fn obeys_from_spec() -> bool {
        true
    }

    open spec fn from_spec(v: ApiKeyRecord) -> ApiKeyDto {
        dto_of(v)
    }
}

/// `x / d` rounded toward zero, as integer division in Rust.
pub open spec fn div_toward_zero(x: int, d: int) -> int {
    if x >= 0 {
        x / d
    } else {
        -((-x) / d)
    }
}

/// The share of the limit consumed, in whole percent from 0 to 100: the consumed tokens
/// times 100 (saturating at the `i64` bounds), divided by the limit toward zero, then clamped.
/// A limit that is not positive gives 0.
pub open spec fn consumed_percent_of(token_limit: i64, consumed_tokens: i64) -> i64 {
    if token_limit <= 0 {
        0
    } else {
        let m = consumed_tokens * 100;
        let sat = if m > i64::MAX {
            i64::MAX as int
        } else if m < i64::MIN {
            i64::MIN as int
        } else {
            m
        };
        let q = div_toward_zero(sat, token_limit as int);
        if q < 0 {
            0
        } else if q > 100 {
            100
        } else {
            q as i64
        }
    }
}

/// Unix timestamp as local date and time text, by chrono's `Utc.timestamp_opt`,
/// `with_timezone(&Local)` and `format("%Y-%m-%d %H:%M:%S")`. It states that chrono gives no
/// date exactly outside the timestamps from `MIN_TIMESTAMP` to `MAX_TIMESTAMP`, and that
/// otherwise the text is that of the proleptic Gregorian date and time of day at the
/// timestamp shifted by the machine's offset from UTC, which chrono holds to less than a day.
/// Which offset that is depends on the machine's time zone and is left unsaid.
#[verifier::external_body]
fn local_time_text(ts: i64) -> (r: Option<String>)
    ensures
        r is None <==> !(MIN_TIMESTAMP <= ts && ts <= MAX_TIMESTAMP),
        r matches Some(s) ==> is_local_time_text(ts as int, s@),
{
    match chrono::Utc.timestamp_opt(ts, 0).single() {
        Some(dt) => Some(dt.with_timezone(&chrono::Local).format("%Y-%m-%d %H:%M:%S").to_string()),
        None => None,
    }
}

/// Unix timestamp as local date and time text (see `is_local_time_text`); `-` where the
/// timestamp has no date.
pub fn format_ts(ts: i64) -> (r: String)
    ensures
        !(MIN_TIMESTAMP <= ts && ts <= MAX_TIMESTAMP) ==> r@ == "-"@,
        MIN_TIMESTAMP <= ts && ts <= MAX_TIMESTAMP ==> is_local_time_text(ts as int, r@),
        r@ == "-"@ <==> !(MIN_TIMESTAMP <= ts && ts <= MAX_TIMESTAMP),
{
    proof {
        reveal_strlit("-");
    }
    match local_time_text(ts) {
        Some(s) => {
            proof {
                lemma_local_time_text_len(ts as int, s@);
            }
            s
        },
        None => String::from_str("-"),
    }
}

impl ApiKeyDto {
    /// The style class of the key's status.
    pub fn status_class(&self) -> (r: &'static str)
        ensures
            r@ == (if self.status@ == "active"@ {
                "status-active"@
            } else if self.status@ == "disabled"@ {
                "status-disabled"@
            } else {
                "status-muted"@
            }),
    {
        if ApiKeyStatus::Active.is_text_of(&self.status) {
            "status-active"
        } else if ApiKeyStatus::Disabled.is_text_of(&self.status) {
            "status-disabled"
        } else {
            "status-muted"
        }
    }

    /// The share of the limit consumed (see `consumed_percent_of`).
    pub fn consumed_percent(&self) -> (r: i64)
        ensures
            r == consumed_percent_of(self.token_limit, self.consumed_tokens),
            0 <= r <= 100,
    {
        if self.token_limit <= 0 {
            return 0;
        }
        let sat: i64 = match self.consumed_tokens.checked_mul(100) {
            Some(m) => m,
            None => if self.consumed_tokens > 0 {
                i64::MAX
            } else {
                i64::MIN
            },
        };
        if sat <= 0 {
            return 0;
        }
        let q = sat / self.token_limit;
        if q > 100 {
            100
        } else {
            q
        }
    }

    /// The creation time as local date and time text (see `format_ts`).
    pub fn created_at_text(&self) -> (r: String)
        ensures
            !(MIN_TIMESTAMP <= self.created_at && self.created_at <= MAX_TIMESTAMP) <==> r@ == "-"@,
            MIN_TIMESTAMP <= self.created_at && self.created_at <= MAX_TIMESTAMP
                ==> is_local_time_text(self.created_at as int, r@),
    {
        format_ts(self.created_at)
    }

    /// The time of the last change as local date and time text (see `format_ts`).
    pub fn updated_at_text(&self) -> (r: String)
        ensures
            !(MIN_TIMESTAMP <= self.updated_at && self.updated_at <= MAX_TIMESTAMP) <==> r@ == "-"@,
            MIN_TIMESTAMP <= self.updated_at && self.updated_at <= MAX_TIMESTAMP
                ==> is_local_time_text(self.updated_at as int, r@),
    {
        format_ts(self.updated_at)
    }
}

impl UsageEventDto {
    /// The admin view of a usage event: its fields, and its time as local text.
    pub fn from_record(value: UsageEventRecord) -> (r: Self)
        ensures
            r.id == value.id && r.request_id == value.request_id && r.path == value.path
                && r.model == value.model && r.input_tokens == value.input_tokens
                && r.output_tokens == value.output_tokens && r.reasoning_tokens
                == value.reasoning_tokens && r.cached_tokens == value.cached_tokens
                && r.total_tokens == value.total_tokens && r.upstream_status
                == value.upstream_status && r.created_at == value.created_at,
            !(MIN_TIMESTAMP <= value.created_at && value.created_at <= MAX_TIMESTAMP) <==> r.created_at_text@ == "-"@,
            MIN_TIMESTAMP <= value.created_at && value.created_at <= MAX_TIMESTAMP
                ==> is_local_time_text(value.created_at as int, r.created_at_text@),
    {
        let created_at_text = format_ts(value.created_at);
        UsageEventDto {
            id: value.id,
            request_id: value.request_id,
            path: value.path,
            model: value.model,
            input_tokens: value.input_tokens,
            output_tokens: value.output_tokens,
            reasoning_tokens: value.reasoning_tokens,
            cached_tokens: value.cached_tokens,
            total_tokens: value.total_tokens,
            upstream_status: value.upstream_status,
            created_at: value.created_at,
            created_at_text,
        }
    }
}

impl ListFilter {
    /// The filter of a listing query: a known status or none, the trimmed search text, a
    /// page from 1 (default 1) and a page size from 1 to 200 (default 20).
    pub fn from_query(query: &ListKeysQuery) -> (r: Self)
        ensures
            r.status == (match query.status {
                Some(s) => ApiKeyStatus::parse_spec(s@),
                None => None,
            }),
            opt_view(r.search) == (match query.search {
                Some(s) => Some(trim(s@)),
                None => None,
            }),
            r.page == (match query.page {
                Some(p) => if p < 1 {
                    1
                } else {
                    p
                },
                None => 1,
            }),
            r.page_size == (match query.page_size {
                Some(p) => if p < 1 {
                    1
                } else if p > 200 {
                    200
                } else {
                    p
                },
                None => 20,
            }),
            r.page >= 1,
            1 <= r.page_size <= 200,
    {
        let status = match &query.status {
            Some(s) => ApiKeyStatus::parse(s.as_str()),
            None => None,
        };
        let search = match &query.search {
            Some(s) => Some(String::from_str(trim_str(s.as_str()))),
            None => None,
        };
        let page = match query.page {
            Some(p) => if p < 1 {
                1
            } else {
                p
            },
            None => 1,
        };
        let page_size = match query.page_size {
            Some(p) => if p < 1 {
                1
            } else if p > 200 {
                200
            } else {
                p
            },
            None => 20,
        };
        ListFilter { status, search, page, page_size }
    }
}

} // verus!
