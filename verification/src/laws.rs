//! Properties that hold across the operations of the library.

use vstd::prelude::*;
use crate::error::ErrorKind;
use crate::keys::{
    consume_overflows, consumed, enabled, lemma_status_texts_distinct, patch_error, patched,
    quota_checked, PatchView,
};
use crate::json::{json_of_text, JsonValue};
use crate::models::{consumed_percent_of, dto_of, normalized, ApiKeyRecord, ApiKeyStatus, KeyView, TokenUsage};
use crate::proxy::{skipped_request_header, skipped_response_header};
use crate::text::{eq_ignore_case, find_char, is_ws, lead_ws, lower, lower_char, trail_ws, trim};
use crate::proxy::bearer_token;
use crate::token_usage::{data_payload, extracted_usage, stream_usage, usage_of};
use vstd::utf8::{decode_utf8, valid_utf8};

verus! {

/// Every status reads back from its stored text.
pub proof fn status_text_round_trip(s: ApiKeyStatus)
    ensures
        ApiKeyStatus::parse_spec(s.text()) == Some(s),
{
    reveal_strlit("active");
    reveal_strlit("disabled");
    reveal_strlit("deleted");
    lemma_status_texts_distinct();
    let t = s.text();
    assert(!is_ws(t[0]));
    assert(!is_ws(t.last()));
    assert(lead_ws(t) == 0);
    assert(trail_ws(t) == 0);
    assert(t.skip(0) == t);
    assert(trim(t) == t);
    assert(lower(t) =~= t);
}

/// Normalizing a usage twice gives what normalizing it once gives.
pub proof fn normalize_idempotent(u: TokenUsage)
    ensures
        normalized(normalized(u)) == normalized(u),
{
}

/// A key that is not deleted and has a positive limit can be enabled once its usage is reset.
pub proof fn reset_makes_key_enableable(k: KeyView, reset_at: i64, enabled_at: i64)
    requires
        !k.is_deleted(),
        k.token_limit > 0,
    ensures
        ({
            let r = KeyView { consumed_tokens: 0, updated_at: reset_at, ..k };
            &&& !r.is_deleted()
            &&& r.consumed_tokens < r.token_limit
            &&& enabled(r, enabled_at).is_active()
            &&& enabled(r, enabled_at).within_quota()
        }),
{
}

/// Counting a call never leaves an active key without tokens, whatever the key was before.
pub proof fn consumption_keeps_quota(k: KeyView, usage: TokenUsage, now: i64)
    ensures
        consumed(k, usage, now).within_quota(),
        quota_checked(k, now).within_quota(),
{
    lemma_status_texts_distinct();
}

/// A deleted key is left as it is by the quota check and by usage accounting, and every
/// edit of it is answered as not found.
pub proof fn deleted_key_is_final(k: KeyView, p: PatchView, usage: TokenUsage, now: i64)
    requires
        k.is_deleted(),
    ensures
        consumed(k, usage, now) == k,
        quota_checked(k, now) == k,
        patch_error(k, p) == Some((ErrorKind::NotFound, "key not found"@)),
{
    lemma_status_texts_distinct();
}

proof fn lemma_stream_usage_nonnegative(lines: Seq<Seq<char>>)
    ensures
        stream_usage(lines).total_tokens >= 0,
    decreases lines.len(),
{
    if lines.len() > 0 {
        lemma_stream_usage_nonnegative(lines.drop_last());
    }
}

/// The usage extracted from any body has a total of at least 0.
pub proof fn extracted_total_nonnegative(body: Seq<u8>, content_type: Option<Seq<char>>)
    ensures
        extracted_usage(body, content_type).total_tokens >= 0,
{
    if valid_utf8(body) {
        lemma_stream_usage_nonnegative(crate::token_usage::text_lines(decode_utf8(body)));
    }
}

proof fn lemma_trim_plain(t: Seq<char>)
    requires
        t.len() > 0,
        !is_ws(t[0]),
        !is_ws(t.last()),
    ensures
        trim(t) == t,
{
    assert(lead_ws(t) == 0);
    assert(t.skip(0) == t);
    assert(trail_ws(t) == 0);
}

/// A token that neither starts nor ends with whitespace reads back from the header value
/// `Bearer <token>`.
pub proof fn bearer_round_trip(token: Seq<char>)
    requires
        token.len() > 0,
        !is_ws(token[0]),
        !is_ws(token.last()),
    ensures
        bearer_token("Bearer "@ + token) == Some(token),
{
    reveal_strlit("Bearer ");
    reveal_strlit("bearer");
    let h = "Bearer "@ + token;
    let s5 = h.skip(6);
    assert(s5[0] == ' ');
    assert(find_char(s5, ' ') == Some(0int));
    let s4 = h.skip(5);
    assert(s4.drop_first() == s5);
    assert(find_char(s4, ' ') == Some(1int));
    let s3 = h.skip(4);
    assert(s3.drop_first() == s4);
    assert(find_char(s3, ' ') == Some(2int));
    let s2 = h.skip(3);
    assert(s2.drop_first() == s3);
    assert(find_char(s2, ' ') == Some(3int));
    let s1 = h.skip(2);
    assert(s1.drop_first() == s2);
    assert(find_char(s1, ' ') == Some(4int));
    let s0 = h.skip(1);
    assert(s0.drop_first() == s1);
    assert(find_char(s0, ' ') == Some(5int));
    assert(h.drop_first() == s0);
    assert(find_char(h, ' ') == Some(6int));
    assert(h.skip(7) =~= token);
    assert(eq_ignore_case(h.take(6), "bearer"@)) by {
        assert forall|i: int| 0 <= i < 6 implies lower_char(#[trigger] h.take(6)[i]) == lower_char("bearer"@[i]) by {
            assert(h.take(6)[i] == "Bearer "@[i]);
            assert(lower_char('B') == 'b');
        }
    }
    lemma_trim_plain(token);
}

/// An event of a stream whose JSON document has a positive total sets the stream's usage to
/// that document's normalized usage, whatever came before it; in particular an event of the
/// responses format, whose usage sits under `response.usage`, is counted.
pub proof fn stream_event_sets_usage(lines: Seq<Seq<char>>, line: Seq<char>, payload: Seq<char>, doc: JsonValue)
    requires
        data_payload(line) == Some(payload),
        json_of_text(payload) == Some(doc),
        normalized(usage_of(doc)).total_tokens > 0,
    ensures
        stream_usage(lines.push(line)) == normalized(usage_of(doc)),
{
    assert(lines.push(line).drop_last() =~= lines);
}

/// A document without a top-level `usage` is read from `response.usage`: it gives the counts
/// of any document that has that same object as its top-level `usage`.
pub proof fn response_usage_is_read(doc: JsonValue, response: JsonValue, usage: JsonValue, other: JsonValue)
    requires
        doc.member("usage"@) is None,
        doc.member("response"@) == Some(response),
        response.member("usage"@) == Some(usage),
        other.member("usage"@) == Some(usage),
    ensures
        usage_of(doc) == usage_of(other),
{
}

/// A top-level `usage` in the responses format (`input_tokens`, `output_tokens` and
/// `total_tokens`, without the chat completions names) gives those three counts.
pub proof fn responses_format_counts(doc: JsonValue, usage: JsonValue, input: JsonValue, output: JsonValue, total: JsonValue)
    requires
        doc.member("usage"@) == Some(usage),
        usage.member("prompt_tokens"@) is None,
        usage.member("completion_tokens"@) is None,
        usage.member("input_tokens"@) == Some(input),
        usage.member("output_tokens"@) == Some(output),
        usage.member("total_tokens"@) == Some(total),
        input.int_value() is Some,
        output.int_value() is Some,
        total.int_value() is Some,
    ensures
        usage_of(doc).input_tokens == input.int_value()->0,
        usage_of(doc).output_tokens == output.int_value()->0,
        usage_of(doc).total_tokens == total.int_value()->0,
{
}

/// A positive total is kept by normalization: it is the total that a call is charged.
pub proof fn positive_total_is_kept(u: TokenUsage)
    requires
        u.total_tokens > 0,
    ensures
        normalized(u).total_tokens == u.total_tokens,
        normalized(u).input_tokens == u.input_tokens,
        normalized(u).output_tokens == u.output_tokens,
        normalized(u).reasoning_tokens == u.reasoning_tokens,
        normalized(u).cached_tokens == u.cached_tokens,
{
}

/// Counting a call adds its whole normalized total to an active key's consumed tokens (the
/// reported total itself where it is positive, cached tokens included) and changes nothing
/// else about the key's identity, limit or texts; a key that is not active is left as it is.
pub proof fn consumption_adds_total(k: KeyView, usage: TokenUsage, now: i64)
    requires
        !consume_overflows(k, usage),
    ensures
        k.is_active() ==> consumed(k, usage, now).consumed_tokens == k.consumed_tokens
            + normalized(usage).total_tokens,
        k.is_active() && usage.total_tokens > 0 ==> consumed(k, usage, now).consumed_tokens
            == k.consumed_tokens + usage.total_tokens,
        consumed(k, usage, now).id == k.id,
        consumed(k, usage, now).api_key == k.api_key,
        consumed(k, usage, now).token_limit == k.token_limit,
        consumed(k, usage, now).name == k.name,
        !k.is_active() ==> consumed(k, usage, now) == k,
{
}

/// An accepted patch that asks for `active` leaves the key active with no disable reason or
/// time; one that asks for `disabled` leaves it disabled by hand at `now`; one without a
/// status keeps the key's status. Its id, key text, consumed tokens and creation time stay.
pub proof fn patch_sets_requested_status(cur: KeyView, p: PatchView, now: i64)
    requires
        patch_error(cur, p) is None,
    ensures
        p.status matches Some(s) && ApiKeyStatus::parse_spec(s) == Some(ApiKeyStatus::Active)
            ==> patched(cur, p, now).status == "active"@ && patched(cur, p, now).disabled_reason
            is None && patched(cur, p, now).disabled_at is None,
        p.status matches Some(s) && ApiKeyStatus::parse_spec(s) == Some(ApiKeyStatus::Disabled)
            ==> patched(cur, p, now).status == "disabled"@ && patched(cur, p, now).disabled_reason
            == Some("manual"@) && patched(cur, p, now).disabled_at == Some(now),
        p.status is None ==> patched(cur, p, now).status == cur.status,
        patched(cur, p, now).id == cur.id,
        patched(cur, p, now).api_key == cur.api_key,
        patched(cur, p, now).consumed_tokens == cur.consumed_tokens,
        patched(cur, p, now).created_at == cur.created_at,
        patched(cur, p, now).updated_at == now,
{
}

/// The tokens left that a key's view shows depend on its limit and consumed tokens only, not
/// on its status: the limit minus the consumed tokens where that is not negative, else 0.
pub proof fn remaining_ignores_status(a: ApiKeyRecord, b: ApiKeyRecord)
    requires
        a.token_limit == b.token_limit,
        a.consumed_tokens == b.consumed_tokens,
    ensures
        dto_of(a).remaining_tokens == dto_of(b).remaining_tokens,
        0 <= a.consumed_tokens <= a.token_limit ==> dto_of(a).remaining_tokens == a.token_limit
            - a.consumed_tokens,
        0 <= a.token_limit <= a.consumed_tokens ==> dto_of(a).remaining_tokens == 0,
        dto_of(a).remaining_tokens >= 0,
{
}

/// Only the framing headers `content-length`, `connection` and `transfer-encoding`, in any
/// ASCII case, are held back from a response; every other header, `content-type` among them,
/// is passed back to the client.
pub proof fn only_framing_response_headers_dropped(name: Seq<char>)
    ensures
        skipped_response_header(name) ==> lower(name) == "content-length"@ || lower(name)
            == "connection"@ || lower(name) == "transfer-encoding"@,
        lower(name) == "content-length"@ || lower(name) == "connection"@ || lower(name)
            == "transfer-encoding"@ ==> skipped_response_header(name),
        lower(name) == "content-type"@ ==> !skipped_response_header(name),
{
    reveal_strlit("content-type");
    reveal_strlit("content-length");
    reveal_strlit("connection");
    reveal_strlit("transfer-encoding");
    if lower(name) == "content-type"@ {
        assert(lower(name)[8] != "content-length"@[8]);
        assert(lower(name).len() != "connection"@.len());
        assert(lower(name).len() != "transfer-encoding"@.len());
    }
}

/// A header held back from a response would also be held back from a request.
pub proof fn response_skips_are_request_skips(name: Seq<char>)
    ensures
        skipped_response_header(name) ==> skipped_request_header(name),
{
}

/// A line `data: <payload>` carries its payload, where the payload is not empty, neither
/// starts nor ends with whitespace, is not the end marker `[DONE]` and does not itself start
/// with `data:`.
pub proof fn data_line_payload(payload: Seq<char>)
    requires
        payload.len() > 0,
        !is_ws(payload[0]),
        !is_ws(payload.last()),
        payload != "[DONE]"@,
        !(payload.len() >= 5 && payload.take(5) == "data:"@),
    ensures
        data_payload("data: "@ + payload) == Some(payload),
{
    reveal_strlit("data: ");
    reveal_strlit("data:");
    let l = "data: "@ + payload;
    assert(l[0] == 'd');
    assert(l.last() == payload.last());
    lemma_trim_plain(l);
    assert(l.take(5) =~= "data:"@);
    let rest = l.skip(5);
    assert(rest =~= seq![' '] + payload);
    if rest.len() >= 5 {
        assert(rest.take(5)[0] == ' ');
        assert("data:"@[0] == 'd');
        assert(rest.take(5) != "data:"@);
    }
    reveal_with_fuel(crate::token_usage::strip_data, 2);
    assert(crate::token_usage::strip_data(l) == rest);
    assert(is_ws(rest[0]));
    assert(rest.drop_first() =~= payload);
    assert(lead_ws(payload) == 0);
    assert(lead_ws(rest) == 1);
    assert(rest.skip(1) =~= payload);
    assert(trail_ws(payload) == 0);
    assert(payload.take(payload.len() as int) =~= payload);
    assert(trim(rest) == payload);
}

/// A stream of the one event `data: <document>` is charged the document's normalized usage
/// where that has a positive total, wherever the document keeps its usage.
pub proof fn one_event_stream_usage(payload: Seq<char>, doc: JsonValue)
    requires
        payload.len() > 0,
        !is_ws(payload[0]),
        !is_ws(payload.last()),
        payload != "[DONE]"@,
        !(payload.len() >= 5 && payload.take(5) == "data:"@),
        json_of_text(payload) == Some(doc),
        normalized(usage_of(doc)).total_tokens > 0,
    ensures
        stream_usage(seq!["data: "@ + payload]) == normalized(usage_of(doc)),
{
    data_line_payload(payload);
    stream_event_sets_usage(Seq::empty(), "data: "@ + payload, payload, doc);
    assert(Seq::<Seq<char>>::empty().push("data: "@ + payload) =~= seq!["data: "@ + payload]);
}

/// Request headers held back are the hop-by-hop ones, the length, the host and the client's
/// credentials, in any ASCII case; the content type, among all others, goes upstream.
pub proof fn only_connection_request_headers_dropped(name: Seq<char>)
    ensures
        skipped_request_header(name) ==> {
            let l = lower(name);
            ||| l == "host"@
            ||| l == "content-length"@
            ||| l == "authorization"@
            ||| l == "connection"@
            ||| l == "proxy-connection"@
            ||| l == "upgrade"@
            ||| l == "keep-alive"@
            ||| l == "transfer-encoding"@
        },
        lower(name) == "content-type"@ ==> !skipped_request_header(name),
{
    reveal_strlit("content-type");
    reveal_strlit("host");
    reveal_strlit("content-length");
    reveal_strlit("authorization");
    reveal_strlit("connection");
    reveal_strlit("proxy-connection");
    reveal_strlit("upgrade");
    reveal_strlit("keep-alive");
    reveal_strlit("transfer-encoding");
    if lower(name) == "content-type"@ {
        let n = lower(name).len();
        assert(n == 12);
        assert(n != "host"@.len() && n != "content-length"@.len() && n != "authorization"@.len());
        assert(n != "connection"@.len() && n != "proxy-connection"@.len() && n != "upgrade"@.len());
        assert(n != "keep-alive"@.len() && n != "transfer-encoding"@.len());
    }
}

/// For a key within its limit, the share consumed is the consumed tokens times 100 divided
/// by the limit, rounded down.
pub proof fn consumed_percent_within_limit(token_limit: i64, consumed_tokens: i64)
    requires
        token_limit > 0,
        0 <= consumed_tokens <= token_limit,
        consumed_tokens * 100 <= i64::MAX,
    ensures
        consumed_percent_of(token_limit, consumed_tokens) as int == (consumed_tokens * 100) as int / (token_limit as int),
        0 <= consumed_percent_of(token_limit, consumed_tokens) <= 100,
{
    assert((consumed_tokens * 100) as int / (token_limit as int) <= 100) by (nonlinear_arith)
        requires
            token_limit > 0,
            0 <= consumed_tokens <= token_limit,
    ;
    assert((consumed_tokens * 100) as int / (token_limit as int) >= 0) by (nonlinear_arith)
        requires
            token_limit > 0,
            0 <= consumed_tokens,
    ;
}

} // verus!
