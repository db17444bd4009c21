//! Token usage and model names read from upstream request and response bodies, plain JSON
//! or a server-sent event stream.

use vstd::prelude::*;
use vstd::utf8::{decode_utf8, valid_utf8};
use crate::json::{json_of_bytes, json_of_text, parse_json_bytes, parse_json_text, JsonValue};
use crate::models::{normalized, TokenUsage};
use crate::text::{
    chars_of, chars_eq, chars_start_with, contains_str, lower, seq_contains, string_from_chars,
    to_ascii_lowercase, trim, trim_bounds, utf8_text,
};

verus! {

/// A usage with every count 0.
pub open spec fn zero_usage() -> TokenUsage {
    TokenUsage {
        input_tokens: 0,
        output_tokens: 0,
        reasoning_tokens: 0,
        cached_tokens: 0,
        total_tokens: 0,
    }
}

/// The first of the candidates that holds an `i64` number; 0 where none does.
pub open spec fn first_int(
    a: Option<JsonValue>,
    b: Option<JsonValue>,
    c: Option<JsonValue>,
    d: Option<JsonValue>,
) -> i64 {
    if a is Some && a->0.int_value() is Some {
        a->0.int_value()->0
    } else if b is Some && b->0.int_value() is Some {
        b->0.int_value()->0
    } else if c is Some && c->0.int_value() is Some {
        c->0.int_value()->0
    } else if d is Some && d->0.int_value() is Some {
        d->0.int_value()->0
    } else {
        0
    }
}

/// `v[outer][inner]`, where both members exist.
pub open spec fn nested(v: JsonValue, outer: Seq<char>, inner: Seq<char>) -> Option<JsonValue> {
    match v.member(outer) {
        Some(o) => o.member(inner),
        None => None,
    }
}

/// The usage object of a response: `usage` at the top, else `response.usage`.
pub open spec fn usage_object(root: JsonValue) -> Option<JsonValue> {
    match root.member("usage"@) {
        Some(u) => Some(u),
        None => nested(root, "response"@, "usage"@),
    }
}

/// The counts of a response document, in the field names of both the chat completions and
/// the responses formats; the total as given (0 where absent).
pub open spec fn usage_of(root: JsonValue) -> TokenUsage {
    match usage_object(root) {
        None => zero_usage(),
        Some(u) => TokenUsage {
            input_tokens: first_int(u.member("prompt_tokens"@), u.member("input_tokens"@), None, None),
            output_tokens: first_int(u.member("completion_tokens"@), u.member("output_tokens"@), None, None),
            reasoning_tokens: first_int(
                nested(u, "completion_tokens_details"@, "reasoning_tokens"@),
                nested(u, "output_tokens_details"@, "reasoning_tokens"@),
                None,
                None,
            ),
            cached_tokens: first_int(
                nested(u, "prompt_tokens_details"@, "cached_tokens"@),
                nested(u, "input_tokens_details"@, "cached_tokens"@),
                None,
                None,
            ),
            total_tokens: first_int(u.member("total_tokens"@), None, None, None),
        },
    }
}

/// The text of the top-level `model` member.
pub open spec fn top_model(root: JsonValue) -> Option<Seq<char>> {
    match root.member("model"@) {
        Some(m) => m.text_value(),
        None => None,
    }
}

/// The model of a response document: top-level `model`, else `response.model`.
pub open spec fn response_model(root: JsonValue) -> Option<Seq<char>> {
    match top_model(root) {
        Some(m) => Some(m),
        None => match nested(root, "response"@, "model"@) {
            Some(m) => m.text_value(),
            None => None,
        },
    }
}

/// Whether a content type names an event stream, compared without ASCII case.
pub open spec fn is_event_stream(content_type: Option<Seq<char>>) -> bool {
    let ct = match content_type {
        Some(c) => c,
        None => Seq::empty(),
    };
    seq_contains(lower(ct), "text/event-stream"@)
}

/// The pieces of `t` between line feeds, in order; there is always one more piece than
/// there are line feeds.
pub open spec fn pieces(t: Seq<char>) -> Seq<Seq<char>>
    decreases t.len(),
{
    if t.len() == 0 {
        seq![Seq::empty()]
    } else {
        let p = pieces(t.drop_last());
        if t.last() == '\n' {
            p.push(Seq::empty())
        } else {
            p.update(p.len() - 1, p.last().push(t.last()))
        }
    }
}

/// A line without the carriage return that ended it.
pub open spec fn without_cr(p: Seq<char>) -> Seq<char> {
    if p.len() > 0 && p.last() == '\r' {
        p.drop_last()
    } else {
        p
    }
}

/// The lines of `t` as `str::lines` gives them: the text between line feeds, each line
/// without a carriage return just before its line feed, and no last line where the text is
/// empty or ends in a line feed.
pub open spec fn text_lines(t: Seq<char>) -> Seq<Seq<char>> {
    let ps = pieces(t);
    let ended = ps.drop_last().map_values(|p: Seq<char>| without_cr(p));
    if ps.last().len() == 0 {
        ended
    } else {
        ended.push(ps.last())
    }
}

/// `s` with every leading repetition of `data:` removed (`str::trim_start_matches`).
pub open spec fn strip_data(s: Seq<char>) -> Seq<char>
    decreases s.len(),
{
    if s.len() >= 5 && s.take(5) == "data:"@ {
        strip_data(s.skip(5))
    } else {
        s
    }
}

/// The payload of an event-stream line: the trimmed text after `data:`, unless it is empty
/// or the end marker `[DONE]`.
pub open spec fn data_payload(line: Seq<char>) -> Option<Seq<char>> {
    let l = trim(line);
    if l.len() >= 5 && l.take(5) == "data:"@ {
        let p = trim(strip_data(l));
        if p.len() == 0 || p == "[DONE]"@ {
            None
        } else {
            Some(p)
        }
    } else {
        None
    }
}

/// The usage after one more event-stream line: the line's normalized usage where the line
/// carries a JSON document with a positive total, else `prev`.
pub open spec fn usage_step(prev: TokenUsage, line: Seq<char>) -> TokenUsage {
    match data_payload(line) {
        Some(p) => match json_of_text(p) {
            Some(v) => {
                let u = normalized(usage_of(v));
                if u.total_tokens > 0 {
                    u
                } else {
                    prev
                }
            },
            None => prev,
        },
        None => prev,
    }
}

/// The usage of an event stream: that of its last event with a positive total.
pub open spec fn stream_usage(lines: Seq<Seq<char>>) -> TokenUsage
    decreases lines.len(),
{
    if lines.len() == 0 {
        zero_usage()
    } else {
        usage_step(stream_usage(lines.drop_last()), lines.last())
    }
}

/// The model after one more event-stream line: the line's top-level model where it has one.
pub open spec fn model_step(prev: Option<Seq<char>>, line: Seq<char>) -> Option<Seq<char>> {
    match data_payload(line) {
        Some(p) => match json_of_text(p) {
            Some(v) => match top_model(v) {
                Some(m) => Some(m),
                None => prev,
            },
            None => prev,
        },
        None => prev,
    }
}

/// The model of an event stream: that of its last event that names one.
pub open spec fn stream_model(lines: Seq<Seq<char>>) -> Option<Seq<char>>
    decreases lines.len(),
{
    if lines.len() == 0 {
        None
    } else {
        model_step(stream_model(lines.drop_last()), lines.last())
    }
}

proof fn lemma_payload_without_cr(p: Seq<char>)
    ensures
        data_payload(without_cr(p)) == data_payload(p),
{
    if p.len() > 0 && p.last() == '\r' {
        assert(p.drop_last().push('\r') =~= p);
        crate::text::lemma_trim_push_ws(p.drop_last(), '\r');
    }
}

/// Two runs of lines whose lines carry the same payloads, one by one.
pub open spec fn same_payloads(a: Seq<Seq<char>>, b: Seq<Seq<char>>) -> bool {
    a.len() == b.len() && forall|i: int| 0 <= i < a.len() ==> data_payload(#[trigger] a[i]) == data_payload(b[i])
}

proof fn lemma_same_payloads_same_result(a: Seq<Seq<char>>, b: Seq<Seq<char>>)
    requires
        same_payloads(a, b),
    ensures
        stream_usage(a) == stream_usage(b),
        stream_model(a) == stream_model(b),
    decreases a.len(),
{
    if a.len() > 0 {
        assert(data_payload(a[a.len() - 1]) == data_payload(b[b.len() - 1]));
        assert forall|i: int| 0 <= i < a.drop_last().len() implies data_payload(#[trigger] a.drop_last()[i])
            == data_payload(b.drop_last()[i]) by {
            assert(data_payload(a[i]) == data_payload(b[i]));
        }
        lemma_same_payloads_same_result(a.drop_last(), b.drop_last());
    }
}

/// The pieces of a text and its lines give the same usage and the same model.
proof fn lemma_lines_and_pieces(t: Seq<char>)
    ensures
        stream_usage(text_lines(t)) == stream_usage(pieces(t)),
        stream_model(text_lines(t)) == stream_model(pieces(t)),
{
    let ps = pieces(t);
    lemma_pieces_nonempty(t);
    let front = ps.drop_last();
    let ended = front.map_values(|p: Seq<char>| without_cr(p));
    assert forall|i: int| 0 <= i < ended.len() implies data_payload(#[trigger] ended[i]) == data_payload(front[i]) by {
        lemma_payload_without_cr(front[i]);
    }
    if ps.last().len() == 0 {
        lemma_same_payloads_same_result(ended, front);
        reveal_strlit("data:");
        assert(data_payload(ps.last()) is None) by {
            assert(trim(ps.last()) =~= Seq::<char>::empty()) by {
                assert(crate::text::lead_ws(ps.last()) == 0);
                assert(ps.last().skip(0) =~= ps.last());
            }
        }
    } else {
        let lines = ended.push(ps.last());
        assert forall|i: int| 0 <= i < lines.len() implies data_payload(#[trigger] lines[i]) == data_payload(ps[i]) by {
            if i < ended.len() {
                lemma_payload_without_cr(front[i]);
            }
        }
        lemma_same_payloads_same_result(lines, ps);
    }
}

proof fn lemma_pieces_nonempty(t: Seq<char>)
    ensures
        pieces(t).len() >= 1,
    decreases t.len(),
{
    if t.len() > 0 {
        lemma_pieces_nonempty(t.drop_last());
    }
}

/// The usage that `extract_usage` reports for a body and content type.
pub open spec fn extracted_usage(body: Seq<u8>, content_type: Option<Seq<char>>) -> TokenUsage {
    if body.len() == 0 {
        zero_usage()
    } else if is_event_stream(content_type) {
        if valid_utf8(body) {
            stream_usage(text_lines(decode_utf8(body)))
        } else {
            zero_usage()
        }
    } else {
        match json_of_bytes(body) {
            Some(v) => normalized(usage_of(v)),
            None => zero_usage(),
        }
    }
}

/// The model that `extract_model_from_request` reports for a request body.
pub open spec fn request_model(body: Seq<u8>) -> Option<Seq<char>> {
    if body.len() == 0 {
        None
    } else {
        match json_of_bytes(body) {
            Some(v) => top_model(v),
            None => None,
        }
    }
}

/// The model that `extract_model_from_response` reports for a body and content type.
pub open spec fn response_body_model(body: Seq<u8>, content_type: Option<Seq<char>>) -> Option<Seq<char>> {
    if body.len() == 0 {
        None
    } else if is_event_stream(content_type) {
        if valid_utf8(body) {
            stream_model(text_lines(decode_utf8(body)))
        } else {
            None
        }
    } else {
        match json_of_bytes(body) {
            Some(v) => response_model(v),
            None => None,
        }
    }
}

/// The characters of an optional string.
pub open spec fn opt_chars(s: Option<String>) -> Option<Seq<char>> {
    match s {
        Some(t) => Some(t@),
        None => None,
    }
}

/// The characters of an optional string slice.
pub open spec fn opt_str_chars(s: Option<&str>) -> Option<Seq<char>> {
    match s {
        Some(t) => Some(t@),
        None => None,
    }
}


/// The value behind an optional reference.
pub open spec fn deref_opt(o: Option<&JsonValue>) -> Option<JsonValue> {
    match o {
        Some(v) => Some(*v),
        None => None,
    }
}

fn nested_get<'a>(v: &'a JsonValue, outer: &str, inner: &str) -> (r: Option<&'a JsonValue>)
    ensures
        deref_opt(r) == nested(*v, outer@, inner@),
{
    match v.get(outer) {
        Some(o) => o.get(inner),
        None => None,
    }
}

/// The first candidate that holds an `i64` number; 0 where none does.
pub fn first_i64(
    a: Option<&JsonValue>,
    b: Option<&JsonValue>,
    c: Option<&JsonValue>,
    d: Option<&JsonValue>,
) -> (r: i64)
    ensures
        r == first_int(deref_opt(a), deref_opt(b), deref_opt(c), deref_opt(d)),
{
    if let Some(v) = a {
        if let Some(n) = v.as_i64() {
            return n;
        }
    }
    if let Some(v) = b {
        if let Some(n) = v.as_i64() {
            return n;
        }
    }
    if let Some(v) = c {
        if let Some(n) = v.as_i64() {
            return n;
        }
    }
    if let Some(v) = d {
        if let Some(n) = v.as_i64() {
            return n;
        }
    }
    0
}

/// The token counts of a parsed response document (see `usage_of`).
pub fn usage_from_json(root: &JsonValue) -> (r: TokenUsage)
    ensures
        r == usage_of(*root),
{
    let usage = match root.get("usage") {
        Some(u) => Some(u),
        None => nested_get(root, "response", "usage"),
    };
    let usage = match usage {
        Some(u) => u,
        None => return TokenUsage::default(),
    };
    let input_tokens = first_i64(usage.get("prompt_tokens"), usage.get("input_tokens"), None, None);
    let output_tokens = first_i64(usage.get("completion_tokens"), usage.get("output_tokens"), None, None);
    let reasoning_tokens = first_i64(
        nested_get(usage, "completion_tokens_details", "reasoning_tokens"),
        nested_get(usage, "output_tokens_details", "reasoning_tokens"),
        None,
        None,
    );
    let cached_tokens = first_i64(
        nested_get(usage, "prompt_tokens_details", "cached_tokens"),
        nested_get(usage, "input_tokens_details", "cached_tokens"),
        None,
        None,
    );
    let total_tokens = first_i64(usage.get("total_tokens"), None, None, None);
    TokenUsage { input_tokens, output_tokens, reasoning_tokens, cached_tokens, total_tokens }
}

/// The top-level `model` of a document, as a string.
pub fn model_from_json(root: &JsonValue) -> (r: Option<String>)
    ensures
        opt_chars(r) == top_model(*root),
{
    match root.get("model") {
        Some(m) => match m.as_str() {
            Some(s) => Some(s.to_owned()),
            None => None,
        },
        None => None,
    }
}

/// The model of a response document: top-level `model`, else `response.model`.
pub fn model_from_response_json(root: &JsonValue) -> (r: Option<String>)
    ensures
        opt_chars(r) == response_model(*root),
{
    match model_from_json(root) {
        Some(m) => Some(m),
        None => match nested_get(root, "response", "model") {
            Some(m) => match m.as_str() {
                Some(s) => Some(s.to_owned()),
                None => None,
            },
            None => None,
        },
    }
}

/// Whether a content type names an event stream.
pub fn content_is_event_stream(content_type: Option<&str>) -> (r: bool)
    ensures
        r == is_event_stream(opt_str_chars(content_type)),
{
    let lowered = match content_type {
        Some(c) => to_ascii_lowercase(c),
        None => String::new(),
    };
    proof {
        if content_type is None {
            assert(lower(Seq::<char>::empty()) =~= Seq::<char>::empty());
        }
    }
    contains_str(lowered.as_str(), "text/event-stream")
}


proof fn lemma_strip_data_step(v: Seq<char>, x: int, e: int)
    requires
        0 <= x,
        x + 5 <= e <= v.len(),
        v.subrange(x, x + 5) == "data:"@,
    ensures
        strip_data(v.subrange(x, e)) == strip_data(v.subrange(x + 5, e)),
{
    let s = v.subrange(x, e);
    assert(s.take(5) == v.subrange(x, x + 5));
    assert(s.skip(5) == v.subrange(x + 5, e));
}

/// Bounds of the payload of the event-stream line `v[a..b]`, where it has one.
fn payload_bounds(v: &[char], a: usize, b: usize) -> (r: Option<(usize, usize)>)
    requires
        a <= b <= v@.len(),
    ensures
        match r {
            Some((c, d)) => a <= c <= d <= b && data_payload(v@.subrange(a as int, b as int)) == Some(
                v@.subrange(c as int, d as int),
            ),
            None => data_payload(v@.subrange(a as int, b as int)) is None,
        },
{
    proof {
        reveal_strlit("data:");
        reveal_strlit("[DONE]");
    }
    let ghost line = v@.subrange(a as int, b as int);
    let (s, e) = trim_bounds(v, a, b);
    let ghost l = v@.subrange(s as int, e as int);
    assert(l == trim(line));
    if !chars_start_with(v, s, e, "data:") {
        proof {
            if l.len() >= 5 && l.take(5) == "data:"@ {
                assert(l.take(5) == v@.subrange(s as int, s + 5));
            }
        }
        return None;
    }
    assert(l.take(5) == v@.subrange(s as int, s + 5));
    let mut x = s;
    while chars_start_with(v, x, e, "data:")
        invariant
            s <= x <= e <= v@.len(),
            strip_data(v@.subrange(x as int, e as int)) == strip_data(l),
        decreases e - x,
    {
        proof {
            reveal_strlit("data:");
            lemma_strip_data_step(v@, x as int, e as int);
        }
        x = x + 5;
    }
    proof {
        let t = v@.subrange(x as int, e as int);
        if t.len() >= 5 {
            assert(t.take(5) == v@.subrange(x as int, x + 5));
        }
        assert(strip_data(t) == t);
    }
    let (c, d) = trim_bounds(v, x, e);
    if c == d || chars_eq(v, c, d, "[DONE]") {
        None
    } else {
        Some((c, d))
    }
}

/// The usage after the event-stream line `v[a..b]` (see `usage_step`).
fn usage_after_line(v: &[char], a: usize, b: usize, prev: TokenUsage) -> (r: TokenUsage)
    requires
        a <= b <= v@.len(),
    ensures
        r == usage_step(prev, v@.subrange(a as int, b as int)),
{
    match payload_bounds(v, a, b) {
        None => prev,
        Some((c, d)) => {
            let text = string_from_chars(&v[c..d]);
            match parse_json_text(text.as_str()) {
                Some(doc) => {
                    let u = usage_from_json(&doc).normalize();
                    if u.total_tokens > 0 {
                        u
                    } else {
                        prev
                    }
                },
                None => prev,
            }
        },
    }
}

/// The model after the event-stream line `v[a..b]` (see `model_step`).
fn model_after_line(v: &[char], a: usize, b: usize, prev: Option<String>) -> (r: Option<String>)
    requires
        a <= b <= v@.len(),
    ensures
        opt_chars(r) == model_step(opt_chars(prev), v@.subrange(a as int, b as int)),
{
    match payload_bounds(v, a, b) {
        None => prev,
        Some((c, d)) => {
            let text = string_from_chars(&v[c..d]);
            match parse_json_text(text.as_str()) {
                Some(doc) => match model_from_json(&doc) {
                    Some(m) => Some(m),
                    None => prev,
                },
                None => prev,
            }
        },
    }
}

proof fn lemma_pieces_step(v: Seq<char>, i: int, start: int, done: Seq<Seq<char>>)
    requires
        0 <= start <= i < v.len(),
        pieces(v.take(i)) == done.push(v.subrange(start, i)),
    ensures
        v[i] == '\n' ==> pieces(v.take(i + 1)) == done.push(v.subrange(start, i)).push(
            v.subrange(i + 1, i + 1),
        ),
        v[i] != '\n' ==> pieces(v.take(i + 1)) == done.push(v.subrange(start, i + 1)),
{
    let t = v.take(i + 1);
    assert(t.drop_last() == v.take(i));
    assert(t.last() == v[i]);
    if v[i] == '\n' {
        assert(v.subrange(i + 1, i + 1) =~= Seq::<char>::empty());
    } else {
        let p = done.push(v.subrange(start, i));
        assert(v.subrange(start, i + 1) =~= v.subrange(start, i).push(v[i]));
        assert(p.update(p.len() - 1, p.last().push(v[i])) =~= done.push(v.subrange(start, i + 1)));
    }
}

/// The usage of an event-stream body: that of its last event with a positive total; all 0
/// where the body is not UTF-8 or no event has one.
pub fn extract_usage_from_sse(body: &[u8]) -> (r: TokenUsage)
    ensures
        r == (if valid_utf8(body@) {
            stream_usage(text_lines(decode_utf8(body@)))
        } else {
            zero_usage()
        }),
{
    let text = match utf8_text(body) {
        Some(t) => t,
        None => return TokenUsage::default(),
    };
    let v = chars_of(text);
    let mut usage = TokenUsage::default();
    let mut start: usize = 0;
    let ghost mut done: Seq<Seq<char>> = Seq::empty();
    assert(v@.take(0) =~= Seq::<char>::empty());
    assert(pieces(v@.take(0)) =~= done.push(v@.subrange(0, 0)));
    for i in 0..v.len()
        invariant
            start <= i <= v@.len(),
            pieces(v@.take(i as int)) == done.push(v@.subrange(start as int, i as int)),
            usage == stream_usage(done),
    {
        proof {
            lemma_pieces_step(v@, i as int, start as int, done);
        }
        if v[i] == '\n' {
            usage = usage_after_line(v.as_slice(), start, i, usage);
            proof {
                let d2 = done.push(v@.subrange(start as int, i as int));
                assert(d2.drop_last() == done);
                done = d2;
            }
            start = i + 1;
        }
    }
    let last = usage_after_line(v.as_slice(), start, v.len(), usage);
    proof {
        assert(v@.take(v@.len() as int) == v@);
        let p = done.push(v@.subrange(start as int, v@.len() as int));
        assert(p.drop_last() == done);
        lemma_lines_and_pieces(v@);
    }
    last
}

/// The model of an event-stream body: that of its last event that names one; `None` where
/// the body is not UTF-8 or no event names one.
fn extract_model_from_sse(body: &[u8]) -> (r: Option<String>)
    ensures
        opt_chars(r) == (if valid_utf8(body@) {
            stream_model(text_lines(decode_utf8(body@)))
        } else {
            None
        }),
{
    let text = match utf8_text(body) {
        Some(t) => t,
        None => return None,
    };
    let v = chars_of(text);
    let mut model: Option<String> = None;
    let mut start: usize = 0;
    let ghost mut done: Seq<Seq<char>> = Seq::empty();
    assert(v@.take(0) =~= Seq::<char>::empty());
    assert(pieces(v@.take(0)) =~= done.push(v@.subrange(0, 0)));
    for i in 0..v.len()
        invariant
            start <= i <= v@.len(),
            pieces(v@.take(i as int)) == done.push(v@.subrange(start as int, i as int)),
            opt_chars(model) == stream_model(done),
    {
        proof {
            lemma_pieces_step(v@, i as int, start as int, done);
        }
        if v[i] == '\n' {
            model = model_after_line(v.as_slice(), start, i, model);
            proof {
                let d2 = done.push(v@.subrange(start as int, i as int));
                assert(d2.drop_last() == done);
                done = d2;
            }
            start = i + 1;
        }
    }
    let last = model_after_line(v.as_slice(), start, v.len(), model);
    proof {
        assert(v@.take(v@.len() as int) == v@);
        let p = done.push(v@.subrange(start as int, v@.len() as int));
        assert(p.drop_last() == done);
        lemma_lines_and_pieces(v@);
    }
    last
}

/// The token usage of an upstream response body: from the last event with a positive total
/// of an event stream, else from the JSON document; normalized; all 0 where nothing is read.
pub fn extract_usage(body: &[u8], content_type: Option<&str>) -> (r: TokenUsage)
    ensures
        r == extracted_usage(body@, opt_str_chars(content_type)),
{
    if body.len() == 0 {
        return TokenUsage::default();
    }
    if content_is_event_stream(content_type) {
        return extract_usage_from_sse(body);
    }
    match parse_json_bytes(body) {
        Some(doc) => usage_from_json(&doc).normalize(),
        None => TokenUsage::default(),
    }
}

/// The top-level `model` of a request body.
pub fn extract_model_from_request(body: &[u8]) -> (r: Option<String>)
    ensures
        opt_chars(r) == request_model(body@),
{
    if body.len() == 0 {
        return None;
    }
    match parse_json_bytes(body) {
        Some(doc) => model_from_json(&doc),
        None => None,
    }
}

/// The model of a response body: from the last event that names one of an event stream,
/// else top-level `model` or `response.model` of the JSON document.
pub fn extract_model_from_response(body: &[u8], content_type: Option<&str>) -> (r: Option<String>)
    ensures
        opt_chars(r) == response_body_model(body@, opt_str_chars(content_type)),
{
    if body.len() == 0 {
        return None;
    }
    if content_is_event_stream(content_type) {
        return extract_model_from_sse(body);
    }
    match parse_json_bytes(body) {
        Some(doc) => model_from_response_json(&doc),
        None => None,
    }
}

} // verus!
