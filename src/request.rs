//! Request descriptors and the plan derived from one: method, deadline,
//! headers, where the parameters go, tag, proxy and protocol mode.

use vstd::prelude::*;
use crate::client::{client_result, create_client_with_proxy};
use crate::http_version::HttpVersion;
use crate::json::{json_text, to_json_text, JsonValue};
use crate::proxy::{opt_text, ProxyConfig};
use crate::record::{
    failure_is, meta_is, meta_unattempted, outcome_fits, outcome_record, proxy_error_message, proxy_error_record, seconds4,
    ErrorKind, ResultRecord, SendOutcome,
};
use crate::time::{request_meta, timestamp_in_range};
use crate::text::{same_text, to_upper, upper_of};

verus! {

/// One request to send.
#[derive(Debug, PartialEq, Eq)]
pub struct RequestItem {
    pub url: String,
    /// Case-insensitive; `GET` when absent.
    pub method: Option<String>,
    /// Named parameters, in insertion order.
    pub params: Option<Vec<(String, JsonValue)>>,
    /// The request's own deadline in milliseconds.
    pub timeout_ms: Option<u64>,
    pub tag: Option<String>,
    pub headers: Option<Vec<(String, String)>>,
    /// Overrides the process-wide proxy.
    pub proxy: Option<ProxyConfig>,
    pub http_version: Option<HttpVersion>,
    /// Reserved.
    pub ssl_verify: Option<bool>,
}

impl RequestItem {
    /// A descriptor from all of its fields.
    pub fn new(
        url: String,
        method: Option<String>,
        params: Option<Vec<(String, JsonValue)>>,
        timeout_ms: Option<u64>,
        tag: Option<String>,
        headers: Option<Vec<(String, String)>>,
        proxy: Option<ProxyConfig>,
        http_version: Option<HttpVersion>,
        ssl_verify: Option<bool>,
    ) -> (r: Self)
        ensures
            r == (RequestItem { url, method, params, timeout_ms, tag, headers, proxy, http_version, ssl_verify }),
    {
        RequestItem { url, method, params, timeout_ms, tag, headers, proxy, http_version, ssl_verify }
    }
}

/// The deadline when none is given, in milliseconds.
pub const DEFAULT_TIMEOUT_MS: u64 = 30000;

/// The least deadline a request gets, in milliseconds.
pub const MIN_TIMEOUT_MS: u64 = 3000;

/// The deadline a request gets: the one given, or 30 s, and never under 3 s.
pub open spec fn effective_timeout(t: Option<u64>) -> nat {
    let base: nat = match t {
        Some(x) => x as nat,
        None => 30000,
    };
    if base < 3000 { 3000 } else { base }
}

/// The deadline a request gets, in milliseconds: the one given, or 30 s,
/// and never under 3 s.
pub fn effective_timeout_ms(t: Option<u64>) -> (r: u64)
    ensures
        r == effective_timeout(t),
{
    let base = match t {
        Some(x) => x,
        None => DEFAULT_TIMEOUT_MS,
    };
    if base < MIN_TIMEOUT_MS { MIN_TIMEOUT_MS } else { base }
}

/// Whether reqwest's `Method` accepts a text as a method name.
pub uninterp spec fn method_accepted(s: Seq<char>) -> bool;

/// Relies on `reqwest::Method`'s `FromStr`: whether the text is a valid
/// method name.
#[verifier::external_body]
fn is_method(s: &str) -> (r: bool)
    ensures
        r == method_accepted(s@),
{
    s.parse::<reqwest::Method>().is_ok()
}

/// The method sent: the given one upper-cased, `GET` when absent or when
/// the upper-cased text is not a method name.
pub open spec fn method_for(m: Option<Seq<char>>) -> Seq<char> {
    match m {
        None => "GET"@,
        Some(x) => if method_accepted(upper_of(x)) { upper_of(x) } else { "GET"@ },
    }
}

/// The method sent for an upper-cased name, given whether it is a valid
/// method name.
pub fn method_or_get(upper: String, accepted: bool) -> (r: String)
    ensures
        r@ == (if accepted { upper@ } else { "GET"@ }),
{
    if accepted { upper } else { String::from_str("GET") }
}

/// The method sent for a descriptor's method.
pub fn normalize_method(m: &Option<String>) -> (r: String)
    ensures
        r@ == method_for(opt_text(*m)),
{
    match m {
        None => String::from_str("GET"),
        Some(x) => {
            let u = to_upper(x.as_str());
            let ok = is_method(u.as_str());
            method_or_get(u, ok)
        },
    }
}

/// Whether reqwest's `HeaderName` accepts a text as a header name.
pub uninterp spec fn header_name_accepted(s: Seq<char>) -> bool;

/// A character allowed in a header value: tab, or any character from space
/// on but DEL. Every byte of a non-ASCII character is above DEL.
pub open spec fn header_value_char(c: char) -> bool {
    c == '\t' || (32 <= (c as u32) && (c as u32) != 127)
}

/// Whether a text is a valid header value: every character is allowed.
pub open spec fn header_value_ok(s: Seq<char>) -> bool {
    forall|i: int| 0 <= i < s.len() ==> header_value_char(#[trigger] s[i])
}

/// Relies on `reqwest::header::HeaderName::from_bytes`: whether the text is
/// a valid header name.
#[verifier::external_body]
fn is_header_name(s: &str) -> (r: bool)
    ensures
        r == header_name_accepted(s@),
{
    reqwest::header::HeaderName::from_bytes(s.as_bytes()).is_ok()
}

/// Relies on `reqwest::header::HeaderValue::from_str`, which accepts a text
/// whose bytes are all a tab or from 32 on but 127.
#[verifier::external_body]
fn is_header_value(s: &str) -> (r: bool)
    ensures
        r == header_value_ok(s@),
{
    reqwest::header::HeaderValue::from_str(s).is_ok()
}

/// A header that can be sent.
pub open spec fn header_ok(h: (String, String)) -> bool {
    header_name_accepted(h.0@) && header_value_ok(h.1@)
}

/// A later sendable header has the same name as header `i`.
pub open spec fn overridden(hs: Seq<(String, String)>, i: int) -> bool {
    exists|j: int| i < j < hs.len() && header_ok(#[trigger] hs[j]) && hs[j].0@ == hs[i].0@
}

/// The headers sent: the sendable ones, in order, each name once with the
/// last value given for it.
pub open spec fn kept_headers(hs: Seq<(String, String)>) -> Seq<(String, String)>
    decreases hs.len(),
{
    if hs.len() == 0 {
        Seq::empty()
    } else if header_ok(hs[0]) && !overridden(hs, 0) {
        seq![hs[0]] + kept_headers(hs.drop_first())
    } else {
        kept_headers(hs.drop_first())
    }
}

proof fn lemma_overridden_shift(hs: Seq<(String, String)>, i: int)
    requires
        0 <= i < hs.len(),
    ensures
        overridden(hs.subrange(i, hs.len() as int), 0) == overridden(hs, i),
{
    let s = hs.subrange(i, hs.len() as int);
    if overridden(s, 0) {
        let j = choose|j: int| 0 < j < s.len() && header_ok(#[trigger] s[j]) && s[j].0@ == s[0].0@;
        assert(hs[i + j] == s[j]);
    }
    if overridden(hs, i) {
        let j = choose|j: int| i < j < hs.len() && header_ok(#[trigger] hs[j]) && hs[j].0@ == hs[i].0@;
        assert(s[j - i] == hs[j]);
    }
}

/// The headers sent for a descriptor's headers: invalid names or values
/// are dropped and, for a name given twice, the last value wins.
pub fn usable_headers(hs: &Vec<(String, String)>) -> (r: Vec<(String, String)>)
    ensures
        r@ == kept_headers(hs@),
{
    let n = hs.len();
    let mut oks: Vec<bool> = Vec::new();
    let mut k: usize = 0;
    while k < n
        invariant
            n == hs@.len(),
            k <= n,
            oks@.len() == k,
            forall|m: int| 0 <= m < k ==> oks@[m] == header_ok(hs@[m]),
        decreases n - k,
    {
        let ok = is_header_name(hs[k].0.as_str()) && is_header_value(hs[k].1.as_str());
        oks.push(ok);
        k = k + 1;
    }
    let mut out: Vec<(String, String)> = Vec::new();
    let mut i: usize = 0;
    assert(hs@.subrange(0, n as int) =~= hs@);
    while i < n
        invariant
            n == hs@.len(),
            oks@.len() == n,
            forall|m: int| 0 <= m < n ==> oks@[m] == header_ok(hs@[m]),
            i <= n,
            kept_headers(hs@) == out@ + kept_headers(hs@.subrange(i as int, n as int)),
        decreases n - i,
    {
        let ghost rest = hs@.subrange(i as int, n as int);
        assert(rest.drop_first() =~= hs@.subrange(i + 1, n as int));
        assert(rest[0] == hs@[i as int]);
        proof { lemma_overridden_shift(hs@, i as int); }
        let mut later = false;
        let mut j: usize = i + 1;
        while j < n
            invariant
                n == hs@.len(),
                oks@.len() == n,
                forall|m: int| 0 <= m < n ==> oks@[m] == header_ok(hs@[m]),
                i < j <= n,
                later == exists|m: int| i < m < j && header_ok(#[trigger] hs@[m]) && hs@[m].0@ == hs@[i as int].0@,
            decreases n - j,
        {
            if oks[j] && same_text(hs[j].0.as_str(), hs[i].0.as_str()) {
                later = true;
            }
            j = j + 1;
        }
        if oks[i] && !later {
            let h = (hs[i].0.clone(), hs[i].1.clone());
            assert(h == hs@[i as int]);
            out.push(h);
            assert(kept_headers(hs@) == out@ + kept_headers(hs@.subrange(i + 1, n as int)));
        }
        i = i + 1;
    }
    assert(hs@.subrange(n as int, n as int) =~= Seq::<(String, String)>::empty());
    assert(out@ + Seq::<(String, String)>::empty() =~= out@);
    out
}


/// Two characters are the same letter up to ASCII case, the second being
/// lower case.
pub open spec fn same_ignoring_case(c: char, lower: char) -> bool {
    c == lower || ('a' <= lower <= 'z' && (c as u32) + 32 == lower as u32)
}

/// The name `content-type`.
pub open spec fn content_type_name() -> Seq<char> {
    seq!['c', 'o', 'n', 't', 'e', 'n', 't', '-', 't', 'y', 'p', 'e']
}

/// Whether a header name is `Content-Type`, in any ASCII case.
pub open spec fn is_content_type(name: Seq<char>) -> bool {
    name.len() == content_type_name().len() && forall|i: int|
        0 <= i < name.len() ==> same_ignoring_case(#[trigger] name[i], content_type_name()[i])
}

/// Some header is `Content-Type`.
pub open spec fn has_content_type(hs: Seq<(String, String)>) -> bool {
    exists|i: int| 0 <= i < hs.len() && is_content_type((#[trigger] hs[i]).0@)
}

/// Whether a header name is `Content-Type`, in any ASCII case.
pub fn names_content_type(name: &str) -> (r: bool)
    ensures
        r == is_content_type(name@),
{
    let target: Vec<char> = vec!['c', 'o', 'n', 't', 'e', 'n', 't', '-', 't', 'y', 'p', 'e'];
    assert(target@ =~= content_type_name());
    let n = name.unicode_len();
    if n != target.len() {
        return false;
    }
    let mut i: usize = 0;
    while i < n
        invariant
            n == name@.len(),
            target@ == content_type_name(),
            n == target@.len(),
            i <= n,
            forall|k: int| 0 <= k < i ==> same_ignoring_case(#[trigger] name@[k], content_type_name()[k]),
        decreases n - i,
    {
        let c = name.get_char(i);
        let t = target[i];
        let same = c == t || ('a' <= t && t <= 'z' && (c as u32) + 32 == t as u32);
        if !same {
            return false;
        }
        i = i + 1;
    }
    true
}

/// Whether some header is `Content-Type`.
pub fn any_content_type(hs: &Vec<(String, String)>) -> (r: bool)
    ensures
        r == has_content_type(hs@),
{
    let mut i: usize = 0;
    while i < hs.len()
        invariant
            i <= hs@.len(),
            forall|k: int| 0 <= k < i ==> !is_content_type((#[trigger] hs@[k]).0@),
        decreases hs@.len() - i,
    {
        if names_content_type(hs[i].0.as_str()) {
            return true;
        }
        i = i + 1;
    }
    false
}

/// The header that types a JSON body.
fn json_content_type() -> (h: (String, String))
    ensures
        h.0@ == content_type_name(),
        h.1@ == "application/json"@,
{
    proof {
        reveal_strlit("content-type");
    }
    assert("content-type"@ =~= content_type_name());
    (String::from_str("content-type"), String::from_str("application/json"))
}

/// Where a request's parameters go.
#[derive(Debug, PartialEq, Eq)]
pub enum Payload {
    /// No parameters were given.
    Nothing,
    /// As URL query pairs, in order.
    Query(Vec<(String, String)>),
    /// As a JSON body.
    Json(String),
}

/// Whether parameters of `method` go into the URL query.
pub open spec fn is_query_method(method: Seq<char>) -> bool {
    method == "GET"@ || method == "DELETE"@
}

/// The query value of a parameter: a string as it is, any other value as
/// its JSON text.
pub open spec fn query_value(v: JsonValue) -> Seq<char> {
    match v {
        JsonValue::Str(s) => s@,
        _ => json_text(v),
    }
}

/// `pairs` are the query pairs for `params`, in order.
pub open spec fn query_pairs_fit(pairs: Seq<(String, String)>, params: Seq<(String, JsonValue)>) -> bool {
    &&& pairs.len() == params.len()
    &&& forall|i: int| 0 <= i < params.len() ==> (#[trigger] pairs[i]).0@ == params[i].0@ && pairs[i].1@
        == query_value(params[i].1)
}

/// `p` is where the parameters of a `method` request go: into the query for
/// `GET` and `DELETE`, into a JSON object body otherwise.
pub open spec fn payload_fits(p: Payload, method: Seq<char>, params: Option<Vec<(String, JsonValue)>>) -> bool {
    match params {
        None => p == Payload::Nothing,
        Some(ps) => if is_query_method(method) {
            p matches Payload::Query(pairs) && query_pairs_fit(pairs@, ps@)
        } else {
            p matches Payload::Json(body) && body@ == json_text(JsonValue::Object(ps))
        },
    }
}

/// The query pairs for named parameters: each name with its string value,
/// or with the JSON text of any other value.
pub fn query_pairs(params: &Vec<(String, JsonValue)>) -> (r: Vec<(String, String)>)
    ensures
        query_pairs_fit(r@, params@),
{
    let mut out: Vec<(String, String)> = Vec::new();
    let mut i: usize = 0;
    while i < params.len()
        invariant
            i <= params@.len(),
            out@.len() == i,
            forall|k: int| 0 <= k < i ==> (#[trigger] out@[k]).0@ == params@[k].0@ && out@[k].1@
                == query_value(params@[k].1),
        decreases params@.len() - i,
    {
        let value = match &params[i].1 {
            JsonValue::Str(s) => s.clone(),
            other => to_json_text(other),
        };
        out.push((params[i].0.clone(), value));
        i = i + 1;
    }
    out
}

/// Places the parameters of a `method` request.
pub fn place_params(method: &str, params: Option<Vec<(String, JsonValue)>>) -> (p: Payload)
    ensures
        payload_fits(p, method@, params),
{
    match params {
        None => Payload::Nothing,
        Some(ps) => {
            if same_text(method, "GET") || same_text(method, "DELETE") {
                Payload::Query(query_pairs(&ps))
            } else {
                let ghost ps0 = ps;
                let body = JsonValue::Object(ps);
                let text = to_json_text(&body);
                assert(body == JsonValue::Object(ps0));
                Payload::Json(text)
            }
        },
    }
}

/// The tag given, or `no-tag`.
pub open spec fn tag_for(t: Option<Seq<char>>) -> Seq<char> {
    match t {
        Some(x) => x,
        None => "no-tag"@,
    }
}

/// The tag given, or `no-tag`.
pub fn tag_of(tag: &Option<String>) -> (r: String)
    ensures
        r@ == tag_for(opt_text(*tag)),
{
    match tag {
        Some(t) => t.clone(),
        None => String::from_str("no-tag"),
    }
}

/// Everything needed to perform one request.
#[derive(Debug, PartialEq, Eq)]
pub struct RequestPlan {
    pub url: String,
    pub method: String,
    /// The request's deadline in milliseconds.
    pub timeout_ms: u64,
    pub headers: Vec<(String, String)>,
    pub payload: Payload,
    pub tag: String,
    /// The proxy configuration in effect, if any.
    pub proxy: Option<ProxyConfig>,
    pub http_version: HttpVersion,
}

/// The headers sent: the sendable given ones and, for a JSON body without a
/// `Content-Type` among them, `content-type: application/json` at the end.
pub open spec fn headers_fit(sent: Seq<(String, String)>, given: Option<Vec<(String, String)>>, json: bool) -> bool {
    let kept = match given {
        Some(hs) => kept_headers(hs@),
        None => Seq::empty(),
    };
    if json && !has_content_type(kept) {
        &&& sent.len() == kept.len() + 1
        &&& sent.drop_last() == kept
        &&& sent.last().0@ == content_type_name()
        &&& sent.last().1@ == "application/json"@
    } else {
        sent == kept
    }
}

/// `p` is the plan for `item` when the process-wide proxy is `global_proxy`.
pub open spec fn plan_fits(p: RequestPlan, item: RequestItem, global_proxy: Option<ProxyConfig>) -> bool {
    &&& p.url == item.url
    &&& p.method@ == method_for(opt_text(item.method))
    &&& p.timeout_ms == effective_timeout(item.timeout_ms)
    &&& headers_fit(p.headers@, item.headers, p.payload is Json)
    &&& payload_fits(p.payload, p.method@, item.params)
    &&& p.tag@ == tag_for(opt_text(item.tag))
    &&& p.proxy == if item.proxy is Some { item.proxy } else { global_proxy }
    &&& p.http_version == match item.http_version {
        Some(v) => v,
        None => HttpVersion::Auto,
    }
}

/// Derives the plan for a descriptor: the upper-cased method (or `GET`),
/// the deadline (given or 30 s, at least 3 s), the sendable headers, the
/// parameters as query pairs for `GET`/`DELETE` or as a JSON body otherwise
/// (typed `application/json` unless a `Content-Type` header is given),
/// the tag (or `no-tag`), the descriptor's proxy or else the process-wide
/// one, and the protocol mode (or `AUTO`).
pub fn plan_request(item: RequestItem, global_proxy: Option<ProxyConfig>) -> (p: RequestPlan)
    ensures
        plan_fits(p, item, global_proxy),
{
    let ghost item0 = item;
    let method = normalize_method(&item.method);
    let timeout_ms = effective_timeout_ms(item.timeout_ms);
    let mut headers = match &item.headers {
        Some(hs) => usable_headers(hs),
        None => Vec::new(),
    };
    let ghost kept = headers@;
    let payload = place_params(method.as_str(), item.params);
    let json = match &payload {
        Payload::Json(_) => true,
        _ => false,
    };
    if json && !any_content_type(&headers) {
        headers.push(json_content_type());
        assert(headers@.drop_last() =~= kept);
    }
    let tag = tag_of(&item.tag);
    let proxy = match item.proxy {
        Some(c) => Some(c),
        None => global_proxy,
    };
    let http_version = match item.http_version {
        Some(v) => v,
        None => HttpVersion::Auto,
    };
    assert(kept =~= match item0.headers {
        Some(hs) => kept_headers(hs@),
        None => Seq::empty(),
    });
    let p = RequestPlan { url: item.url, method, timeout_ms, headers, payload, tag, proxy, http_version };
    p
}

/// The client a planned request goes through: a fresh proxy-aware client
/// where a proxy configuration is in effect, `None` for the shared one. A
/// proxy that cannot be set up gives its `ProxyError` record instead.
pub fn client_for(plan: &RequestPlan) -> (r: Result<Option<reqwest::Client>, ResultRecord>)
    ensures
        plan.proxy is None ==> r == Ok::<Option<reqwest::Client>, ResultRecord>(None),
        plan.proxy matches Some(c) ==> (client_result(plan.url@, c) is Ok ==> (r matches Ok(x) && x is Some)),
        plan.proxy matches Some(c) ==> (client_result(plan.url@, c) matches Err(d) ==> (r matches Err(rec)
            && failure_is(rec, ErrorKind::ProxyError, proxy_error_message(d)) && meta_unattempted(rec.meta, plan.tag@))),
{
    match &plan.proxy {
        None => Ok(None),
        Some(c) => match create_client_with_proxy(plan.url.as_str(), c, &plan.http_version) {
            Ok(client) => Ok(Some(client)),
            Err(detail) => Err(proxy_error_record(detail.as_str(), plan.tag.as_str())),
        },
    }
}

/// The record of a finished attempt of `plan`: the outcome normalised as
/// `outcome_record` does, with the attempt's start and end (seconds and
/// nanoseconds since the Unix epoch), elapsed time and the plan's tag.
pub fn attempt_record(
    plan: &RequestPlan,
    outcome: SendOutcome,
    start_secs: i64,
    start_nanos: u32,
    end_secs: i64,
    end_nanos: u32,
    elapsed_us: u64,
) -> (r: ResultRecord)
    ensures
        outcome_fits(r, outcome, plan.timeout_ms as nat),
        timestamp_in_range(start_secs, start_nanos) && timestamp_in_range(end_secs, end_nanos)
            ==> exists|a: Seq<char>, b: Seq<char>| meta_is(r.meta, a + " -> "@ + b, seconds4(elapsed_us as nat), plan.tag@),
        !(timestamp_in_range(start_secs, start_nanos) && timestamp_in_range(end_secs, end_nanos))
            ==> meta_is(r.meta, Seq::empty(), seconds4(elapsed_us as nat), plan.tag@),
{
    let meta = request_meta(start_secs, start_nanos, end_secs, end_nanos, elapsed_us, plan.tag.as_str());
    outcome_record(outcome, plan.timeout_ms, meta)
}

/// A request never waits less than 3 s: a shorter deadline is raised to
/// 3 s, a longer one is kept.
pub proof fn lemma_timeout_floor(t: Option<u64>)
    ensures
        effective_timeout(t) >= 3000,
        forall|x: u64| t == Some(x) && x >= 3000 ==> effective_timeout(t) == x,
        forall|x: u64| t == Some(x) && x < 3000 ==> effective_timeout(t) == 3000,
{
}

/// For `GET` and `DELETE` the parameters become query pairs, one per
/// parameter and in the parameters' order, and no body is sent.
pub proof fn lemma_query_params_keep_order(p: Payload, method: Seq<char>, params: Vec<(String, JsonValue)>)
    requires
        is_query_method(method),
        payload_fits(p, method, Some(params)),
    ensures
        p matches Payload::Query(pairs) && pairs@.len() == params@.len() && forall|i: int| 0 <= i < params@.len()
            ==> (#[trigger] pairs@[i]).0@ == params@[i].0@ && pairs@[i].1@ == query_value(params@[i].1),
{
}

} // verus!
