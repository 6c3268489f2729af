//! Result records: the uniform outcome of one request attempt, and the
//! functions that turn each way an attempt can end into one.

use vstd::prelude::*;
use crate::text::{decimal, div_round, div_round_u64, fixed_point, push_decimal, push_fixed2, push_fixed4};

verus! {

/// The closed set of failure kinds a record can carry.
#[derive(Clone, Copy, Debug, PartialEq, Eq, Structural)]
pub enum ErrorKind {
    /// The proxy URL or the proxy-aware client could not be built.
    ProxyError,
    /// The transport failed while sending.
    HttpError,
    /// A response arrived with a status outside the success range.
    HttpStatusError,
    /// The request's own deadline passed.
    Timeout,
    /// The batch deadline passed before this request finished.
    GlobalTimeout,
}

impl ErrorKind {
    /// The name under which the kind is reported.
    pub open spec fn name(self) -> Seq<char> {
        match self {
            ErrorKind::ProxyError => "ProxyError"@,
            ErrorKind::HttpError => "HttpError"@,
            ErrorKind::HttpStatusError => "HttpStatusError"@,
            ErrorKind::Timeout => "Timeout"@,
            ErrorKind::GlobalTimeout => "GlobalTimeout"@,
        }
    }

    /// The name under which the kind is reported.
    pub fn as_text(&self) -> (r: String)
        ensures
            r@ == self.name(),
    {
        match self {
            ErrorKind::ProxyError => String::from_str("ProxyError"),
            ErrorKind::HttpError => String::from_str("HttpError"),
            ErrorKind::HttpStatusError => String::from_str("HttpStatusError"),
            ErrorKind::Timeout => String::from_str("Timeout"),
            ErrorKind::GlobalTimeout => String::from_str("GlobalTimeout"),
        }
    }
}

/// A failure carried by a record: its kind and a human-readable message.
#[derive(Clone, Debug, PartialEq, Eq)]
pub struct RequestError {
    pub kind: ErrorKind,
    pub message: String,
}

/// What was received: response headers, flattened to name/value pairs, and
/// the body text.
#[derive(Clone, Debug, PartialEq, Eq)]
pub struct ResponseData {
    pub headers: Vec<(String, String)>,
    pub content: String,
}

/// Timing and labelling of an attempt.
#[derive(Clone, Debug, PartialEq, Eq)]
pub struct Meta {
    /// `"<start> -> <end>"`, or empty where no attempt was made.
    pub request_time: String,
    /// Elapsed seconds with four decimals.
    pub process_time: String,
    pub tag: String,
}

/// The outcome of one request attempt. A status of `0` means that no
/// response was obtained; `response` is then `None` and `exception` says why.
#[derive(Clone, Debug, PartialEq, Eq)]
pub struct ResultRecord {
    pub http_status: u16,
    pub response: Option<ResponseData>,
    pub exception: Option<RequestError>,
    pub meta: Meta,
}

/// How a send ended, as observed by the caller that performed it.
#[derive(Clone, Debug, PartialEq, Eq)]
pub enum SendOutcome {
    /// A response arrived, with any status.
    Response { status: u16, headers: Vec<(String, String)>, content: String },
    /// The transport failed; `detail` describes the failure.
    Failed { detail: String },
    /// The request's own deadline passed first.
    TimedOut,
}

/// Whether a status code is in the success range.
pub open spec fn is_success(status: u16) -> bool {
    200 <= status < 300
}

/// Seconds with two decimals for a duration in milliseconds.
pub open spec fn seconds2(ms: nat) -> Seq<char> {
    fixed_point(div_round(ms, 10), 2)
}

/// Seconds with four decimals for a duration in microseconds.
pub open spec fn seconds4(us: nat) -> Seq<char> {
    fixed_point(div_round(us, 100), 4)
}

pub open spec fn proxy_error_message(detail: Seq<char>) -> Seq<char> {
    "Proxy configuration error: "@ + detail
}

pub open spec fn send_error_message(detail: Seq<char>) -> Seq<char> {
    "Request error: "@ + detail
}

pub open spec fn status_error_message(status: u16) -> Seq<char> {
    "HTTP status error: "@ + decimal(status as nat)
}

pub open spec fn timeout_message(timeout_ms: nat) -> Seq<char> {
    "Request timeout after "@ + seconds2(timeout_ms) + " seconds"@
}

pub open spec fn global_timeout_message(total_ms: nat) -> Seq<char> {
    "Global timeout after "@ + seconds2(total_ms) + " seconds"@
}

/// `m` holds exactly these texts.
pub open spec fn meta_is(m: Meta, request_time: Seq<char>, process_time: Seq<char>, tag: Seq<char>) -> bool {
    m.request_time@ == request_time && m.process_time@ == process_time && m.tag@ == tag
}

/// The meta of a record for which no attempt was made.
pub open spec fn meta_unattempted(m: Meta, tag: Seq<char>) -> bool {
    meta_is(m, Seq::empty(), fixed_point(0, 4), tag)
}

/// `r` records a failure of this kind and message, with no response.
pub open spec fn failure_is(r: ResultRecord, kind: ErrorKind, message: Seq<char>) -> bool {
    &&& r.http_status == 0
    &&& r.response is None
    &&& r.exception matches Some(e) && e.kind == kind && e.message@ == message
}

/// `r` is the synthesized record of a request abandoned at the batch deadline.
pub open spec fn is_global_timeout(r: ResultRecord, tag: Seq<char>, total_ms: nat) -> bool {
    failure_is(r, ErrorKind::GlobalTimeout, global_timeout_message(total_ms)) && meta_unattempted(r.meta, tag)
}

/// The record that `outcome` leads to, given the request's deadline.
pub open spec fn outcome_fits(r: ResultRecord, outcome: SendOutcome, timeout_ms: nat) -> bool {
    match outcome {
        SendOutcome::Response { status, headers, content } => {
            &&& r.http_status == status
            &&& r.response == Some(ResponseData { headers, content })
            &&& is_success(status) ==> r.exception is None
            &&& !is_success(status) ==> (r.exception matches Some(e) && e.kind == ErrorKind::HttpStatusError
                && e.message@ == status_error_message(status))
        },
        SendOutcome::Failed { detail } => failure_is(r, ErrorKind::HttpError, send_error_message(detail@)),
        SendOutcome::TimedOut => failure_is(r, ErrorKind::Timeout, timeout_message(timeout_ms)),
    }
}

/// Whether a status code is in the success range (`2xx`).
pub fn status_is_success(status: u16) -> (r: bool)
    ensures
        r == is_success(status),
{
    200 <= status && status < 300
}

/// Seconds with two decimals, rounded half up, for a duration in milliseconds.
pub fn seconds_text2(ms: u64) -> (r: String)
    ensures
        r@ == seconds2(ms as nat),
{
    let mut s = String::new();
    push_fixed2(&mut s, div_round_u64(ms, 10));
    s
}

/// Seconds with four decimals, rounded half up, for a duration in microseconds.
pub fn seconds_text4(us: u64) -> (r: String)
    ensures
        r@ == seconds4(us as nat),
{
    let mut s = String::new();
    push_fixed4(&mut s, div_round_u64(us, 100));
    s
}

/// Meta from the two rendered timestamps, the elapsed microseconds and the tag.
pub fn meta_from_parts(start: &str, end: &str, elapsed_us: u64, tag: &str) -> (m: Meta)
    ensures
        meta_is(m, start@ + " -> "@ + end@, seconds4(elapsed_us as nat), tag@),
{
    let mut request_time = String::from_str(start);
    request_time.append(" -> ");
    request_time.append(end);
    Meta { request_time, process_time: seconds_text4(elapsed_us), tag: String::from_str(tag) }
}

/// Meta without timestamps, for instants that cannot be rendered.
pub fn meta_without_times(elapsed_us: u64, tag: &str) -> (m: Meta)
    ensures
        meta_is(m, Seq::empty(), seconds4(elapsed_us as nat), tag@),
{
    Meta { request_time: String::new(), process_time: seconds_text4(elapsed_us), tag: String::from_str(tag) }
}

/// Meta of a record for which no network attempt was made.
pub fn unattempted_meta(tag: &str) -> (m: Meta)
    ensures
        meta_unattempted(m, tag@),
{
    let mut process_time = String::new();
    push_fixed4(&mut process_time, 0);
    Meta { request_time: String::new(), process_time, tag: String::from_str(tag) }
}

fn failure(kind: ErrorKind, message: String, meta: Meta) -> (r: ResultRecord)
    ensures
        failure_is(r, kind, message@),
        r.meta == meta,
{
    ResultRecord { http_status: 0, response: None, exception: Some(RequestError { kind, message }), meta }
}

/// The record of a request whose proxy could not be set up; no network
/// attempt was made.
pub fn proxy_error_record(detail: &str, tag: &str) -> (r: ResultRecord)
    ensures
        failure_is(r, ErrorKind::ProxyError, proxy_error_message(detail@)),
        meta_unattempted(r.meta, tag@),
{
    let mut message = String::from_str("Proxy configuration error: ");
    message.append(detail);
    failure(ErrorKind::ProxyError, message, unattempted_meta(tag))
}

/// The record that stands for a request abandoned at the batch deadline.
pub fn global_timeout_record(tag: &str, total_ms: u64) -> (r: ResultRecord)
    ensures
        is_global_timeout(r, tag@, total_ms as nat),
{
    let mut message = String::from_str("Global timeout after ");
    message.append(seconds_text2(total_ms).as_str());
    message.append(" seconds");
    failure(ErrorKind::GlobalTimeout, message, unattempted_meta(tag))
}

/// Normalises the end of a send into a record: any response keeps its
/// status, headers and body, and a status outside `2xx` adds an
/// `HttpStatusError`; a transport failure or the request's own deadline
/// gives status `0` and no response.
pub fn outcome_record(outcome: SendOutcome, timeout_ms: u64, meta: Meta) -> (r: ResultRecord)
    ensures
        outcome_fits(r, outcome, timeout_ms as nat),
        r.meta == meta,
{
    match outcome {
        SendOutcome::Response { status, headers, content } => {
            let exception = if status_is_success(status) {
                None
            } else {
                let mut message = String::from_str("HTTP status error: ");
                push_decimal(&mut message, status as u64);
                Some(RequestError { kind: ErrorKind::HttpStatusError, message })
            };
            ResultRecord { http_status: status, response: Some(ResponseData { headers, content }), exception, meta }
        },
        SendOutcome::Failed { detail } => {
            let mut message = String::from_str("Request error: ");
            message.append(detail.as_str());
            failure(ErrorKind::HttpError, message, meta)
        },
        SendOutcome::TimedOut => {
            let mut message = String::from_str("Request timeout after ");
            message.append(seconds_text2(timeout_ms).as_str());
            message.append(" seconds");
            failure(ErrorKind::Timeout, message, meta)
        },
    }
}

/// A response outside `2xx` keeps its status, headers and body, and is
/// reported as an `HttpStatusError` rather than a transport failure.
pub proof fn lemma_error_status_keeps_response(
    r: ResultRecord,
    status: u16,
    headers: Vec<(String, String)>,
    content: String,
    timeout_ms: nat,
)
    requires
        outcome_fits(r, SendOutcome::Response { status, headers, content }, timeout_ms),
        !is_success(status),
    ensures
        r.http_status == status,
        r.response == Some(ResponseData { headers, content }),
        r.exception matches Some(e) && e.kind == ErrorKind::HttpStatusError && e.kind != ErrorKind::HttpError,
{
}

} // verus!
