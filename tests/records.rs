use rusty_req::record::{
    global_timeout_record, meta_from_parts, outcome_record, proxy_error_record, seconds_text2, seconds_text4,
    status_is_success, unattempted_meta,
};
use rusty_req::{ErrorKind, Meta, ResponseData, SendOutcome};

fn meta(tag: &str) -> Meta {
    meta_from_parts("2024-01-01 00:00:00", "2024-01-01 00:00:01", 1_000_000, tag)
}

#[test]
fn not_found_keeps_body_and_reports_status_error() {
    let outcome = SendOutcome::Response {
        status: 404,
        headers: vec![("content-type".to_string(), "text/plain".to_string())],
        content: "missing".to_string(),
    };
    let r = outcome_record(outcome, 30000, meta("t"));
    assert_eq!(r.http_status, 404);
    assert_eq!(
        r.response,
        Some(ResponseData {
            headers: vec![("content-type".to_string(), "text/plain".to_string())],
            content: "missing".to_string(),
        })
    );
    let e = r.exception.unwrap();
    assert_eq!(e.kind, ErrorKind::HttpStatusError);
    assert_eq!(e.kind.as_text(), "HttpStatusError");
    assert_eq!(e.message, "HTTP status error: 404");
}

#[test]
fn success_status_has_no_exception() {
    let outcome = SendOutcome::Response { status: 200, headers: vec![], content: "ok".to_string() };
    let r = outcome_record(outcome, 30000, meta("t"));
    assert_eq!(r.http_status, 200);
    assert_eq!(r.exception, None);
    assert_eq!(r.response.unwrap().content, "ok");
    assert_eq!(r.meta.tag, "t");
}

#[test]
fn status_boundaries() {
    assert!(!status_is_success(199));
    assert!(status_is_success(200));
    assert!(status_is_success(299));
    assert!(!status_is_success(300));
}

#[test]
fn transport_failure_is_http_error() {
    let r = outcome_record(SendOutcome::Failed { detail: "connection refused".to_string() }, 30000, meta("t"));
    assert_eq!(r.http_status, 0);
    assert_eq!(r.response, None);
    let e = r.exception.unwrap();
    assert_eq!(e.kind, ErrorKind::HttpError);
    assert_eq!(e.message, "Request error: connection refused");
}

#[test]
fn own_deadline_is_timeout_with_seconds() {
    let r = outcome_record(SendOutcome::TimedOut, 3000, meta("t"));
    assert_eq!(r.http_status, 0);
    let e = r.exception.unwrap();
    assert_eq!(e.kind, ErrorKind::Timeout);
    assert_eq!(e.message, "Request timeout after 3.00 seconds");
}

#[test]
fn seconds_round_half_up() {
    assert_eq!(seconds_text2(1234), "1.23");
    assert_eq!(seconds_text2(1235), "1.24");
    assert_eq!(seconds_text2(999), "1.00");
    assert_eq!(seconds_text2(30000), "30.00");
    assert_eq!(seconds_text4(0), "0.0000");
    assert_eq!(seconds_text4(1_234_567), "1.2346");
    assert_eq!(seconds_text4(50), "0.0001");
    assert_eq!(seconds_text4(49), "0.0000");
}

#[test]
fn meta_joins_timestamps() {
    let m = meta_from_parts("A", "B", 2_500_000, "job");
    assert_eq!(m.request_time, "A -> B");
    assert_eq!(m.process_time, "2.5000");
    assert_eq!(m.tag, "job");
}

#[test]
fn proxy_error_record_makes_no_attempt() {
    let r = proxy_error_record("bad proxy", "job");
    assert_eq!(r.http_status, 0);
    assert_eq!(r.response, None);
    let e = r.exception.unwrap();
    assert_eq!(e.kind, ErrorKind::ProxyError);
    assert_eq!(e.message, "Proxy configuration error: bad proxy");
    assert_eq!(r.meta, unattempted_meta("job"));
    assert_eq!(r.meta.request_time, "");
    assert_eq!(r.meta.process_time, "0.0000");
}

#[test]
fn global_timeout_record_carries_tag() {
    let r = global_timeout_record("slow", 5000);
    assert_eq!(r.http_status, 0);
    let e = r.exception.unwrap();
    assert_eq!(e.kind, ErrorKind::GlobalTimeout);
    assert_eq!(e.kind.as_text(), "GlobalTimeout");
    assert_eq!(e.message, "Global timeout after 5.00 seconds");
    assert_eq!(r.meta.tag, "slow");
}

#[test]
fn error_kind_names() {
    assert_eq!(ErrorKind::ProxyError.as_text(), "ProxyError");
    assert_eq!(ErrorKind::HttpError.as_text(), "HttpError");
    assert_eq!(ErrorKind::Timeout.as_text(), "Timeout");
}

#[test]
fn local_timestamp_has_fixed_shape() {
    let s = rusty_req::format_datetime(1_700_000_000, 0).unwrap();
    assert_eq!(s.len(), 19);
    assert_eq!(&s[4..5], "-");
    assert_eq!(&s[10..11], " ");
    assert!(rusty_req::format_datetime(-86_400, 999_999_999).is_some());
}

#[test]
fn out_of_range_timestamps_are_not_rendered() {
    assert_eq!(rusty_req::format_datetime(i64::MAX, 0), None);
    assert_eq!(rusty_req::format_datetime(i64::MIN, 0), None);
    assert_eq!(rusty_req::format_datetime(0, 2_000_000_000), None);
}

#[test]
fn meta_without_renderable_times_is_empty() {
    let m = rusty_req::time::request_meta(i64::MAX, 0, 0, 0, 1_500_000, "t");
    assert_eq!(m.request_time, "");
    assert_eq!(m.process_time, "1.5000");
    assert_eq!(m.tag, "t");
    let m = rusty_req::time::request_meta(0, 0, 1, 0, 1_000_000, "t");
    assert!(m.request_time.contains(" -> "));
    assert_eq!(m.request_time.len(), 19 + 4 + 19);
}

#[test]
fn largest_durations_render_without_overflow() {
    assert_eq!(seconds_text2(u64::MAX), "18446744073709551.62");
    assert_eq!(seconds_text4(u64::MAX), "18446744073709.5516");
}
