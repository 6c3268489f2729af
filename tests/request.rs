use rusty_req::json::to_json_text;
use rusty_req::request::{
    client_for, effective_timeout_ms, method_or_get, names_content_type, normalize_method, place_params, query_pairs,
    usable_headers,
};
use rusty_req::text::{same_text, str_contains};
use rusty_req::{plan_request, ErrorKind, HttpVersion, JsonValue, Payload, ProxyConfig, RequestItem};

fn item(url: &str, method: Option<&str>) -> RequestItem {
    RequestItem::new(url.to_string(), method.map(|m| m.to_string()), None, None, None, None, None, None, None)
}

fn ab_params() -> Vec<(String, JsonValue)> {
    vec![
        ("a".to_string(), JsonValue::Number("1".to_string())),
        ("b".to_string(), JsonValue::Str("x".to_string())),
    ]
}

#[test]
fn timeout_is_floored_at_three_seconds() {
    assert_eq!(effective_timeout_ms(Some(1000)), 3000);
    assert_eq!(effective_timeout_ms(Some(3500)), 3500);
    assert_eq!(effective_timeout_ms(None), 30000);
    assert_eq!(effective_timeout_ms(Some(0)), 3000);
    assert_eq!(effective_timeout_ms(Some(u64::MAX)), u64::MAX);
}

#[test]
fn methods_are_upper_cased_or_fall_back_to_get() {
    assert_eq!(normalize_method(&Some("post".to_string())), "POST");
    assert_eq!(normalize_method(&Some("delete".to_string())), "DELETE");
    assert_eq!(normalize_method(&Some("purge".to_string())), "PURGE");
    assert_eq!(normalize_method(&Some("bad method".to_string())), "GET");
    assert_eq!(normalize_method(&Some("".to_string())), "GET");
    assert_eq!(normalize_method(&None), "GET");
    assert_eq!(method_or_get("PATCH".to_string(), true), "PATCH");
    assert_eq!(method_or_get("B A D".to_string(), false), "GET");
}

#[test]
fn invalid_headers_are_dropped_and_last_value_wins() {
    let hs = vec![
        ("X-A".to_string(), "1".to_string()),
        ("bad name".to_string(), "v".to_string()),
        ("X-B".to_string(), "line\nbreak".to_string()),
        ("X-A".to_string(), "2".to_string()),
        ("X-C".to_string(), "3".to_string()),
    ];
    assert_eq!(
        usable_headers(&hs),
        vec![("X-A".to_string(), "2".to_string()), ("X-C".to_string(), "3".to_string())]
    );
}

#[test]
fn invalid_later_duplicate_does_not_override() {
    let hs = vec![("X-A".to_string(), "1".to_string()), ("X-A".to_string(), "bad\r".to_string())];
    assert_eq!(usable_headers(&hs), vec![("X-A".to_string(), "1".to_string())]);
}

#[test]
fn get_params_become_query_pairs_in_order() {
    assert_eq!(query_pairs(&ab_params()), vec![("a".to_string(), "1".to_string()), ("b".to_string(), "x".to_string())]);
    assert_eq!(
        place_params("GET", Some(ab_params())),
        Payload::Query(vec![("a".to_string(), "1".to_string()), ("b".to_string(), "x".to_string())])
    );
}

#[test]
fn delete_params_become_query_pairs() {
    assert!(matches!(place_params("DELETE", Some(ab_params())), Payload::Query(_)));
}

#[test]
fn other_methods_send_a_json_body() {
    assert_eq!(place_params("POST", Some(ab_params())), Payload::Json("{\"a\":1,\"b\":\"x\"}".to_string()));
    assert_eq!(place_params("POST", None), Payload::Nothing);
}

#[test]
fn query_values_are_json_texts_without_outer_quotes() {
    let ps = vec![
        ("n".to_string(), JsonValue::Null),
        ("t".to_string(), JsonValue::Bool(true)),
        ("q".to_string(), JsonValue::Str("say \"hi\"".to_string())),
        ("l".to_string(), JsonValue::Array(vec![JsonValue::Number("1".to_string()), JsonValue::Str("z".to_string())])),
        ("e".to_string(), JsonValue::Str(String::new())),
    ];
    let out = query_pairs(&ps);
    let values: Vec<&str> = out.iter().map(|p| p.1.as_str()).collect();
    assert_eq!(values, vec!["null", "true", "say \"hi\"", "[1,\"z\"]", ""]);
}

#[test]
fn json_text_of_nested_values() {
    let v = JsonValue::Object(vec![
        ("k".to_string(), JsonValue::Array(vec![])),
        ("o".to_string(), JsonValue::Object(vec![("x".to_string(), JsonValue::Bool(false))])),
        ("s".to_string(), JsonValue::Str("a\\b\n".to_string())),
    ]);
    assert_eq!(to_json_text(&v), "{\"k\":[],\"o\":{\"x\":false},\"s\":\"a\\\\b\\n\"}");
    assert_eq!(to_json_text(&JsonValue::Object(vec![])), "{}");
}

#[test]
fn text_helpers() {
    assert!(str_contains("api.example.com", "example.com"));
    assert!(str_contains("abc", ""));
    assert!(!str_contains("abc", "abcd"));
    assert!(same_text("é", "é"));
    assert!(!same_text("a", "b"));
}

#[test]
fn plan_uses_defaults() {
    let p = plan_request(item("http://a.org/", None), None);
    assert_eq!(p.url, "http://a.org/");
    assert_eq!(p.method, "GET");
    assert_eq!(p.timeout_ms, 30000);
    assert_eq!(p.headers, vec![]);
    assert_eq!(p.payload, Payload::Nothing);
    assert_eq!(p.tag, "no-tag");
    assert_eq!(p.proxy, None);
    assert_eq!(p.http_version, HttpVersion::Auto);
}

#[test]
fn plan_of_get_with_params_and_global_proxy() {
    let global = ProxyConfig::from_url("http://proxy.local:1".to_string(), None, None, None);
    let it = RequestItem::new(
        "http://echo.local/get".to_string(),
        Some("get".to_string()),
        Some(ab_params()),
        Some(1000),
        Some("job".to_string()),
        Some(vec![("Accept".to_string(), "text/plain".to_string())]),
        None,
        Some(HttpVersion::Http2),
        Some(true),
    );
    let p = plan_request(it, Some(global.clone()));
    assert_eq!(p.method, "GET");
    assert_eq!(p.timeout_ms, 3000);
    assert_eq!(p.payload, Payload::Query(vec![("a".to_string(), "1".to_string()), ("b".to_string(), "x".to_string())]));
    assert_eq!(p.headers, vec![("Accept".to_string(), "text/plain".to_string())]);
    assert_eq!(p.tag, "job");
    assert_eq!(p.proxy, Some(global));
    assert_eq!(p.http_version, HttpVersion::Http2);
}

#[test]
fn request_proxy_overrides_global() {
    let own = ProxyConfig::from_url("http://own:1".to_string(), None, None, None);
    let global = ProxyConfig::from_url("http://global:1".to_string(), None, None, None);
    let mut it = item("http://a.org/", Some("post"));
    it.proxy = Some(own.clone());
    let p = plan_request(it, Some(global));
    assert_eq!(p.proxy, Some(own));
    assert_eq!(p.method, "POST");
}

#[test]
fn client_choice_follows_proxy() {
    let p = plan_request(item("http://a.org/", None), None);
    assert!(matches!(client_for(&p), Ok(None)));
    let c = ProxyConfig::from_url("http://proxy.local:1".to_string(), None, None, None);
    let p = plan_request(item("http://a.org/", None), Some(c));
    assert!(matches!(client_for(&p), Ok(Some(_))));
}

#[test]
fn unusable_proxy_gives_proxy_error_record() {
    let c = ProxyConfig::from_dict(Some("http://hp:1".to_string()), None, None, None, None);
    let mut it = item("not a url", None);
    it.tag = Some("bad".to_string());
    let p = plan_request(it, Some(c));
    let rec = client_for(&p).unwrap_err();
    assert_eq!(rec.http_status, 0);
    let e = rec.exception.unwrap();
    assert_eq!(e.kind, ErrorKind::ProxyError);
    assert!(e.message.starts_with("Proxy configuration error: "));
    assert_eq!(rec.meta.tag, "bad");
    assert_eq!(rec.meta.process_time, "0.0000");
}

#[test]
fn json_body_is_typed_unless_content_type_given() {
    let mut it = item("http://a.org/", Some("post"));
    it.params = Some(ab_params());
    it.headers = Some(vec![("X-A".to_string(), "1".to_string())]);
    let p = plan_request(it, None);
    assert_eq!(p.payload, Payload::Json("{\"a\":1,\"b\":\"x\"}".to_string()));
    assert_eq!(
        p.headers,
        vec![
            ("X-A".to_string(), "1".to_string()),
            ("content-type".to_string(), "application/json".to_string()),
        ]
    );

    let mut it = item("http://a.org/", Some("put"));
    it.params = Some(ab_params());
    it.headers = Some(vec![("CONTENT-Type".to_string(), "text/plain".to_string())]);
    let p = plan_request(it, None);
    assert_eq!(p.headers, vec![("CONTENT-Type".to_string(), "text/plain".to_string())]);
}

#[test]
fn query_and_empty_payloads_add_no_content_type() {
    let mut it = item("http://a.org/", Some("get"));
    it.params = Some(ab_params());
    assert_eq!(plan_request(it, None).headers, vec![]);
    assert_eq!(plan_request(item("http://a.org/", Some("post")), None).headers, vec![]);
}

#[test]
fn content_type_names_match_ignoring_ascii_case() {
    assert!(names_content_type("content-type"));
    assert!(names_content_type("Content-Type"));
    assert!(names_content_type("CONTENT-TYPE"));
    assert!(!names_content_type("content_type"));
    assert!(!names_content_type("content-typ"));
    assert!(!names_content_type("content-types"));
}

#[test]
fn string_values_ending_in_quotes_are_kept() {
    let ps = vec![("a".to_string(), JsonValue::Str("a\"b\"".to_string()))];
    assert_eq!(query_pairs(&ps), vec![("a".to_string(), "a\"b\"".to_string())]);
}

#[test]
fn header_values_allow_tab_and_non_ascii_but_not_del() {
    let hs = vec![
        ("X-A".to_string(), "caf\u{e9}\tok".to_string()),
        ("X-B".to_string(), "bad\u{7f}".to_string()),
    ];
    assert_eq!(usable_headers(&hs), vec![("X-A".to_string(), "caf\u{e9}\tok".to_string())]);
}

#[test]
fn refused_proxy_url_gives_proxy_error_record() {
    let c = ProxyConfig::from_url("not a url".to_string(), None, None, None);
    let p = plan_request(item("http://a.org/", None), Some(c));
    let rec = client_for(&p).unwrap_err();
    let e = rec.exception.unwrap();
    assert_eq!(e.kind, ErrorKind::ProxyError);
    assert!(e.message.starts_with("Proxy configuration error: builder error"));
}
