use rusty_req::{HttpVersion, SslVerify};

#[test]
fn version_names_parse_case_insensitively() {
    assert_eq!(HttpVersion::from_str("auto"), Ok(HttpVersion::Auto));
    assert_eq!(HttpVersion::from_str(""), Ok(HttpVersion::Auto));
    assert_eq!(HttpVersion::from_str("http1.1"), Ok(HttpVersion::Http1Only));
    assert_eq!(HttpVersion::from_str("Http1"), Ok(HttpVersion::Http1Only));
    assert_eq!(HttpVersion::from_str("HTTP2"), Ok(HttpVersion::Http2));
    assert_eq!(HttpVersion::from_str("force_http2"), Ok(HttpVersion::Http2PriorKnowledge));
    assert_eq!(HttpVersion::from_str("http2_only"), Ok(HttpVersion::Http2PriorKnowledge));
}

#[test]
fn unknown_version_is_rejected() {
    let e = HttpVersion::from_str("http3").unwrap_err();
    assert_eq!(e.given, "http3");
    assert_eq!(
        e.message(),
        "Invalid HTTP version: 'http3'. Valid values: AUTO, HTTP1_ONLY, HTTP2, HTTP2_PRIOR_KNOWLEDGE"
    );
}

#[test]
fn from_upper_reads_exact_names() {
    assert_eq!(HttpVersion::from_upper("HTTP1_ONLY"), Some(HttpVersion::Http1Only));
    assert_eq!(HttpVersion::from_upper("http1_only"), None);
}

#[test]
fn version_texts() {
    assert_eq!(HttpVersion::new(), HttpVersion::Auto);
    assert_eq!(HttpVersion::Http2PriorKnowledge.__str__(), "HTTP2_PRIOR_KNOWLEDGE");
    assert_eq!(HttpVersion::Http1Only.__repr__(), "HttpVersion.HTTP1_ONLY");
    assert_eq!(HttpVersion::Http1Only.description(), "Use only HTTP/1.1 (no HTTP/2)");
}

#[test]
fn version_capabilities() {
    assert!(HttpVersion::Auto.supports_http2());
    assert!(!HttpVersion::Http1Only.supports_http2());
    assert!(HttpVersion::Http2PriorKnowledge.is_http2_forced());
    assert!(!HttpVersion::Http2.is_http2_forced());
}

#[test]
fn ssl_verify_holds_its_flag() {
    assert!(SslVerify::new(true).get());
    assert!(!SslVerify::new(false).get());
}
