//! The protocol-negotiation mode of a request, and how it configures a
//! client builder.

use vstd::prelude::*;
use crate::client::{builder_faulty, builder_version_pref};
use crate::text::{same_text, to_upper, upper_of};

verus! {

/// How a client negotiates the HTTP version.
#[derive(Clone, Copy, Debug, PartialEq, Eq, Structural)]
pub enum HttpVersion {
    /// Negotiate the best version (the default).
    Auto,
    /// HTTP/1.1 only.
    Http1Only,
    /// Prefer HTTP/2, fall back to HTTP/1.1.
    Http2,
    /// HTTP/2 without fallback.
    Http2PriorKnowledge,
}

/// The version that an upper-cased name selects, if any.
pub open spec fn version_named(u: Seq<char>) -> Option<HttpVersion> {
    if u == "AUTO"@ || u == ""@ {
        Some(HttpVersion::Auto)
    } else if u == "HTTP1"@ || u == "HTTP1.1"@ || u == "HTTP1_ONLY"@ {
        Some(HttpVersion::Http1Only)
    } else if u == "HTTP2"@ {
        Some(HttpVersion::Http2)
    } else if u == "HTTP2_PRIOR_KNOWLEDGE"@ || u == "FORCE_HTTP2"@ || u == "HTTP2_ONLY"@ {
        Some(HttpVersion::Http2PriorKnowledge)
    } else {
        None
    }
}

/// A name that selects no version.
#[derive(Clone, Debug, PartialEq, Eq)]
pub struct InvalidHttpVersion {
    pub given: String,
}

impl InvalidHttpVersion {
    /// The message that explains the rejection.
    pub fn message(&self) -> (r: String)
        ensures
            r@ == "Invalid HTTP version: '"@ + self.given@
                + "'. Valid values: AUTO, HTTP1_ONLY, HTTP2, HTTP2_PRIOR_KNOWLEDGE"@,
    {
        let mut s = String::from_str("Invalid HTTP version: '");
        s.append(self.given.as_str());
        s.append("'. Valid values: AUTO, HTTP1_ONLY, HTTP2, HTTP2_PRIOR_KNOWLEDGE");
        s
    }
}

impl HttpVersion {
    pub open spec fn name(self) -> Seq<char> {
        match self {
            HttpVersion::Auto => "AUTO"@,
            HttpVersion::Http1Only => "HTTP1_ONLY"@,
            HttpVersion::Http2 => "HTTP2"@,
            HttpVersion::Http2PriorKnowledge => "HTTP2_PRIOR_KNOWLEDGE"@,
        }
    }

    pub open spec fn describe(self) -> Seq<char> {
        match self {
            HttpVersion::Auto => "Automatically negotiate the best HTTP version"@,
            HttpVersion::Http1Only => "Use only HTTP/1.1 (no HTTP/2)"@,
            HttpVersion::Http2 => "Prefer HTTP/2, fallback to HTTP/1.1 if needed"@,
            HttpVersion::Http2PriorKnowledge => "Force HTTP/2 without fallback (server must support HTTP/2)"@,
        }
    }

    /// The default mode.
    pub fn new() -> (r: Self)
        ensures
            r == HttpVersion::Auto,
    {
        HttpVersion::Auto
    }

    /// The mode's name.
    pub fn __str__(&self) -> (r: &'static str)
        ensures
            r@ == self.name(),
    {
        match self {
            HttpVersion::Auto => "AUTO",
            HttpVersion::Http1Only => "HTTP1_ONLY",
            HttpVersion::Http2 => "HTTP2",
            HttpVersion::Http2PriorKnowledge => "HTTP2_PRIOR_KNOWLEDGE",
        }
    }

    /// The mode's name, qualified by the type's.
    pub fn __repr__(&self) -> (r: String)
        ensures
            r@ == "HttpVersion."@ + self.name(),
    {
        let mut s = String::from_str("HttpVersion.");
        s.append(self.__str__());
        s
    }

    /// The mode that an already upper-cased name selects.
    pub fn from_upper(u: &str) -> (r: Option<HttpVersion>)
        ensures
            r == version_named(u@),
    {
        if same_text(u, "AUTO") || same_text(u, "") {
            Some(HttpVersion::Auto)
        } else if same_text(u, "HTTP1") || same_text(u, "HTTP1.1") || same_text(u, "HTTP1_ONLY") {
            Some(HttpVersion::Http1Only)
        } else if same_text(u, "HTTP2") {
            Some(HttpVersion::Http2)
        } else if same_text(u, "HTTP2_PRIOR_KNOWLEDGE") || same_text(u, "FORCE_HTTP2") || same_text(
            u,
            "HTTP2_ONLY",
        ) {
            Some(HttpVersion::Http2PriorKnowledge)
        } else {
            None
        }
    }

    /// Reads a mode from its name, ignoring case; the empty name is `AUTO`.
    pub fn from_str(s: &str) -> (r: Result<HttpVersion, InvalidHttpVersion>)
        ensures
            r matches Ok(v) ==> version_named(upper_of(s@)) == Some(v),
            r matches Err(e) ==> version_named(upper_of(s@)) is None && e.given@ == s@,
    {
        let u = to_upper(s);
        match HttpVersion::from_upper(u.as_str()) {
            Some(v) => Ok(v),
            None => Err(InvalidHttpVersion { given: String::from_str(s) }),
        }
    }

    /// A one-line description of the mode.
    pub fn description(&self) -> (r: &'static str)
        ensures
            r@ == self.describe(),
    {
        match self {
            HttpVersion::Auto => "Automatically negotiate the best HTTP version",
            HttpVersion::Http1Only => "Use only HTTP/1.1 (no HTTP/2)",
            HttpVersion::Http2 => "Prefer HTTP/2, fallback to HTTP/1.1 if needed",
            HttpVersion::Http2PriorKnowledge => "Force HTTP/2 without fallback (server must support HTTP/2)",
        }
    }

    /// Whether the mode may use HTTP/2.
    pub fn supports_http2(&self) -> (r: bool)
        ensures
            r == !(self == HttpVersion::Http1Only),
    {
        match self {
            HttpVersion::Auto | HttpVersion::Http2 | HttpVersion::Http2PriorKnowledge => true,
            HttpVersion::Http1Only => false,
        }
    }

    /// Whether the mode forces HTTP/2 without fallback.
    pub fn is_http2_forced(&self) -> (r: bool)
        ensures
            r == (self == HttpVersion::Http2PriorKnowledge),
    {
        matches!(self, HttpVersion::Http2PriorKnowledge)
    }

    /// Configures a client builder for the mode: `Http1Only` and
    /// `Http2PriorKnowledge` restrict it, the others leave negotiation as is.
    pub fn apply_to_builder(&self, builder: reqwest::ClientBuilder) -> (r: reqwest::ClientBuilder)
        ensures
            (self == HttpVersion::Auto || self == HttpVersion::Http2) ==> r == builder,
            self == HttpVersion::Http1Only ==> builder_version_pref(r) == 1,
            self == HttpVersion::Http2PriorKnowledge ==> builder_version_pref(r) == 2,
            builder_faulty(r) == builder_faulty(builder),
    {
        match self {
            HttpVersion::Auto => builder,
            HttpVersion::Http1Only => builder.http1_only(),
            HttpVersion::Http2 => builder,
            HttpVersion::Http2PriorKnowledge => builder.http2_prior_knowledge(),
        }
    }
}

} // verus!
