//! HTTP clients: the shared default client and the proxy-aware client built
//! for one request.

use vstd::prelude::*;
use crate::http_version::HttpVersion;
use crate::proxy::{resolve_route, route_for, ProxyConfig, ProxyRoute, ProxyScope};
use crate::request::header_value_ok;

verus! {

/// `reqwest::Client`, carried through opaquely.
#[verifier::external_type_specification]
#[verifier::external_body]
pub struct ExClient(reqwest::Client);

/// `reqwest::ClientBuilder`, carried through opaquely.
#[verifier::external_type_specification]
#[verifier::external_body]
pub struct ExClientBuilder(reqwest::ClientBuilder);

/// `reqwest::Proxy`, carried through opaquely.
#[verifier::external_type_specification]
#[verifier::external_body]
pub struct ExProxy(reqwest::Proxy);


/// The HTTP-version preference a `reqwest::ClientBuilder` holds: `0` for
/// negotiation (reqwest's default), `1` for HTTP/1 only, `2` for HTTP/2 only.
pub uninterp spec fn builder_version_pref(b: reqwest::ClientBuilder) -> nat;

/// Whether a `reqwest::ClientBuilder` holds a recorded configuration error,
/// which makes `build` fail.
pub uninterp spec fn builder_faulty(b: reqwest::ClientBuilder) -> bool;

/// Whether reqwest's `IntoProxyScheme` for a text accepts it as a proxy URL
/// (after trying an `http://` prefix where the scheme seems missing).
pub uninterp spec fn proxy_scheme_accepted(s: Seq<char>) -> bool;

/// The message of the error that reqwest's `IntoProxyScheme` gives for a
/// text that it does not accept.
pub uninterp spec fn proxy_scheme_error(s: Seq<char>) -> Seq<char>;

/// Relies on `reqwest::ClientBuilder::http1_only`, which sets the version
/// preference to HTTP/1 and touches nothing else.
pub assume_specification[ reqwest::ClientBuilder::http1_only ](b: reqwest::ClientBuilder) -> (r: reqwest::ClientBuilder)
    ensures
        builder_version_pref(r) == 1,
        builder_faulty(r) == builder_faulty(b),
;

/// Relies on `reqwest::ClientBuilder::http2_prior_knowledge`, which sets
/// the version preference to HTTP/2 and touches nothing else.
pub assume_specification[ reqwest::ClientBuilder::http2_prior_knowledge ](b: reqwest::ClientBuilder) -> (r: reqwest::ClientBuilder)
    ensures
        builder_version_pref(r) == 2,
        builder_faulty(r) == builder_faulty(b),
;

/// Relies on `reqwest::ClientBuilder::proxy`, which adds a proxy to the
/// builder and leaves the version preference and any error as they were.
pub assume_specification[ reqwest::ClientBuilder::proxy ](b: reqwest::ClientBuilder, proxy: reqwest::Proxy) -> (r: reqwest::ClientBuilder)
    ensures
        builder_version_pref(r) == builder_version_pref(b),
        builder_faulty(r) == builder_faulty(b),
;

/// The user agent of every client.
pub const USER_AGENT: &'static str = "Rust/1.88.0 (6b00bc388) reqwest/0.11.27";

/// The client-level timeout in milliseconds.
pub const CLIENT_TIMEOUT_MS: u64 = 30000;

/// Relies on `reqwest::Client::builder` (negotiating versions, no error),
/// `ClientBuilder::timeout` (no error) and `ClientBuilder::user_agent`,
/// which records an error when the text is not a valid header value. With
/// the crate's `gzip`, `brotli` and `deflate` features, the builder
/// decompresses those encodings by default.
#[verifier::external_body]
fn client_builder(timeout_ms: u64, user_agent: &str) -> (r: reqwest::ClientBuilder)
    ensures
        builder_version_pref(r) == 0,
        builder_faulty(r) == !header_value_ok(user_agent@),
{
    reqwest::Client::builder().timeout(std::time::Duration::from_millis(timeout_ms)).user_agent(user_agent)
}

/// Relies on `reqwest::Proxy::all`: a proxy for every target, or the
/// error's message; both are decided by `IntoProxyScheme` on the text.
#[verifier::external_body]
fn proxy_for_all(url: &str) -> (r: Result<reqwest::Proxy, String>)
    ensures
        r is Ok <==> proxy_scheme_accepted(url@),
        r matches Err(e) ==> e@ == proxy_scheme_error(url@),
{
    reqwest::Proxy::all(url).map_err(|e| e.to_string())
}

/// Relies on `reqwest::Proxy::http`: a proxy for `http` targets, or the
/// error's message; both are decided by `IntoProxyScheme` on the text.
#[verifier::external_body]
fn proxy_for_http(url: &str) -> (r: Result<reqwest::Proxy, String>)
    ensures
        r is Ok <==> proxy_scheme_accepted(url@),
        r matches Err(e) ==> e@ == proxy_scheme_error(url@),
{
    reqwest::Proxy::http(url).map_err(|e| e.to_string())
}

/// Relies on `reqwest::Proxy::https`: a proxy for `https` targets, or the
/// error's message; both are decided by `IntoProxyScheme` on the text.
#[verifier::external_body]
fn proxy_for_https(url: &str) -> (r: Result<reqwest::Proxy, String>)
    ensures
        r is Ok <==> proxy_scheme_accepted(url@),
        r matches Err(e) ==> e@ == proxy_scheme_error(url@),
{
    reqwest::Proxy::https(url).map_err(|e| e.to_string())
}

/// Relies on `reqwest::ClientBuilder::build`: the client, or the error's
/// message. With the settings this library's items can make (rustls with
/// its built-in roots, no custom certificates, identity or TLS versions),
/// it fails only on a recorded configuration error.
#[verifier::external_body]
fn build_client(b: reqwest::ClientBuilder) -> (r: Result<reqwest::Client, String>)
    ensures
        r is Ok <==> !builder_faulty(b),
{
    b.build().map_err(|e| e.to_string())
}

/// The fixed user agent is a valid header value.
proof fn lemma_user_agent_is_valid()
    ensures
        header_value_ok(USER_AGENT@),
{
    reveal_strlit("Rust/1.88.0 (6b00bc388) reqwest/0.11.27");
    assert(USER_AGENT@ =~= seq![
        'R', 'u', 's', 't', '/', '1', '.', '8', '8', '.', '0', ' ', '(', '6', 'b', '0', '0', 'b', 'c', '3', '8',
        '8', ')', ' ', 'r', 'e', 'q', 'w', 'e', 's', 't', '/', '0', '.', '1', '1', '.', '2', '7',
    ]);
}

/// The shared client that requests without a proxy go through.
pub fn default_client() -> (r: Result<reqwest::Client, String>)
    ensures
        r is Ok,
{
    proof { lemma_user_agent_is_valid(); }
    build_client(client_builder(CLIENT_TIMEOUT_MS, USER_AGENT))
}

fn proxy_of(route: &ProxyRoute) -> (r: Result<reqwest::Proxy, String>)
    ensures
        r is Ok <==> proxy_scheme_accepted(route.url@),
        r matches Err(e) ==> e@ == proxy_scheme_error(route.url@),
{
    match route.scope {
        ProxyScope::All => proxy_for_all(route.url.as_str()),
        ProxyScope::Http => proxy_for_http(route.url.as_str()),
        ProxyScope::Https => proxy_for_https(route.url.as_str()),
    }
}

/// Whether a client for `url` under `c` can be built: `Ok` where the route
/// resolves and reqwest accepts its proxy URL; else the message of the
/// first refusal.
pub open spec fn client_result(url: Seq<char>, c: ProxyConfig) -> Result<(), Seq<char>> {
    match route_for(url, c) {
        Err(d) => Err(d),
        Ok(None) => Ok(()),
        Ok(Some((_, p))) => if proxy_scheme_accepted(p) { Ok(()) } else { Err(proxy_scheme_error(p)) },
    }
}

/// Builds a fresh client for a request to `url` under `proxy_config`,
/// configured for `http_version` and routed as `resolve_route` decides. It
/// fails, with the refusal's message, where the route cannot be resolved
/// or reqwest does not accept the proxy URL.
pub fn create_client_with_proxy(
    url: &str,
    proxy_config: &ProxyConfig,
    http_version: &HttpVersion,
) -> (r: Result<reqwest::Client, String>)
    ensures
        client_result(url@, *proxy_config) is Ok ==> r is Ok,
        client_result(url@, *proxy_config) matches Err(d) ==> (r matches Err(e) && e@ == d),
{
    let route = resolve_route(url, proxy_config)?;
    proof { lemma_user_agent_is_valid(); }
    let mut builder = http_version.apply_to_builder(client_builder(CLIENT_TIMEOUT_MS, USER_AGENT));
    match route {
        Some(route) => {
            let proxy = proxy_of(&route)?;
            builder = builder.proxy(proxy);
        },
        None => {},
    }
    build_client(builder)
}

} // verus!
