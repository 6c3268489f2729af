//! Proxy configuration and resolution: whether a proxy applies to a target
//! URL, and which proxy URL (with embedded credentials) it goes through.

use vstd::prelude::*;
use crate::text::{contains, same_text, str_contains};

verus! {

/// Proxy settings for a request, or for the whole process.
#[derive(Clone, Debug, PartialEq, Eq)]
pub struct ProxyConfig {
    /// Proxy for `http` targets.
    pub http: Option<String>,
    /// Proxy for `https` targets.
    pub https: Option<String>,
    /// Proxy for every target; takes precedence over the two above.
    pub all: Option<String>,
    /// Host patterns that bypass the proxy: a substring of the host, or `*`.
    pub no_proxy: Option<Vec<String>>,
    pub username: Option<String>,
    pub password: Option<String>,
    /// Reserved.
    pub trust_env: Option<bool>,
}

/// The characters of an optional text.
pub open spec fn opt_text(o: Option<String>) -> Option<Seq<char>> {
    match o {
        Some(s) => Some(s@),
        None => None,
    }
}

/// The characters of an optional list of texts.
pub open spec fn opt_texts(o: Option<Vec<String>>) -> Option<Seq<Seq<char>>> {
    match o {
        Some(v) => Some(v@.map_values(|s: String| s@)),
        None => None,
    }
}

impl ProxyConfig {
    /// A configuration from all of its fields.
    pub fn new(
        http: Option<String>,
        https: Option<String>,
        all: Option<String>,
        no_proxy: Option<Vec<String>>,
        username: Option<String>,
        password: Option<String>,
        trust_env: Option<bool>,
    ) -> (r: Self)
        ensures
            r == (ProxyConfig { http, https, all, no_proxy, username, password, trust_env }),
    {
        ProxyConfig { http, https, all, no_proxy, username, password, trust_env }
    }

    /// One proxy for every target.
    pub fn from_url(
        proxy_url: String,
        username: Option<String>,
        password: Option<String>,
        trust_env: Option<bool>,
    ) -> (r: Self)
        ensures
            r == (ProxyConfig {
                http: None,
                https: None,
                all: Some(proxy_url),
                no_proxy: None,
                username,
                password,
                trust_env,
            }),
    {
        ProxyConfig { http: None, https: None, all: Some(proxy_url), no_proxy: None, username, password, trust_env }
    }

    /// One proxy per target scheme.
    pub fn from_dict(
        http: Option<String>,
        https: Option<String>,
        username: Option<String>,
        password: Option<String>,
        trust_env: Option<bool>,
    ) -> (r: Self)
        ensures
            r == (ProxyConfig { http, https, all: None, no_proxy: None, username, password, trust_env }),
    {
        ProxyConfig { http, https, all: None, no_proxy: None, username, password, trust_env }
    }
}

/// Whether `url::Url::parse` accepts a text.
pub uninterp spec fn url_parses(s: Seq<char>) -> bool;

/// The message of the `url::ParseError` that `url::Url::parse` gives for a
/// text that does not parse.
pub uninterp spec fn url_error_text(s: Seq<char>) -> Seq<char>;

/// The scheme that `url::Url::scheme` reports for a text that parses.
pub uninterp spec fn url_scheme(s: Seq<char>) -> Seq<char>;

/// The host that `url::Url::host_str` reports for a text that parses.
pub uninterp spec fn url_host(s: Seq<char>) -> Option<Seq<char>>;

/// The serialisation of a parsed URL after `url::Url::set_username`.
pub uninterp spec fn url_with_user(s: Seq<char>, user: Seq<char>) -> Seq<char>;

/// The serialisation of a parsed URL after `url::Url::set_username` and
/// `url::Url::set_password`.
pub uninterp spec fn url_with_user_password(s: Seq<char>, user: Seq<char>, password: Seq<char>) -> Seq<char>;

/// The parts of a URL that proxy resolution reads.
pub struct UrlParts {
    pub scheme: String,
    pub host: Option<String>,
}

/// Relies on `url::Url::parse`, `Url::scheme` and `Url::host_str`: whether
/// the text parses, and then its scheme and host.
#[verifier::external_body]
fn parse_url(s: &str) -> (r: Result<UrlParts, String>)
    ensures
        r is Ok <==> url_parses(s@),
        r matches Ok(p) ==> p.scheme@ == url_scheme(s@) && opt_text(p.host) == url_host(s@),
        r matches Err(e) ==> e@ == url_error_text(s@),
{
    match url::Url::parse(s) {
        Ok(u) => Ok(UrlParts { scheme: u.scheme().to_string(), host: u.host_str().map(|h| h.to_string()) }),
        Err(e) => Err(e.to_string()),
    }
}

/// Relies on `url::Url::parse`, `Url::set_username` and the URL's
/// serialisation; a refused username leaves the URL as parsed.
#[verifier::external_body]
fn set_url_user(s: &str, user: &str) -> (r: Result<String, String>)
    ensures
        r is Ok <==> url_parses(s@),
        r matches Ok(t) ==> t@ == url_with_user(s@, user@),
        r matches Err(e) ==> e@ == url_error_text(s@),
{
    let mut u = url::Url::parse(s).map_err(|e| e.to_string())?;
    let _ = u.set_username(user);
    Ok(u.to_string())
}

/// Relies on `url::Url::parse`, `Url::set_username`, `Url::set_password`
/// and the URL's serialisation; a refused part leaves the URL as it was.
#[verifier::external_body]
fn set_url_user_password(s: &str, user: &str, password: &str) -> (r: Result<String, String>)
    ensures
        r is Ok <==> url_parses(s@),
        r matches Ok(t) ==> t@ == url_with_user_password(s@, user@, password@),
        r matches Err(e) ==> e@ == url_error_text(s@),
{
    let mut u = url::Url::parse(s).map_err(|e| e.to_string())?;
    let _ = u.set_username(user);
    let _ = u.set_password(Some(password));
    Ok(u.to_string())
}

/// Some pattern is the wildcard `*`.
pub open spec fn has_wildcard(patterns: Seq<Seq<char>>) -> bool {
    exists|i: int| 0 <= i < patterns.len() && patterns[i] == "*"@
}

/// The host of `url` contains some pattern.
pub open spec fn host_matches(url: Seq<char>, patterns: Seq<Seq<char>>) -> bool {
    url_parses(url) && (url_host(url) matches Some(h) && exists|i: int|
        0 <= i < patterns.len() && contains(h, #[trigger] patterns[i]))
}

/// Whether a proxy applies to `url` under the no-proxy list.
pub open spec fn proxy_applies(url: Seq<char>, no_proxy: Option<Seq<Seq<char>>>) -> bool {
    match no_proxy {
        None => true,
        Some(p) => !has_wildcard(p) && !host_matches(url, p),
    }
}

fn any_wildcard(patterns: &Vec<String>) -> (r: bool)
    ensures
        r == has_wildcard(patterns@.map_values(|s: String| s@)),
{
    let ghost ps = patterns@.map_values(|s: String| s@);
    let mut i: usize = 0;
    while i < patterns.len()
        invariant
            ps == patterns@.map_values(|s: String| s@),
            i <= patterns@.len(),
            forall|k: int| 0 <= k < i ==> ps[k] != "*"@,
        decreases patterns@.len() - i,
    {
        if same_text(patterns[i].as_str(), "*") {
            assert(ps[i as int] == "*"@);
            return true;
        }
        i = i + 1;
    }
    false
}

fn any_contained(host: &str, patterns: &Vec<String>) -> (r: bool)
    ensures
        r == exists|i: int| 0 <= i < patterns@.len() && contains(host@, #[trigger] patterns@[i]@),
{
    let mut i: usize = 0;
    while i < patterns.len()
        invariant
            i <= patterns@.len(),
            forall|k: int| 0 <= k < i ==> !contains(host@, #[trigger] patterns@[k]@),
        decreases patterns@.len() - i,
    {
        if str_contains(host, patterns[i].as_str()) {
            return true;
        }
        i = i + 1;
    }
    false
}

/// Whether a proxy applies to `url`: not when some no-proxy pattern is `*`,
/// nor when the URL's host contains some pattern; otherwise, and where no
/// list is given or the URL has no parseable host, it does.
pub fn should_use_proxy(url: &str, no_proxy: &Option<Vec<String>>) -> (r: bool)
    ensures
        r == proxy_applies(url@, opt_texts(*no_proxy)),
{
    match no_proxy {
        None => true,
        Some(patterns) => {
            if any_wildcard(patterns) {
                return false;
            }
            match parse_url(url) {
                Err(_) => true,
                Ok(parts) => match parts.host {
                    None => true,
                    Some(h) => {
                        let found = any_contained(h.as_str(), patterns);
                        let ghost ps = patterns@.map_values(|s: String| s@);
                        proof {
                            if found {
                                let i = choose|i: int|
                                    0 <= i < patterns@.len() && contains(h@, #[trigger] patterns@[i]@);
                                assert(contains(h@, ps[i]));
                            } else {
                                assert forall|i: int| 0 <= i < ps.len() implies !contains(h@, #[trigger] ps[i]) by {
                                    assert(ps[i] == patterns@[i]@);
                                }
                            }
                        }
                        assert(found == exists|i: int| 0 <= i < ps.len() && contains(h@, #[trigger] ps[i]));
                        !found
                    },
                },
            }
        },
    }
}

/// Which kind of target a proxy serves.
#[derive(Clone, Copy, Debug, PartialEq, Eq, Structural)]
pub enum ProxyScope {
    All,
    Http,
    Https,
}

/// The proxy that a request goes through.
#[derive(Clone, Debug, PartialEq, Eq)]
pub struct ProxyRoute {
    pub scope: ProxyScope,
    pub url: String,
}

/// The proxy URL for `all`, with the credentials that are given; `None`
/// where credentials must be embedded and the proxy URL does not parse.
pub open spec fn all_proxy_url(all: Seq<char>, user: Option<Seq<char>>, password: Option<Seq<char>>) -> Option<Seq<char>> {
    match user {
        None => Some(all),
        Some(u) => if !url_parses(all) {
            None
        } else {
            match password {
                Some(p) => Some(url_with_user_password(all, u, p)),
                None => Some(url_with_user(all, u)),
            }
        },
    }
}

/// What resolution yields for `url` under `c`: the parser's message for a
/// URL that cannot be parsed where it must be, else the route or `None`.
pub open spec fn route_for(url: Seq<char>, c: ProxyConfig) -> Result<Option<(ProxyScope, Seq<char>)>, Seq<char>> {
    if !proxy_applies(url, opt_texts(c.no_proxy)) {
        Ok(None)
    } else if c.all is Some {
        match all_proxy_url(c.all->0@, opt_text(c.username), opt_text(c.password)) {
            Some(p) => Ok(Some((ProxyScope::All, p))),
            None => Err(url_error_text(c.all->0@)),
        }
    } else if !url_parses(url) {
        Err(url_error_text(url))
    } else if url_scheme(url) == "http"@ {
        match c.http {
            Some(p) => Ok(Some((ProxyScope::Http, p@))),
            None => Ok(None),
        }
    } else if url_scheme(url) == "https"@ {
        match c.https {
            Some(p) => Ok(Some((ProxyScope::Https, p@))),
            None => Ok(None),
        }
    } else {
        Ok(None)
    }
}

/// `r` is what resolution yields for `url` under `c`.
pub open spec fn route_fits(r: Result<Option<ProxyRoute>, String>, url: Seq<char>, c: ProxyConfig) -> bool {
    match route_for(url, c) {
        Err(d) => r matches Err(e) && e@ == d,
        Ok(None) => r == Ok::<Option<ProxyRoute>, String>(None),
        Ok(Some((scope, p))) => r matches Ok(Some(route)) && route.scope == scope && route.url@ == p,
    }
}

/// Decides which proxy a request to `url` goes through under `config`:
/// none where the no-proxy list says so; else `all`, with the username and
/// password embedded when given; else the proxy for the target's scheme.
/// A URL that must be parsed and is not gives the parser's message.
pub fn resolve_route(url: &str, config: &ProxyConfig) -> (r: Result<Option<ProxyRoute>, String>)
    ensures
        route_fits(r, url@, *config),
{
    if !should_use_proxy(url, &config.no_proxy) {
        return Ok(None);
    }
    match &config.all {
        Some(all) => {
            let proxy_url = match (&config.username, &config.password) {
                (Some(user), Some(pass)) => set_url_user_password(all.as_str(), user.as_str(), pass.as_str())?,
                (Some(user), None) => set_url_user(all.as_str(), user.as_str())?,
                _ => all.clone(),
            };
            Ok(Some(ProxyRoute { scope: ProxyScope::All, url: proxy_url }))
        },
        None => {
            let parts = parse_url(url)?;
            if same_text(parts.scheme.as_str(), "http") {
                match &config.http {
                    Some(p) => {
                        return Ok(Some(ProxyRoute { scope: ProxyScope::Http, url: p.clone() }));
                    },
                    None => {},
                }
            } else if same_text(parts.scheme.as_str(), "https") {
                match &config.https {
                    Some(p) => {
                        return Ok(Some(ProxyRoute { scope: ProxyScope::Https, url: p.clone() }));
                    },
                    None => {},
                }
            }
            Ok(None)
        },
    }
}

/// With a `*` among the no-proxy patterns no proxy applies, whatever the URL.
pub proof fn lemma_wildcard_bypasses_every_url(url: Seq<char>, patterns: Seq<Seq<char>>, i: int)
    requires
        0 <= i < patterns.len(),
        patterns[i] == "*"@,
    ensures
        !proxy_applies(url, Some(patterns)),
{
}

/// Without a no-proxy list a proxy applies to every URL.
pub proof fn lemma_no_list_means_proxy(url: Seq<char>)
    ensures
        proxy_applies(url, None),
{
}

/// Without a username, the route through `all` uses the proxy URL exactly
/// as configured.
pub proof fn lemma_no_credentials_keeps_proxy_url(url: Seq<char>, c: ProxyConfig)
    requires
        c.all is Some,
        c.username is None,
        proxy_applies(url, opt_texts(c.no_proxy)),
    ensures
        route_for(url, c) == Ok::<Option<(ProxyScope, Seq<char>)>, Seq<char>>(Some((ProxyScope::All, c.all->0@))),
{
}

} // verus!
