//! What the gateway adds around a handler on the TLS side: the redirect to
//! the canonical host before it, and the hardening of its response after it.
//! Also the redirect that the plain listener answers with.

use vstd::prelude::*;
use crate::config::{Server, ServerView};
use crate::headers::{
    add_if_absent, bytes_of, first_text, has_room, header_count, header_entries, header_text,
    is_visible_text, lemma_visible_text_is_value, set_header, set_if_absent, MAX_HEADER_NAMES,
};
use crate::proxy::{path_and_query, with_query};
use crate::text::{
    before_char, before_first, decimal, decimal_text, lemma_decimal_is_digits, text_eq,
};
use axum::http::HeaderMap;

verus! {

/// Where a request is sent instead, and with which status.
#[derive(Debug, Clone, PartialEq, Eq)]
pub struct Redirect {
    pub status: u16,
    pub location: String,
}

/// `Redirect` as the contracts see it.
pub struct RedirectView {
    pub status: u16,
    pub location: Seq<char>,
}

impl View for Redirect {
    type V = RedirectView;

    open spec fn view(&self) -> RedirectView {
        RedirectView { status: self.status, location: self.location@ }
    }
}

/// The host a request names, without its port: the first value of `Host`
/// up to its first colon, where that value is visible.
pub open spec fn inbound_host(h: Map<Seq<char>, Seq<Seq<u8>>>) -> Option<Seq<char>> {
    match first_text(h, "host"@) {
        Some(host) => Some(before_first(host, ':')),
        None => None,
    }
}

/// The host that `headers` name, without its port.
pub fn request_host(headers: &HeaderMap) -> (r: Option<String>)
    ensures
        match r {
            Some(host) => inbound_host(header_entries(*headers)) == Some(host@),
            None => inbound_host(header_entries(*headers)) is None,
        },
{
    proof {
        reveal_strlit("host");
    }
    match header_text(headers, "host") {
        Some(host) => Some(before_char(host.as_str(), ':')),
        None => None,
    }
}

/// `https://`, the host, and the path with its query.
pub open spec fn https_location(host: Seq<char>, path: Seq<char>, query: Option<Seq<char>>) -> Seq<
    char,
> {
    "https://"@ + host + path_and_query(path, query)
}

fn https_url(host: &str, path: &str, query: Option<&str>) -> (r: String)
    ensures
        r@ == https_location(
            host@,
            path@,
            match query {
                Some(q) => Some(q@),
                None => None,
            },
        ),
{
    let mut out = "https://".to_owned();
    out.append(host);
    let tail = with_query(path.to_owned(), query);
    out.append(tail.as_str());
    proof {
        let q = match query {
            Some(q) => Some(q@),
            None => None,
        };
        assert(out@ =~= "https://"@ + host@ + path_and_query(path@, q));
    }
    out
}

/// The redirect that a request meets where it names a host other than the
/// canonical one: permanent, to the same path and query on the canonical host.
pub open spec fn canonical_redirect(
    canonical: Seq<char>,
    h: Map<Seq<char>, Seq<Seq<u8>>>,
    path: Seq<char>,
    query: Option<Seq<char>>,
) -> Option<RedirectView> {
    match inbound_host(h) {
        Some(host) => if host != canonical {
            Some(RedirectView { status: 308, location: https_location(canonical, path, query) })
        } else {
            None
        },
        None => None,
    }
}

/// Decides whether a request goes on to its handler (`None`) or is sent to
/// the canonical host.
pub fn canonical_host_mw(
    canonical: &str,
    headers: &HeaderMap,
    path: &str,
    query: Option<&str>,
) -> (r: Option<Redirect>)
    ensures
        match r {
            Some(redirect) => canonical_redirect(
                canonical@,
                header_entries(*headers),
                path@,
                match query {
                    Some(q) => Some(q@),
                    None => None,
                },
            ) == Some(redirect@),
            None => canonical_redirect(
                canonical@,
                header_entries(*headers),
                path@,
                match query {
                    Some(q) => Some(q@),
                    None => None,
                },
            ) is None,
        },
{
    match request_host(headers) {
        Some(host) => {
            if !text_eq(host.as_str(), canonical) {
                Some(Redirect { status: 308, location: https_url(canonical, path, query) })
            } else {
                None
            }
        },
        None => None,
    }
}

/// The host that plain requests are sent to where nothing names one.
pub open spec fn fallback_host() -> Seq<char> {
    "luciuz.com"@
}

/// Where the plain listener sends a request: to the canonical host where one
/// is configured, else to the host the request names.
pub open spec fn https_redirect(
    canonical: Option<Seq<char>>,
    h: Map<Seq<char>, Seq<Seq<u8>>>,
    path: Seq<char>,
    query: Option<Seq<char>>,
) -> RedirectView {
    let host = match canonical {
        Some(c) => c,
        None => match inbound_host(h) {
            Some(host) => host,
            None => fallback_host(),
        },
    };
    RedirectView { status: 301, location: https_location(host, path, query) }
}

/// The answer of the plain listener to anything but a certificate challenge.
pub fn http_to_https_redirect(
    canonical_host: Option<&str>,
    headers: &HeaderMap,
    path: &str,
    query: Option<&str>,
) -> (r: Redirect)
    ensures
        r@ == https_redirect(
            match canonical_host {
                Some(c) => Some(c@),
                None => None,
            },
            header_entries(*headers),
            path@,
            match query {
                Some(q) => Some(q@),
                None => None,
            },
        ),
{
    let location = match canonical_host {
        Some(c) => https_url(c, path, query),
        None => match request_host(headers) {
            Some(host) => https_url(host.as_str(), path, query),
            None => https_url("luciuz.com", path, query),
        },
    };
    Redirect { status: 301, location }
}

/// The value of `Strict-Transport-Security`: the age, then each directive
/// that is switched on.
pub open spec fn hsts_text(max_age: u64, include_subdomains: bool, preload: bool) -> Seq<char> {
    "max-age="@ + decimal(max_age as nat) + (if include_subdomains {
        "; includeSubDomains"@
    } else {
        Seq::<char>::empty()
    }) + (if preload {
        "; preload"@
    } else {
        Seq::<char>::empty()
    })
}

/// The value of `Strict-Transport-Security` can always stand in a header.
pub proof fn lemma_hsts_text_is_visible(max_age: u64, include_subdomains: bool, preload: bool)
    ensures
        is_visible_text(hsts_text(max_age, include_subdomains, preload)),
{
    reveal_strlit("max-age=");
    reveal_strlit("; includeSubDomains");
    reveal_strlit("; preload");
    lemma_decimal_is_digits(max_age as nat);
    let a = "max-age="@;
    let d = decimal(max_age as nat);
    let i = if include_subdomains {
        "; includeSubDomains"@
    } else {
        Seq::<char>::empty()
    };
    let p = if preload {
        "; preload"@
    } else {
        Seq::<char>::empty()
    };
    assert(is_visible_text(a));
    assert(is_visible_text(d)) by {
        assert forall|k: int| 0 <= k < d.len() implies ' ' <= #[trigger] d[k] <= '~' by {
            assert('0' <= d[k] <= '9');
        }
    }
    assert(is_visible_text(i));
    assert(is_visible_text(p));
    let t = hsts_text(max_age, include_subdomains, preload);
    assert(t == a + d + i + p);
    assert forall|k: int| 0 <= k < t.len() implies ' ' <= #[trigger] t[k] <= '~' by {
        if k < a.len() {
            assert(t[k] == a[k]);
        } else if k < a.len() + d.len() {
            assert(t[k] == d[k - a.len()]);
        } else if k < a.len() + d.len() + i.len() {
            assert(t[k] == i[k - a.len() - d.len()]);
        } else {
            assert(t[k] == p[k - a.len() - d.len() - i.len()]);
        }
    }
}

/// The value of `Strict-Transport-Security` for these settings.
pub fn hsts_value(max_age: u64, include_subdomains: bool, preload: bool) -> (r: String)
    ensures
        r@ == hsts_text(max_age, include_subdomains, preload),
{
    let mut out = "max-age=".to_owned();
    let age = decimal_text(max_age);
    out.append(age.as_str());
    if include_subdomains {
        out.append("; includeSubDomains");
    }
    if preload {
        out.append("; preload");
    }
    proof {
        assert(out@ =~= hsts_text(max_age, include_subdomains, preload));
    }
    out
}

/// A response's headers with `Strict-Transport-Security` set to the
/// gateway's, whatever stood there.
pub open spec fn with_hsts(
    h: Map<Seq<char>, Seq<Seq<u8>>>,
    max_age: u64,
    include_subdomains: bool,
    preload: bool,
) -> Map<Seq<char>, Seq<Seq<u8>>> {
    h.insert(
        "strict-transport-security"@,
        seq![bytes_of(hsts_text(max_age, include_subdomains, preload))],
    )
}

/// Sets `Strict-Transport-Security` on a response, over what stood there.
pub fn hsts_mw(headers: &mut HeaderMap, max_age: u64, include_subdomains: bool, preload: bool)
    requires
        header_count(*old(headers)) < MAX_HEADER_NAMES,
    ensures
        header_entries(*final(headers)) == with_hsts(
            header_entries(*old(headers)),
            max_age,
            include_subdomains,
            preload,
        ),
        header_count(*final(headers)) <= header_count(*old(headers)) + 1,
{
    let value = hsts_value(max_age, include_subdomains, preload);
    proof {
        reveal_strlit("strict-transport-security");
        lemma_hsts_text_is_visible(max_age, include_subdomains, preload);
        lemma_visible_text_is_value(value@);
    }
    set_header(headers, "strict-transport-security", value.as_str());
}

/// A response's headers with each baseline security header that it lacked.
pub open spec fn with_security_headers(h: Map<Seq<char>, Seq<Seq<u8>>>) -> Map<
    Seq<char>,
    Seq<Seq<u8>>,
> {
    let a = set_if_absent(h, "x-content-type-options"@, Some(bytes_of("nosniff"@)));
    let b = set_if_absent(
        a,
        "referrer-policy"@,
        Some(bytes_of("strict-origin-when-cross-origin"@)),
    );
    let c = set_if_absent(b, "x-frame-options"@, Some(bytes_of("DENY"@)));
    let d = set_if_absent(c, "cross-origin-opener-policy"@, Some(bytes_of("same-origin"@)));
    set_if_absent(d, "cross-origin-resource-policy"@, Some(bytes_of("same-site"@)))
}

/// Adds the baseline security headers that a response lacks; what the
/// handler set stays.
pub fn security_headers_mw(headers: &mut HeaderMap)
    requires
        header_count(*old(headers)) + 5 <= MAX_HEADER_NAMES,
    ensures
        header_entries(*final(headers)) == with_security_headers(header_entries(*old(headers))),
        header_count(*final(headers)) <= header_count(*old(headers)) + 5,
{
    proof {
        reveal_strlit("x-content-type-options");
        reveal_strlit("referrer-policy");
        reveal_strlit("x-frame-options");
        reveal_strlit("cross-origin-opener-policy");
        reveal_strlit("cross-origin-resource-policy");
        reveal_strlit("nosniff");
        reveal_strlit("strict-origin-when-cross-origin");
        reveal_strlit("DENY");
        reveal_strlit("same-origin");
        reveal_strlit("same-site");
        lemma_visible_text_is_value("nosniff"@);
        lemma_visible_text_is_value("strict-origin-when-cross-origin"@);
        lemma_visible_text_is_value("DENY"@);
        lemma_visible_text_is_value("same-origin"@);
        lemma_visible_text_is_value("same-site"@);
    }
    add_if_absent(headers, "x-content-type-options", "nosniff");
    add_if_absent(headers, "referrer-policy", "strict-origin-when-cross-origin");
    add_if_absent(headers, "x-frame-options", "DENY");
    add_if_absent(headers, "cross-origin-opener-policy", "same-origin");
    add_if_absent(headers, "cross-origin-resource-policy", "same-site");
}

/// How responses on the TLS side are hardened, and to which host requests
/// are held.
#[derive(Debug, Clone)]
pub struct SecurityHeaderPolicy {
    pub hsts: bool,
    pub hsts_max_age: u64,
    pub hsts_include_subdomains: bool,
    pub hsts_preload: bool,
    pub security_headers: bool,
    pub canonical_host: Option<String>,
}

/// `SecurityHeaderPolicy` as the contracts see it.
pub struct SecurityHeaderPolicyView {
    pub hsts: bool,
    pub hsts_max_age: u64,
    pub hsts_include_subdomains: bool,
    pub hsts_preload: bool,
    pub security_headers: bool,
    pub canonical_host: Option<Seq<char>>,
}

impl View for SecurityHeaderPolicy {
    type V = SecurityHeaderPolicyView;

    open spec fn view(&self) -> SecurityHeaderPolicyView {
        SecurityHeaderPolicyView {
            hsts: self.hsts,
            hsts_max_age: self.hsts_max_age,
            hsts_include_subdomains: self.hsts_include_subdomains,
            hsts_preload: self.hsts_preload,
            security_headers: self.security_headers,
            canonical_host: match self.canonical_host {
                Some(h) => Some(h@),
                None => None,
            },
        }
    }
}

/// The policy that a server section asks for.
pub open spec fn policy_of(server: ServerView) -> SecurityHeaderPolicyView {
    SecurityHeaderPolicyView {
        hsts: server.hsts,
        hsts_max_age: server.hsts_max_age,
        hsts_include_subdomains: server.hsts_include_subdomains,
        hsts_preload: server.hsts_preload,
        security_headers: server.security_headers,
        canonical_host: server.canonical_host,
    }
}

impl SecurityHeaderPolicy {
    /// The policy that a server section asks for.
    pub fn from_config(server: &Server) -> (r: SecurityHeaderPolicy)
        ensures
            r@ == policy_of(server@),
    {
        SecurityHeaderPolicy {
            hsts: server.hsts,
            hsts_max_age: server.hsts_max_age,
            hsts_include_subdomains: server.hsts_include_subdomains,
            hsts_preload: server.hsts_preload,
            security_headers: server.security_headers,
            canonical_host: server.canonical_host.clone(),
        }
    }
}

/// One stage around the handler on the TLS side.
#[derive(Debug, Clone, Copy, PartialEq, Eq, Structural)]
pub enum Stage {
    CanonicalHost,
    Hsts,
    SecurityHeaders,
}

/// The stages that a policy switches on, in the order they act.
pub open spec fn active_stages(p: SecurityHeaderPolicyView) -> Seq<Stage> {
    (if p.canonical_host is Some {
        seq![Stage::CanonicalHost]
    } else {
        Seq::<Stage>::empty()
    }) + (if p.hsts {
        seq![Stage::Hsts]
    } else {
        Seq::<Stage>::empty()
    }) + (if p.security_headers {
        seq![Stage::SecurityHeaders]
    } else {
        Seq::<Stage>::empty()
    })
}

/// The stages that `policy` switches on, in the order they act.
pub fn pipeline(policy: &SecurityHeaderPolicy) -> (r: Vec<Stage>)
    ensures
        r@ == active_stages(policy@),
{
    let mut stages: Vec<Stage> = Vec::new();
    if policy.canonical_host.is_some() {
        stages.push(Stage::CanonicalHost);
    }
    if policy.hsts {
        stages.push(Stage::Hsts);
    }
    if policy.security_headers {
        stages.push(Stage::SecurityHeaders);
    }
    proof {
        assert(stages@ =~= active_stages(policy@));
    }
    stages
}

/// What the stages before the handler decide: the redirect that answers the
/// request in the handler's place, if any.
pub open spec fn short_circuit(
    p: SecurityHeaderPolicyView,
    h: Map<Seq<char>, Seq<Seq<u8>>>,
    path: Seq<char>,
    query: Option<Seq<char>>,
) -> Option<RedirectView> {
    match p.canonical_host {
        Some(canonical) => canonical_redirect(canonical, h, path, query),
        None => None,
    }
}

/// Runs the stages that act before the handler.
pub fn on_request(
    policy: &SecurityHeaderPolicy,
    headers: &HeaderMap,
    path: &str,
    query: Option<&str>,
) -> (r: Option<Redirect>)
    ensures
        match r {
            Some(redirect) => short_circuit(
                policy@,
                header_entries(*headers),
                path@,
                match query {
                    Some(q) => Some(q@),
                    None => None,
                },
            ) == Some(redirect@),
            None => short_circuit(
                policy@,
                header_entries(*headers),
                path@,
                match query {
                    Some(q) => Some(q@),
                    None => None,
                },
            ) is None,
        },
{
    match &policy.canonical_host {
        Some(canonical) => canonical_host_mw(canonical.as_str(), headers, path, query),
        None => None,
    }
}

/// The headers of a response once the stages after the handler have acted:
/// first the transport-security header, then the baseline security headers.
pub open spec fn hardened(p: SecurityHeaderPolicyView, h: Map<Seq<char>, Seq<Seq<u8>>>) -> Map<
    Seq<char>,
    Seq<Seq<u8>>,
> {
    let secured = if p.hsts {
        with_hsts(h, p.hsts_max_age, p.hsts_include_subdomains, p.hsts_preload)
    } else {
        h
    };
    if p.security_headers {
        with_security_headers(secured)
    } else {
        secured
    }
}

/// Runs the stages that act after the handler, on the headers of its
/// response or of the redirect that took its place.
pub fn on_response(policy: &SecurityHeaderPolicy, headers: &mut HeaderMap)
    requires
        header_count(*old(headers)) + 6 <= MAX_HEADER_NAMES,
    ensures
        header_entries(*final(headers)) == hardened(policy@, header_entries(*old(headers))),
        header_count(*final(headers)) <= header_count(*old(headers)) + 6,
{
    if policy.hsts {
        hsts_mw(
            headers,
            policy.hsts_max_age,
            policy.hsts_include_subdomains,
            policy.hsts_preload,
        );
    }
    if policy.security_headers {
        security_headers_mw(headers);
    }
}

/// Runs the stages that act after the handler where the headers leave room
/// for those that the stages add; where they do not, leaves the headers as
/// they are and says so.
pub fn try_on_response(policy: &SecurityHeaderPolicy, headers: &mut HeaderMap) -> (done: bool)
    ensures
        done == (header_count(*old(headers)) + 6 <= MAX_HEADER_NAMES),
        done ==> header_entries(*final(headers)) == hardened(
            policy@,
            header_entries(*old(headers)),
        ),
        !done ==> *final(headers) == *old(headers),
{
    if has_room(headers, 6) {
        on_response(policy, headers);
        true
    } else {
        false
    }
}

} // verus!
