//! What holds of the gateway's rules taken together.

use vstd::prelude::*;
use crate::config::{
    api_route_fault, api_routes_fault, config_fault, is_challenge, is_http_url, is_profile,
    is_rooted, proxy_route_fault, proxy_routes_fault, ConfigView, ProxyView, RouteView,
    ServerView,
};
use crate::gateway::challenge_reply;
use crate::headers::{
    bytes_of, first_text, hop_by_hop_names, is_visible, is_visible_text,
    lemma_text_of_visible, lemma_visible_text_is_value, lemma_visible_text_joins, no_entries,
    set_if_absent, text_of, value_for,
};
use crate::middleware::{
    canonical_redirect, hardened, hsts_text, https_location, inbound_host, policy_of,
    with_hsts, with_security_headers, SecurityHeaderPolicyView,
};
use crate::proxy::{
    bad_gateway, forwarded_entries, forwarded_host, forwarded_prefix, mounted,
    mounted_prefix, mounted_routes, path_and_query, payload_too_large, proxy_start,
    proxy_step, relayed_entries, rewritten_path, route_serves, route_table, withheld_names,
    ProxyActionView, ProxyEventView, ProxyRequestContextView, ProxyStateView,
};
use crate::text::{decimal, is_blank, is_white_space, trim_end};

verus! {

/// What is left of a text once trailing occurrences of a character are
/// gone does not end in that character.
pub proof fn lemma_trim_end_is_trimmed(s: Seq<char>, c: char)
    ensures
        trim_end(s, c).len() == 0 || trim_end(s, c).last() != c,
        trim_end(trim_end(s, c), c) == trim_end(s, c),
    decreases s.len(),
{
    if s.len() > 0 && s.last() == c {
        lemma_trim_end_is_trimmed(s.drop_last(), c);
    }
}

/// What is left of a text once trailing occurrences of a character are
/// gone is where the text began.
pub proof fn lemma_trim_end_is_prefix(s: Seq<char>, c: char)
    ensures
        trim_end(s, c).is_prefix_of(s),
    decreases s.len(),
{
    if s.len() > 0 && s.last() == c {
        lemma_trim_end_is_prefix(s.drop_last(), c);
        let t = trim_end(s, c);
        assert(t =~= s.drop_last().subrange(0, t.len() as int));
        assert(t =~= s.subrange(0, t.len() as int));
    } else {
        assert(s =~= s.subrange(0, s.len() as int));
    }
}

/// The route table holds every configured route, in the configured order.
pub proof fn lemma_every_route_is_mounted(routes: Seq<RouteView>, i: int)
    requires
        0 <= i < routes.len(),
    ensures
        mounted_routes(routes).len() == routes.len(),
        mounted_routes(routes)[i] == mounted(routes[i]),
{
}

/// Every route of a route table has a prefix that is the root, or does not
/// end in a slash; none is empty.
pub proof fn lemma_mounted_prefixes(routes: Seq<RouteView>, i: int)
    requires
        0 <= i < mounted_routes(routes).len(),
    ensures
        mounted_routes(routes)[i].prefix.len() > 0,
        mounted_routes(routes)[i].prefix == seq!['/'] || mounted_routes(routes)[i].prefix.last()
            != '/',
{
    lemma_trim_end_is_trimmed(routes[i].prefix, '/');
}

/// A prefix that begins with a slash still does once it is mounted.
pub proof fn lemma_mounted_prefix_is_rooted(prefix: Seq<char>)
    requires
        is_rooted(prefix),
    ensures
        is_rooted(mounted_prefix(prefix)),
{
    lemma_trim_end_is_prefix(prefix, '/');
    let trimmed = trim_end(prefix, '/');
    if trimmed.len() > 0 {
        assert(trimmed[0] == prefix.subrange(0, trimmed.len() as int)[0]);
    }
}

/// The root route serves every path that begins with a slash, and asks the
/// upstream for that path as it is.
pub proof fn lemma_root_route_serves_every_path(path: Seq<char>)
    requires
        is_rooted(path),
    ensures
        route_serves(seq!['/'], path),
        rewritten_path(seq!['/'], path) == path,
{
}

/// A route that is configured with nothing but slashes for its prefix, or
/// with nothing at all, is served as the root route.
pub proof fn lemma_bare_prefix_is_root(prefix: Seq<char>)
    requires
        forall|i: int| 0 <= i < prefix.len() ==> prefix[i] == '/',
    ensures
        mounted_prefix(prefix) == seq!['/'],
    decreases prefix.len(),
{
    if prefix.len() > 0 {
        assert(prefix.last() == '/');
        lemma_bare_prefix_is_root(prefix.drop_last());
    }
}

/// Where no route from `from` on is at fault, none of them is; and where
/// none of them is, there is no fault.
proof fn lemma_no_proxy_route_fault(routes: Seq<RouteView>, from: int)
    requires
        0 <= from <= routes.len(),
    ensures
        proxy_routes_fault(routes, from) is None <==> (forall|j: int|
            from <= j < routes.len() ==> proxy_route_fault(#[trigger] routes[j]) is None),
    decreases routes.len() - from,
{
    if from < routes.len() {
        lemma_no_proxy_route_fault(routes, from + 1);
    }
}

proof fn lemma_no_api_route_fault(routes: Seq<RouteView>, from: int)
    requires
        0 <= from <= routes.len(),
    ensures
        api_routes_fault(routes, from) is None <==> (forall|j: int|
            from <= j < routes.len() ==> api_route_fault(#[trigger] routes[j]) is None),
    decreases routes.len() - from,
{
    if from < routes.len() {
        lemma_no_api_route_fault(routes, from + 1);
    }
}

/// A route that is sound: its prefix begins with a slash, and its upstream
/// is an http or https address.
pub open spec fn route_is_sound(r: RouteView) -> bool {
    is_rooted(r.prefix) && is_http_url(r.upstream)
}

/// A sound route has neither a blank prefix nor a blank upstream.
proof fn lemma_sound_route_is_not_blank(r: RouteView)
    requires
        route_is_sound(r),
    ensures
        !is_blank(r.prefix),
        !is_blank(r.upstream),
        proxy_route_fault(r) is None,
        api_route_fault(r) is None,
{
    reveal_strlit("http://");
    reveal_strlit("https://");
    assert(!is_white_space(r.prefix[0]));
    if "http://"@.is_prefix_of(r.upstream) {
        assert(r.upstream.subrange(0, 7)[0] == 'h');
    } else {
        assert(r.upstream.subrange(0, 8)[0] == 'h');
    }
    assert(r.upstream[0] == 'h');
    assert(!is_white_space(r.upstream[0]));
}

/// All the rules that a configuration is held to.
pub open spec fn config_is_sound(c: ConfigView) -> bool {
    &&& !is_blank(c.server.https_listen)
    &&& !is_blank(c.server.http_listen) || (c.acme.enabled && c.acme.challenge
        == "tls-alpn-01"@)
    &&& is_profile(c.server.profile)
    &&& c.server.profile == "static_site"@ ==> {
        &&& c.static_site is Some
        &&& !is_blank(c.static_site->0.root)
        &&& !is_blank(c.static_site->0.index)
        &&& c.static_site->0.cache_control is Some ==> !is_blank(
            c.static_site->0.cache_control->0,
        )
    }
    &&& c.server.profile == "public_api"@ ==> c.proxy is Some && c.proxy->0.routes.len() > 0
    &&& c.proxy is Some ==> forall|i: int|
        0 <= i < c.proxy->0.routes.len() ==> route_is_sound(#[trigger] c.proxy->0.routes[i])
    &&& !(c.server.hsts && c.server.hsts_max_age == 0)
    &&& c.acme.enabled ==> {
        &&& c.acme.domains.len() > 0
        &&& !is_blank(c.acme.email)
        &&& is_challenge(c.acme.challenge)
    }
    &&& c.server.canonical_host is Some ==> {
        &&& !is_blank(c.server.canonical_host->0)
        &&& !c.server.canonical_host->0.contains(' ')
    }
}

/// A configuration is accepted if and only if it meets every rule.
pub proof fn lemma_accepted_iff_sound(c: ConfigView)
    ensures
        config_fault(c) is None <==> config_is_sound(c),
{
    if c.proxy is Some {
        let routes = c.proxy->0.routes;
        lemma_no_proxy_route_fault(routes, 0);
        lemma_no_api_route_fault(routes, 0);
        assert forall|j: int| 0 <= j < routes.len() && route_is_sound(
            #[trigger] routes[j],
        ) implies proxy_route_fault(routes[j]) is None && api_route_fault(routes[j]) is None by {
            lemma_sound_route_is_not_blank(routes[j]);
        }
        assert forall|j: int| 0 <= j < routes.len() && proxy_route_fault(
            #[trigger] routes[j],
        ) is None implies route_is_sound(routes[j]) by {}
    }
}

/// Every route of a configuration that was accepted has a prefix that
/// begins with a slash and an upstream that is an http or https address,
/// under any profile; and its prefix still begins with a slash in the route
/// table.
pub proof fn lemma_accepted_routes_are_sound(c: ConfigView, i: int)
    requires
        config_fault(c) is None,
        c.proxy is Some,
        0 <= i < c.proxy->0.routes.len(),
    ensures
        is_rooted(c.proxy->0.routes[i].prefix),
        is_http_url(c.proxy->0.routes[i].upstream),
        route_table(c.proxy->0).routes.len() == c.proxy->0.routes.len(),
        is_rooted(route_table(c.proxy->0).routes[i].prefix),
{
    lemma_accepted_iff_sound(c);
    lemma_mounted_prefix_is_rooted(c.proxy->0.routes[i].prefix);
}

/// For a path that begins with the prefix of its route, the path asked of
/// the upstream is the path without the prefix, or a slash where nothing is
/// left. The prefix `/` is left in place, so it is excepted unless the path
/// is `/` too.
pub proof fn lemma_prefix_is_stripped(prefix: Seq<char>, path: Seq<char>)
    requires
        prefix.is_prefix_of(path),
        !(prefix == seq!['/'] && path != seq!['/']),
    ensures
        rewritten_path(prefix, path) == (if path.skip(prefix.len() as int).len() == 0 {
            seq!['/']
        } else {
            path.skip(prefix.len() as int)
        }),
{
    if prefix == seq!['/'] {
        assert(path.len() == 1);
        assert(path.skip(1).len() == 0);
    }
}

/// The same, for every route of a route table but the root route, and
/// every path that begins with its prefix.
pub proof fn lemma_route_prefix_is_stripped(p: ProxyView, i: int, path: Seq<char>)
    requires
        0 <= i < mounted_routes(p.routes).len(),
        mounted_routes(p.routes)[i].prefix != seq!['/'],
        mounted_routes(p.routes)[i].prefix.is_prefix_of(path),
    ensures
        rewritten_path(mounted_routes(p.routes)[i].prefix, path) == (if path.skip(
            mounted_routes(p.routes)[i].prefix.len() as int,
        ).len() == 0 {
            seq!['/']
        } else {
            path.skip(mounted_routes(p.routes)[i].prefix.len() as int)
        }),
{
    lemma_prefix_is_stripped(mounted_routes(p.routes)[i].prefix, path);
}

/// No hop-by-hop name begins with an `x`.
proof fn lemma_hop_by_hop_initials(name: Seq<char>)
    requires
        hop_by_hop_names().contains(name),
    ensures
        name.len() > 0,
        name[0] != 'x',
{
    reveal_strlit("connection");
    reveal_strlit("keep-alive");
    reveal_strlit("proxy-authenticate");
    reveal_strlit("proxy-authorization");
    reveal_strlit("te");
    reveal_strlit("trailer");
    reveal_strlit("transfer-encoding");
    reveal_strlit("upgrade");
}

/// No hop-by-hop header is among the headers sent upstream, whatever the
/// request held.
pub proof fn lemma_forwarded_has_no_hop_by_hop(
    h: Map<Seq<char>, Seq<Seq<u8>>>,
    prefix: Seq<char>,
    uri: Seq<char>,
    client_ip: Option<Seq<char>>,
    name: Seq<char>,
)
    requires
        hop_by_hop_names().contains(name),
    ensures
        !forwarded_entries(h, prefix, uri, client_ip).contains_key(name),
{
    lemma_hop_by_hop_initials(name);
    reveal_strlit("x-forwarded-host");
    reveal_strlit("x-forwarded-proto");
    reveal_strlit("x-forwarded-prefix");
    reveal_strlit("x-forwarded-uri");
    reveal_strlit("x-forwarded-for");
    assert("x-forwarded-host"@[0] == 'x');
    assert("x-forwarded-proto"@[0] == 'x');
    assert("x-forwarded-prefix"@[0] == 'x');
    assert("x-forwarded-uri"@[0] == 'x');
    assert("x-forwarded-for"@[0] == 'x');
}

/// No hop-by-hop header is among the headers returned to the client,
/// whatever the upstream sent; nor is any header that is the gateway's to set.
pub proof fn lemma_relayed_has_no_hop_by_hop(h: Map<Seq<char>, Seq<Seq<u8>>>, name: Seq<char>)
    requires
        hop_by_hop_names().contains(name) || withheld_names().contains(name),
    ensures
        !relayed_entries(h).contains_key(name),
{
}

/// For a client whose address is visible text: where the request had no
/// `x-forwarded-for`, the upstream gets the address alone; where it had one
/// that reads as text, the upstream gets that text, a comma and a space, and
/// the address.
pub proof fn lemma_forwarded_for_chain(
    h: Map<Seq<char>, Seq<Seq<u8>>>,
    prefix: Seq<char>,
    uri: Seq<char>,
    ip: Seq<char>,
)
    requires
        is_visible_text(ip),
    ensures
        forwarded_entries(h, prefix, uri, Some(ip)).contains_key("x-forwarded-for"@),
        !h.contains_key("x-forwarded-for"@) ==> forwarded_entries(h, prefix, uri, Some(ip))[
            "x-forwarded-for"@
        ] == seq![bytes_of(ip)],
        h.contains_key("x-forwarded-for"@) && is_visible(h["x-forwarded-for"@][0])
            ==> forwarded_entries(h, prefix, uri, Some(ip))["x-forwarded-for"@] == seq![
            bytes_of(text_of(h["x-forwarded-for"@][0]) + seq![',', ' '] + ip),
        ],
{
    reveal_strlit("connection");
    reveal_strlit("keep-alive");
    reveal_strlit("proxy-authenticate");
    reveal_strlit("proxy-authorization");
    reveal_strlit("te");
    reveal_strlit("trailer");
    reveal_strlit("transfer-encoding");
    reveal_strlit("upgrade");
    reveal_strlit("x-forwarded-host");
    reveal_strlit("x-forwarded-proto");
    reveal_strlit("x-forwarded-prefix");
    reveal_strlit("x-forwarded-uri");
    reveal_strlit("x-forwarded-for");
    let xff = "x-forwarded-for"@;
    assert(xff[0] == 'x');
    assert(!hop_by_hop_names().contains(xff)) by {
        if hop_by_hop_names().contains(xff) {
            lemma_hop_by_hop_initials(xff);
        }
    }
    assert(xff != "x-forwarded-host"@) by {
        assert(xff[12] != "x-forwarded-host"@[12]);
    }
    assert(xff != "x-forwarded-proto"@) by {
        assert(xff.len() != "x-forwarded-proto"@.len());
    }
    assert(xff != "x-forwarded-prefix"@) by {
        assert(xff.len() != "x-forwarded-prefix"@.len());
    }
    assert(xff != "x-forwarded-uri"@) by {
        assert(xff[12] != "x-forwarded-uri"@[12]);
    }
    lemma_visible_text_is_value(ip);
    let kept = h.remove_keys(hop_by_hop_names());
    let with_host = set_if_absent(kept, "x-forwarded-host"@, forwarded_host(kept));
    let with_proto = set_if_absent(with_host, "x-forwarded-proto"@, Some(bytes_of("https"@)));
    let with_prefix = set_if_absent(
        with_proto,
        "x-forwarded-prefix"@,
        Some(forwarded_prefix(prefix)),
    );
    let with_uri = set_if_absent(with_prefix, "x-forwarded-uri"@, value_for(uri));
    assert(with_uri.contains_key(xff) == h.contains_key(xff));
    if h.contains_key(xff) {
        assert(with_uri[xff] == h[xff]);
        if is_visible(h[xff][0]) {
            assert(first_text(with_uri, xff) == Some(text_of(h[xff][0])));
            lemma_text_of_visible(h[xff][0]);
            assert(is_visible_text(seq![',', ' ']));
            lemma_visible_text_joins(text_of(h[xff][0]), seq![',', ' ']);
            lemma_visible_text_joins(text_of(h[xff][0]) + seq![',', ' '], ip);
            lemma_visible_text_is_value(text_of(h[xff][0]) + seq![',', ' '] + ip);
        } else {
            assert(first_text(with_uri, xff) is None);
        }
    } else {
        assert(first_text(with_uri, xff) is None);
    }
}

/// The names of the baseline security headers.
pub open spec fn security_header_names() -> Set<Seq<char>> {
    set![
        "x-content-type-options"@,
        "referrer-policy"@,
        "x-frame-options"@,
        "cross-origin-opener-policy"@,
        "cross-origin-resource-policy"@,
    ]
}

/// The value that a baseline security header gets where the response has none.
pub open spec fn security_header_default(name: Seq<char>) -> Seq<char> {
    if name == "x-content-type-options"@ {
        "nosniff"@
    } else if name == "referrer-policy"@ {
        "strict-origin-when-cross-origin"@
    } else if name == "x-frame-options"@ {
        "DENY"@
    } else if name == "cross-origin-opener-policy"@ {
        "same-origin"@
    } else {
        "same-site"@
    }
}

/// The six names that the stages after the handler may set are six.
proof fn lemma_hardening_names_differ()
    ensures
        "x-content-type-options"@ != "referrer-policy"@,
        "x-content-type-options"@ != "x-frame-options"@,
        "x-content-type-options"@ != "cross-origin-opener-policy"@,
        "x-content-type-options"@ != "cross-origin-resource-policy"@,
        "referrer-policy"@ != "x-frame-options"@,
        "referrer-policy"@ != "cross-origin-opener-policy"@,
        "referrer-policy"@ != "cross-origin-resource-policy"@,
        "x-frame-options"@ != "cross-origin-opener-policy"@,
        "x-frame-options"@ != "cross-origin-resource-policy"@,
        "cross-origin-opener-policy"@ != "cross-origin-resource-policy"@,
        !security_header_names().contains("strict-transport-security"@),
{
    reveal_strlit("x-content-type-options");
    reveal_strlit("referrer-policy");
    reveal_strlit("x-frame-options");
    reveal_strlit("cross-origin-opener-policy");
    reveal_strlit("cross-origin-resource-policy");
    reveal_strlit("strict-transport-security");
    assert("x-content-type-options"@.len() == 22);
    assert("referrer-policy"@.len() == 15);
    assert("x-frame-options"@.len() == 15);
    assert("cross-origin-opener-policy"@.len() == 26);
    assert("cross-origin-resource-policy"@.len() == 28);
    assert("strict-transport-security"@.len() == 25);
    assert("referrer-policy"@[0] != "x-frame-options"@[0]);
}

/// The transport-security header is on a response if and only if the policy
/// switches it on, for every response that came without one, as every
/// proxied response does; and where it is on, it spells the configured age
/// and directives.
pub proof fn lemma_hsts_iff_enabled(p: SecurityHeaderPolicyView, h: Map<Seq<char>, Seq<Seq<u8>>>)
    requires
        !h.contains_key("strict-transport-security"@),
    ensures
        hardened(p, h).contains_key("strict-transport-security"@) <==> p.hsts,
        p.hsts ==> hardened(p, h)["strict-transport-security"@] == seq![
            bytes_of(hsts_text(p.hsts_max_age, p.hsts_include_subdomains, p.hsts_preload)),
        ],
{
    lemma_hardening_names_differ();
}

/// The same of a proxied response, whatever the upstream sent.
pub proof fn lemma_hsts_iff_enabled_when_proxied(
    p: SecurityHeaderPolicyView,
    upstream: Map<Seq<char>, Seq<Seq<u8>>>,
)
    ensures
        hardened(p, relayed_entries(upstream)).contains_key("strict-transport-security"@)
            <==> p.hsts,
        p.hsts ==> hardened(p, relayed_entries(upstream))["strict-transport-security"@] == seq![
            bytes_of(hsts_text(p.hsts_max_age, p.hsts_include_subdomains, p.hsts_preload)),
        ],
{
    lemma_relayed_has_no_hop_by_hop(upstream, "strict-transport-security"@);
    lemma_hsts_iff_enabled(p, relayed_entries(upstream));
}

/// Where the policy switches the transport-security header on, it
/// overwrites whatever the response held under that name.
pub proof fn lemma_hsts_overwrites(p: SecurityHeaderPolicyView, h: Map<Seq<char>, Seq<Seq<u8>>>)
    requires
        p.hsts,
    ensures
        hardened(p, h)["strict-transport-security"@] == seq![
            bytes_of(hsts_text(p.hsts_max_age, p.hsts_include_subdomains, p.hsts_preload)),
        ],
{
    lemma_hardening_names_differ();
}

/// A baseline security header that the response already holds keeps its
/// values; one that it lacks gets the default; and no other header changes
/// but the transport-security one.
pub proof fn lemma_security_headers_only_when_absent(
    p: SecurityHeaderPolicyView,
    h: Map<Seq<char>, Seq<Seq<u8>>>,
    name: Seq<char>,
)
    requires
        p.security_headers,
    ensures
        security_header_names().contains(name) && h.contains_key(name) ==> hardened(p, h)[name]
            == h[name],
        security_header_names().contains(name) && !h.contains_key(name) ==> hardened(p, h)[name]
            == seq![bytes_of(security_header_default(name))],
        security_header_names().contains(name) ==> hardened(p, h).contains_key(name),
        !security_header_names().contains(name) && name != "strict-transport-security"@ ==> (
        hardened(p, h).contains_key(name) == h.contains_key(name)) && (h.contains_key(name)
            ==> hardened(p, h)[name] == h[name]),
{
    lemma_hardening_names_differ();
}

/// Where the policy switches the baseline security headers off, none is added.
pub proof fn lemma_security_headers_off(
    p: SecurityHeaderPolicyView,
    h: Map<Seq<char>, Seq<Seq<u8>>>,
    name: Seq<char>,
)
    requires
        !p.security_headers,
        name != "strict-transport-security"@,
    ensures
        hardened(p, h).contains_key(name) == h.contains_key(name),
        h.contains_key(name) ==> hardened(p, h)[name] == h[name],
{
}

/// A request is redirected if and only if it names a host, and that host
/// without its port is not the canonical one; the redirect goes to the same
/// path and query on the canonical host, over `https`.
pub proof fn lemma_canonical_redirect_iff(
    canonical: Seq<char>,
    h: Map<Seq<char>, Seq<Seq<u8>>>,
    path: Seq<char>,
    query: Option<Seq<char>>,
)
    ensures
        canonical_redirect(canonical, h, path, query) is Some <==> (inbound_host(h) is Some
            && inbound_host(h)->0 != canonical),
        canonical_redirect(canonical, h, path, query) is Some ==> canonical_redirect(
            canonical,
            h,
            path,
            query,
        )->0.location == "https://"@ + canonical + path_and_query(path, query),
        canonical_redirect(canonical, h, path, query) is Some ==> "https://"@.is_prefix_of(
            canonical_redirect(canonical, h, path, query)->0.location,
        ),
{
    let location = https_location(canonical, path, query);
    assert(location.subrange(0, "https://"@.len() as int) =~= "https://"@);
}

/// What is asked of the outside, step by step, as `events` are reported
/// from `state` on.
pub open spec fn actions(state: ProxyStateView, events: Seq<ProxyEventView>) -> Seq<
    ProxyActionView,
>
    decreases events.len(),
{
    if events.len() == 0 {
        Seq::empty()
    } else {
        let (next, action) = proxy_step(state, events.first());
        seq![action] + actions(next, events.drop_first())
    }
}

/// Once a call is done, nothing is sent upstream, whatever is reported.
pub proof fn lemma_done_never_sends(events: Seq<ProxyEventView>, i: int)
    requires
        0 <= i < events.len(),
    ensures
        actions(ProxyStateView::Done, events).len() == events.len(),
        !(actions(ProxyStateView::Done, events)[i] is Send),
    decreases events.len(),
{
    lemma_actions_len(ProxyStateView::Done, events);
    if i > 0 {
        lemma_done_never_sends(events.drop_first(), i - 1);
    }
}

proof fn lemma_actions_len(state: ProxyStateView, events: Seq<ProxyEventView>)
    ensures
        actions(state, events).len() == events.len(),
    decreases events.len(),
{
    if events.len() > 0 {
        lemma_actions_len(proxy_step(state, events.first()).0, events.drop_first());
    }
}

/// A request body over the limit, or one that could not be read within it,
/// is answered with 413, and nothing is sent upstream then or later.
pub proof fn lemma_oversized_body_never_reaches_upstream(
    state: ProxyStateView,
    body: ProxyEventView,
    later: Seq<ProxyEventView>,
    i: int,
)
    requires
        state is ReadingBody,
        body is BodyFailed || (body is Body && body->Body_0.len() > state->ReadingBody_limit),
        0 <= i <= later.len(),
    ensures
        proxy_step(state, body) == (
            ProxyStateView::Done,
            ProxyActionView::Respond(payload_too_large()),
        ),
        payload_too_large().status == 413,
        actions(state, seq![body] + later).len() == later.len() + 1,
        !(actions(state, seq![body] + later)[i] is Send),
{
    let events = seq![body] + later;
    assert(events.first() == body);
    assert(events.drop_first() =~= later);
    lemma_actions_len(state, events);
    if i > 0 {
        lemma_done_never_sends(later, i - 1);
    }
}

/// Where the upstream cannot be reached, or fails while it answers, the
/// client is answered with 502 and a fixed body: whatever went wrong
/// upstream, the answer is the same.
pub proof fn lemma_unreachable_upstream_is_bad_gateway(status: u16, h: Map<Seq<char>, Seq<Seq<u8>>>)
    ensures
        proxy_step(ProxyStateView::AwaitingUpstream, ProxyEventView::UpstreamFailed) == (
            ProxyStateView::Done,
            ProxyActionView::Respond(bad_gateway()),
        ),
        proxy_step(
            ProxyStateView::ReadingUpstreamBody { status, headers: h },
            ProxyEventView::UpstreamBodyFailed,
        ) == (ProxyStateView::Done, ProxyActionView::Respond(bad_gateway())),
        bad_gateway().status == 502,
        bad_gateway().headers == no_entries(),
        bad_gateway().body == bytes_of("bad gateway"@),
{
}

/// Nothing is sent upstream from a state other than the first, whatever is
/// reported: a call sends at most once.
pub proof fn lemma_sends_at_most_once(state: ProxyStateView, events: Seq<ProxyEventView>, i: int)
    requires
        !(state is ReadingBody),
        0 <= i < events.len(),
    ensures
        actions(state, events).len() == events.len(),
        !(actions(state, events)[i] is Send),
    decreases events.len(),
{
    lemma_actions_len(state, events);
    if i > 0 {
        lemma_sends_at_most_once(proxy_step(state, events.first()).0, events.drop_first(), i - 1);
    }
}

/// A request under a route other than the root route, with a path that
/// begins with the prefix and a body within the limit, is sent upstream
/// once, with its own method and body, to the upstream's base followed by
/// the path without the prefix, or by a slash where nothing is left, and by
/// the query as it came.
pub proof fn lemma_call_sends_the_stripped_path(
    ctx: ProxyRequestContextView,
    route: RouteView,
    limit: u64,
    body: Seq<u8>,
)
    requires
        route.prefix != seq!['/'],
        route.prefix.is_prefix_of(ctx.path),
        body.len() <= limit,
    ensures
        proxy_start(ctx, route, limit).1 == (ProxyActionView::ReadBody { limit }),
        proxy_step(proxy_start(ctx, route, limit).0, ProxyEventView::Body(body)).0
            is AwaitingUpstream,
        proxy_step(proxy_start(ctx, route, limit).0, ProxyEventView::Body(body)).1 is Send,
        proxy_step(
            proxy_start(ctx, route, limit).0,
            ProxyEventView::Body(body),
        ).1->Send_0.method == ctx.method,
        proxy_step(proxy_start(ctx, route, limit).0, ProxyEventView::Body(body)).1->Send_0.body
            == body,
        proxy_step(proxy_start(ctx, route, limit).0, ProxyEventView::Body(body)).1->Send_0.url
            == path_and_query(
            trim_end(route.upstream, '/') + (if ctx.path.skip(route.prefix.len() as int).len()
                == 0 {
                seq!['/']
            } else {
                ctx.path.skip(route.prefix.len() as int)
            }),
            ctx.query,
        ),
{
    lemma_prefix_is_stripped(route.prefix, ctx.path);
}

/// A request that came without `x-forwarded-for`, from a client whose
/// address is known, is sent upstream with `x-forwarded-for` set to that
/// address and nothing else; one that came with a readable chain, with the
/// chain, a comma and a space, and the address.
pub proof fn lemma_call_sends_forwarded_for(
    ctx: ProxyRequestContextView,
    route: RouteView,
    limit: u64,
    body: Seq<u8>,
)
    requires
        ctx.client_ip is Some,
        is_visible_text(ctx.client_ip->0),
        body.len() <= limit,
    ensures
        proxy_step(proxy_start(ctx, route, limit).0, ProxyEventView::Body(body)).1 is Send,
        !ctx.headers.contains_key("x-forwarded-for"@) ==> proxy_step(
            proxy_start(ctx, route, limit).0,
            ProxyEventView::Body(body),
        ).1->Send_0.headers["x-forwarded-for"@] == seq![bytes_of(ctx.client_ip->0)],
        ctx.headers.contains_key("x-forwarded-for"@) && is_visible(
            ctx.headers["x-forwarded-for"@][0],
        ) ==> proxy_step(
            proxy_start(ctx, route, limit).0,
            ProxyEventView::Body(body),
        ).1->Send_0.headers["x-forwarded-for"@] == seq![
            bytes_of(
                text_of(ctx.headers["x-forwarded-for"@][0]) + seq![',', ' ']
                    + ctx.client_ip->0,
            ),
        ],
        proxy_step(
            proxy_start(ctx, route, limit).0,
            ProxyEventView::Body(body),
        ).1->Send_0.headers.contains_key("x-forwarded-for"@),
{
    lemma_forwarded_for_chain(
        ctx.headers,
        route.prefix,
        path_and_query(ctx.path, ctx.query),
        ctx.client_ip->0,
    );
}

/// After the transport-security stage the header has exactly the one value
/// that the settings spell, whatever values it had.
pub proof fn lemma_hsts_is_one_value(
    h: Map<Seq<char>, Seq<Seq<u8>>>,
    max_age: u64,
    include_subdomains: bool,
    preload: bool,
)
    ensures
        with_hsts(h, max_age, include_subdomains, preload).contains_key(
            "strict-transport-security"@,
        ),
        with_hsts(h, max_age, include_subdomains, preload)["strict-transport-security"@] == seq![
            bytes_of(hsts_text(max_age, include_subdomains, preload)),
        ],
        forall|name: Seq<char>|
            name != "strict-transport-security"@ ==> with_hsts(
                h,
                max_age,
                include_subdomains,
                preload,
            ).contains_key(name) == h.contains_key(name) && (h.contains_key(name) ==> with_hsts(
                h,
                max_age,
                include_subdomains,
                preload,
            )[name] == h[name]),
{
}

/// With transport security switched on in the configuration, every response
/// that passes the stages of the TLS side has the header with exactly one
/// value: the configured age, then each directive that is switched on.
pub proof fn lemma_configured_hsts_on_every_response(
    server: ServerView,
    h: Map<Seq<char>, Seq<Seq<u8>>>,
)
    requires
        server.hsts,
    ensures
        hardened(policy_of(server), h).contains_key("strict-transport-security"@),
        hardened(policy_of(server), h)["strict-transport-security"@] == seq![
            bytes_of(
                "max-age="@ + decimal(server.hsts_max_age as nat) + (if server
                    .hsts_include_subdomains {
                    "; includeSubDomains"@
                } else {
                    Seq::<char>::empty()
                }) + (if server.hsts_preload {
                    "; preload"@
                } else {
                    Seq::<char>::empty()
                }),
            ),
        ],
{
    lemma_hardening_names_differ();
}

/// With transport security switched off, no answer of a proxied call has
/// the header after the stages of the TLS side, whatever the upstream sent:
/// not the relayed answer, not a refusal. Nor has any answer of the plain
/// listener to a challenge.
pub proof fn lemma_no_hsts_when_off(
    p: SecurityHeaderPolicyView,
    state: ProxyStateView,
    event: ProxyEventView,
    key_authorization: Option<Seq<char>>,
)
    requires
        !p.hsts,
        state is ReadingUpstreamBody ==> !state->ReadingUpstreamBody_headers.contains_key(
            "strict-transport-security"@,
        ),
    ensures
        proxy_step(state, event).1 is Respond ==> !hardened(
            p,
            proxy_step(state, event).1->Respond_0.headers,
        ).contains_key("strict-transport-security"@),
        proxy_step(state, event).0 is ReadingUpstreamBody ==> !proxy_step(
            state,
            event,
        ).0->ReadingUpstreamBody_headers.contains_key("strict-transport-security"@),
        !challenge_reply(key_authorization).headers.contains_key("strict-transport-security"@),
{
    lemma_hardening_names_differ();
    reveal_strlit("content-type");
    reveal_strlit("strict-transport-security");
    assert("content-type"@.len() != "strict-transport-security"@.len());
    if proxy_step(state, event).0 is ReadingUpstreamBody {
        lemma_relayed_has_no_hop_by_hop(event->Upstream_headers, "strict-transport-security"@);
    }
    if proxy_step(state, event).1 is Respond {
        lemma_hsts_iff_enabled(p, proxy_step(state, event).1->Respond_0.headers);
    }
}

/// After the security-headers stage, each of the five names that the
/// response lacked has its one default value, and each that it held keeps
/// its values as they were; no other name changes.
pub proof fn lemma_security_headers_stage(h: Map<Seq<char>, Seq<Seq<u8>>>, name: Seq<char>)
    ensures
        security_header_names().contains(name) ==> with_security_headers(h).contains_key(name),
        security_header_names().contains(name) && !h.contains_key(name)
            ==> with_security_headers(h)[name] == seq![bytes_of(security_header_default(name))],
        h.contains_key(name) ==> with_security_headers(h).contains_key(name)
            && with_security_headers(h)[name] == h[name],
        !security_header_names().contains(name) ==> with_security_headers(h).contains_key(name)
            == h.contains_key(name),
{
    lemma_hardening_names_differ();
}

} // verus!
