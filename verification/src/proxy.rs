//! The reverse proxy: the route table, the upstream address of a request, the
//! headers that travel in both directions, and the course of one proxied call.

use vstd::prelude::*;
use crate::config::{is_rooted, rooted, Config, ProxyView, Route, RouteView};
use crate::headers::{
    add_if_absent, bytes_of, filter_hop_by_hop, first_text, has_header, has_room,
    header_count, header_entries, header_text, hop_by_hop_names, is_visible,
    lemma_visible_round_trip, lemma_visible_text_is_value, no_entries, no_headers, set_header,
    set_if_absent, status_or_bad_gateway, texts, value_for, without_headers,
    MAX_HEADER_NAMES,
};
use axum::http::HeaderMap;
use crate::text::{
    has_prefix, join, strip_prefix, text_eq, trim_end, without_prefix, without_trailing,
};

verus! {

/// The largest request body accepted where the configuration names none: 10 MiB.
pub const DEFAULT_MAX_BODY_BYTES: u64 = 10485760;

/// How long an upstream may take to answer, in seconds.
pub const UPSTREAM_TIMEOUT_SECS: u64 = 30;

/// The routes as they are served, in the order they are tried.
#[derive(Debug, Clone)]
pub struct RouteTable {
    pub routes: Vec<Route>,
    pub max_body_bytes: u64,
    pub timeout_secs: u64,
}

/// `RouteTable` as the contracts see it.
pub struct RouteTableView {
    pub routes: Seq<RouteView>,
    pub max_body_bytes: u64,
    pub timeout_secs: u64,
}

impl View for RouteTable {
    type V = RouteTableView;

    open spec fn view(&self) -> RouteTableView {
        RouteTableView {
            routes: self.routes@.map_values(|r: Route| r@),
            max_body_bytes: self.max_body_bytes,
            timeout_secs: self.timeout_secs,
        }
    }
}

/// Why no route table could be built.
#[derive(Debug, Clone, Copy, PartialEq, Eq, Structural)]
pub enum ProxyError {
    MissingProxyConfig,
}

impl ProxyError {
    /// The fault in words.
    pub fn message(&self) -> (r: String)
        ensures
            r@ == "missing [proxy] config"@,
    {
        "missing [proxy] config".to_owned()
    }
}

/// A prefix as it is served: without the slashes at its end, and `/` where
/// nothing is left.
pub open spec fn mounted_prefix(prefix: Seq<char>) -> Seq<char> {
    let trimmed = trim_end(prefix, '/');
    if trimmed.len() == 0 {
        seq!['/']
    } else {
        trimmed
    }
}

/// A route as it is served: its prefix mounted, its upstream without the
/// slashes at its end.
pub open spec fn mounted(r: RouteView) -> RouteView {
    RouteView { prefix: mounted_prefix(r.prefix), upstream: trim_end(r.upstream, '/') }
}

/// The routes that are served: every configured route, mounted, in the
/// configured order.
pub open spec fn mounted_routes(routes: Seq<RouteView>) -> Seq<RouteView> {
    routes.map_values(|r: RouteView| mounted(r))
}

/// The largest request body accepted: the configured limit, or the default
/// where that is zero.
pub open spec fn body_limit(configured: u64) -> u64 {
    if configured == 0 {
        DEFAULT_MAX_BODY_BYTES
    } else {
        configured
    }
}

/// The route table that a proxy section asks for.
pub open spec fn route_table(p: ProxyView) -> RouteTableView {
    RouteTableView {
        routes: mounted_routes(p.routes),
        max_body_bytes: body_limit(p.max_body_bytes),
        timeout_secs: UPSTREAM_TIMEOUT_SECS,
    }
}

/// Builds the route table of a configuration, which must have a proxy
/// section: every configured route, in the configured order, as it is served.
pub fn router(cfg: &Config) -> (r: Result<RouteTable, ProxyError>)
    ensures
        match r {
            Ok(table) => cfg@.proxy is Some && table@ == route_table(cfg@.proxy->0),
            Err(e) => cfg@.proxy is None && e == ProxyError::MissingProxyConfig,
        },
{
    match &cfg.proxy {
        None => Err(ProxyError::MissingProxyConfig),
        Some(p) => {
            let max_body_bytes: u64 = if p.max_body_bytes == 0 {
                DEFAULT_MAX_BODY_BYTES
            } else {
                p.max_body_bytes
            };
            let ghost configured = p.routes@.map_values(|r: Route| r@);
            let mut routes: Vec<Route> = Vec::new();
            let mut i: usize = 0;
            while i < p.routes.len()
                invariant
                    i <= p.routes.len(),
                    configured == p.routes@.map_values(|r: Route| r@),
                    routes@.len() == i,
                    forall|j: int| 0 <= j < i ==> (#[trigger] routes@[j])@ == mounted(configured[j]),
                decreases p.routes.len() - i,
            {
                let route = &p.routes[i];
                let trimmed = without_trailing(route.prefix.as_str(), '/');
                let prefix = if trimmed.as_str().is_empty() {
                    proof {
                        reveal_strlit("/");
                        assert("/"@ =~= seq!['/']);
                    }
                    "/".to_owned()
                } else {
                    trimmed
                };
                let upstream = without_trailing(route.upstream.as_str(), '/');
                assert(configured[i as int] == route@);
                routes.push(Route { prefix, upstream });
                i = i + 1;
            }
            proof {
                assert(routes@.map_values(|r: Route| r@) =~= mounted_routes(configured));
            }
            Ok(RouteTable { routes, max_body_bytes, timeout_secs: UPSTREAM_TIMEOUT_SECS })
        },
    }
}

/// Whether the route with this prefix serves `path`: the prefix itself, or
/// anything below it. The root route serves every path that begins with a slash.
pub open spec fn route_serves(prefix: Seq<char>, path: Seq<char>) -> bool {
    if prefix == seq!['/'] {
        is_rooted(path)
    } else {
        path == prefix || (prefix + seq!['/']).is_prefix_of(path)
    }
}

/// Whether the route with this prefix serves `path`.
pub fn serves(prefix: &str, path: &str) -> (r: bool)
    ensures
        r == route_serves(prefix@, path@),
{
    proof {
        reveal_strlit("/");
        assert("/"@ =~= seq!['/']);
    }
    if text_eq(prefix, "/") {
        return rooted(path);
    }
    if text_eq(path, prefix) {
        return true;
    }
    let below = join(prefix, "/");
    proof {
        assert(below@ =~= prefix@ + seq!['/']);
    }
    has_prefix(path, below.as_str())
}

/// The first route of the table that serves `path`.
pub fn select_route(table: &RouteTable, path: &str) -> (r: Option<usize>)
    ensures
        match r {
            Some(i) => i < table@.routes.len() && route_serves(table@.routes[i as int].prefix, path@)
                && forall|j: int| 0 <= j < i ==> !route_serves(table@.routes[j].prefix, path@),
            None => forall|j: int|
                0 <= j < table@.routes.len() ==> !route_serves(table@.routes[j].prefix, path@),
        },
{
    let mut i: usize = 0;
    while i < table.routes.len()
        invariant
            i <= table.routes.len(),
            forall|j: int| 0 <= j < i ==> !route_serves(table@.routes[j].prefix, path@),
        decreases table.routes.len() - i,
    {
        if serves(table.routes[i].prefix.as_str(), path) {
            return Some(i);
        }
        i = i + 1;
    }
    None
}

/// The path asked of the upstream: `path` without `prefix`, and never empty.
pub open spec fn rewritten_path(prefix: Seq<char>, path: Seq<char>) -> Seq<char> {
    let rest = if prefix == seq!['/'] {
        path
    } else {
        match strip_prefix(path, prefix) {
            Some(rest) => rest,
            None => path,
        }
    };
    if rest.len() == 0 {
        seq!['/']
    } else {
        rest
    }
}

/// The path asked of the upstream for `path` under the route `prefix`.
pub fn rewrite_path(prefix: &str, path: &str) -> (r: String)
    ensures
        r@ == rewritten_path(prefix@, path@),
{
    proof {
        reveal_strlit("/");
        assert("/"@ =~= seq!['/']);
    }
    let rest = if text_eq(prefix, "/") {
        path.to_owned()
    } else {
        match without_prefix(path, prefix) {
            Some(rest) => rest,
            None => path.to_owned(),
        }
    };
    if rest.as_str().is_empty() {
        "/".to_owned()
    } else {
        rest
    }
}

/// A path with its query, as the client sent them.
pub open spec fn path_and_query(path: Seq<char>, query: Option<Seq<char>>) -> Seq<char> {
    match query {
        Some(q) => path + seq!['?'] + q,
        None => path,
    }
}

/// `path`, then `?` and the query where there is one.
pub fn with_query(path: String, query: Option<&str>) -> (r: String)
    ensures
        r@ == path_and_query(
            path@,
            match query {
                Some(q) => Some(q@),
                None => None,
            },
        ),
{
    match query {
        Some(q) => {
            proof {
                reveal_strlit("?");
                assert("?"@ =~= seq!['?']);
            }
            let mut out = path;
            out.append("?");
            out.append(q);
            out
        },
        None => path,
    }
}

/// The address asked of the upstream: its base without trailing slashes, the
/// rewritten path, and the query as it came.
pub open spec fn target_url(
    upstream: Seq<char>,
    prefix: Seq<char>,
    path: Seq<char>,
    query: Option<Seq<char>>,
) -> Seq<char> {
    path_and_query(trim_end(upstream, '/') + rewritten_path(prefix, path), query)
}

/// The address asked of the upstream for a request under the route `prefix`.
pub fn upstream_url(upstream: &str, prefix: &str, path: &str, query: Option<&str>) -> (r: String)
    ensures
        r@ == target_url(
            upstream@,
            prefix@,
            path@,
            match query {
                Some(q) => Some(q@),
                None => None,
            },
        ),
{
    let mut target = without_trailing(upstream, '/');
    let rest = rewrite_path(prefix, path);
    target.append(rest.as_str());
    with_query(target, query)
}

/// What `x-forwarded-host` is given: the inbound `Host`, where it is visible.
pub open spec fn forwarded_host(h: Map<Seq<char>, Seq<Seq<u8>>>) -> Option<Seq<u8>> {
    if h.contains_key("host"@) && is_visible(h["host"@][0]) {
        Some(h["host"@][0])
    } else {
        None
    }
}

/// What `x-forwarded-prefix` is given: the prefix of the route, or a slash
/// where the prefix cannot stand in a header.
pub open spec fn forwarded_prefix(prefix: Seq<char>) -> Seq<u8> {
    match value_for(prefix) {
        Some(value) => value,
        None => bytes_of(seq!['/']),
    }
}

/// What `x-forwarded-for` becomes for a client at `ip`: the chain so far, a
/// comma and a space, and `ip`; `ip` alone where there is no chain to read.
pub open spec fn forwarded_for(h: Map<Seq<char>, Seq<Seq<u8>>>, ip: Seq<char>) -> Option<Seq<u8>> {
    match first_text(h, "x-forwarded-for"@) {
        Some(chain) => value_for(chain + seq![',', ' '] + ip),
        None => value_for(ip),
    }
}

/// The headers sent upstream for a request that came with `h`.
pub open spec fn forwarded_entries(
    h: Map<Seq<char>, Seq<Seq<u8>>>,
    prefix: Seq<char>,
    uri: Seq<char>,
    client_ip: Option<Seq<char>>,
) -> Map<Seq<char>, Seq<Seq<u8>>> {
    let kept = h.remove_keys(hop_by_hop_names());
    let with_host = set_if_absent(kept, "x-forwarded-host"@, forwarded_host(kept));
    let with_proto = set_if_absent(with_host, "x-forwarded-proto"@, Some(bytes_of("https"@)));
    let with_prefix = set_if_absent(
        with_proto,
        "x-forwarded-prefix"@,
        Some(forwarded_prefix(prefix)),
    );
    let with_uri = set_if_absent(with_prefix, "x-forwarded-uri"@, value_for(uri));
    match client_ip {
        Some(ip) => match forwarded_for(with_uri, ip) {
            Some(chain) => with_uri.insert("x-forwarded-for"@, seq![chain]),
            None => with_uri,
        },
        None => with_uri,
    }
}

/// The headers sent upstream: those of the request without the hop-by-hop
/// ones, with what the upstream needs to know of the client's side.
pub fn forward_request_headers(
    headers: HeaderMap,
    prefix: &str,
    uri: &str,
    client_ip: Option<&str>,
) -> (out: HeaderMap)
    requires
        header_count(headers) + 5 <= MAX_HEADER_NAMES,
    ensures
        header_entries(out) == forwarded_entries(
            header_entries(headers),
            prefix@,
            uri@,
            match client_ip {
                Some(ip) => Some(ip@),
                None => None,
            },
        ),
        header_count(out) <= header_count(headers) + 5,
{
    proof {
        reveal_strlit("host");
        reveal_strlit("x-forwarded-host");
        reveal_strlit("x-forwarded-proto");
        reveal_strlit("x-forwarded-prefix");
        reveal_strlit("x-forwarded-uri");
        reveal_strlit("x-forwarded-for");
        reveal_strlit("https");
        reveal_strlit("/");
        reveal_strlit(", ");
    }
    let mut out = filter_hop_by_hop(headers);
    let ghost kept = header_entries(out);

    match header_text(&out, "host") {
        Some(host) => {
            proof {
                lemma_visible_round_trip(kept["host"@][0]);
            }
            add_if_absent(&mut out, "x-forwarded-host", host.as_str());
        },
        None => {},
    }

    proof {
        lemma_visible_text_is_value("https"@);
    }
    add_if_absent(&mut out, "x-forwarded-proto", "https");

    if !has_header(&out, "x-forwarded-prefix") {
        if !set_header(&mut out, "x-forwarded-prefix", prefix) {
            proof {
                assert("/"@ =~= seq!['/']);
                lemma_visible_text_is_value("/"@);
            }
            set_header(&mut out, "x-forwarded-prefix", "/");
        }
    }

    add_if_absent(&mut out, "x-forwarded-uri", uri);

    match client_ip {
        Some(ip) => {
            let chain = match header_text(&out, "x-forwarded-for") {
                Some(so_far) => {
                    let mut chain = so_far;
                    chain.append(", ");
                    chain.append(ip);
                    proof {
                        assert(", "@ =~= seq![',', ' ']);
                    }
                    chain
                },
                None => ip.to_owned(),
            };
            set_header(&mut out, "x-forwarded-for", chain.as_str());
        },
        None => {},
    }
    out
}

/// The names of the headers that an upstream may not set for the gateway.
pub open spec fn withheld_names() -> Set<Seq<char>> {
    set!["strict-transport-security"@, "server"@, "x-powered-by"@, "via"@]
}

/// The headers returned to the client for a response that came with `h`.
pub open spec fn relayed_entries(h: Map<Seq<char>, Seq<Seq<u8>>>) -> Map<Seq<char>, Seq<Seq<u8>>> {
    h.remove_keys(hop_by_hop_names() + withheld_names())
}

/// The headers returned to the client: those of the upstream without the
/// hop-by-hop ones and without those that are the gateway's to set.
pub fn relay_response_headers(headers: HeaderMap) -> (out: HeaderMap)
    ensures
        header_entries(out) == relayed_entries(header_entries(headers)),
        header_count(out) <= header_count(headers),
{
    let kept = filter_hop_by_hop(headers);
    let withheld = vec!["strict-transport-security", "server", "x-powered-by", "via"];
    proof {
        reveal_strlit("strict-transport-security");
        reveal_strlit("server");
        reveal_strlit("x-powered-by");
        reveal_strlit("via");
        let list = texts(withheld@);
        assert(list[0] == "strict-transport-security"@ && list[1] == "server"@ && list[2]
            == "x-powered-by"@ && list[3] == "via"@);
        assert(list.to_set() =~= withheld_names());
    }
    let out = without_headers(kept, &withheld);
    proof {
        assert(header_entries(out) =~= relayed_entries(header_entries(headers)));
    }
    out
}

/// One request as it came in, but for its body.
#[derive(Debug)]
pub struct ProxyRequestContext {
    pub method: String,
    pub path: String,
    pub query: Option<String>,
    pub headers: HeaderMap,
    /// The client's address, where the listener knows it.
    pub client_ip: Option<String>,
}

/// `ProxyRequestContext` as the contracts see it.
pub struct ProxyRequestContextView {
    pub method: Seq<char>,
    pub path: Seq<char>,
    pub query: Option<Seq<char>>,
    pub headers: Map<Seq<char>, Seq<Seq<u8>>>,
    pub client_ip: Option<Seq<char>>,
}

impl View for ProxyRequestContext {
    type V = ProxyRequestContextView;

    open spec fn view(&self) -> ProxyRequestContextView {
        ProxyRequestContextView {
            method: self.method@,
            path: self.path@,
            query: match self.query {
                Some(q) => Some(q@),
                None => None,
            },
            headers: header_entries(self.headers),
            client_ip: match self.client_ip {
                Some(ip) => Some(ip@),
                None => None,
            },
        }
    }
}

/// What is asked of the upstream.
#[derive(Debug, PartialEq, Eq)]
pub struct UpstreamRequest {
    pub method: String,
    pub url: String,
    pub headers: HeaderMap,
    pub body: Vec<u8>,
}

/// `UpstreamRequest` as the contracts see it.
pub struct UpstreamRequestView {
    pub method: Seq<char>,
    pub url: Seq<char>,
    pub headers: Map<Seq<char>, Seq<Seq<u8>>>,
    pub body: Seq<u8>,
}

impl View for UpstreamRequest {
    type V = UpstreamRequestView;

    open spec fn view(&self) -> UpstreamRequestView {
        UpstreamRequestView {
            method: self.method@,
            url: self.url@,
            headers: header_entries(self.headers),
            body: self.body@,
        }
    }
}

/// What the client is answered.
#[derive(Debug, PartialEq, Eq)]
pub struct GatewayResponse {
    pub status: u16,
    pub headers: HeaderMap,
    pub body: Vec<u8>,
}

/// `GatewayResponse` as the contracts see it.
pub struct GatewayResponseView {
    pub status: u16,
    pub headers: Map<Seq<char>, Seq<Seq<u8>>>,
    pub body: Seq<u8>,
}

impl View for GatewayResponse {
    type V = GatewayResponseView;

    open spec fn view(&self) -> GatewayResponseView {
        GatewayResponseView {
            status: self.status,
            headers: header_entries(self.headers),
            body: self.body@,
        }
    }
}

/// Where one proxied call stands.
#[derive(Debug)]
pub enum ProxyState {
    /// The request body is being read; the rest of the upstream request is ready.
    ReadingBody { method: String, url: String, headers: HeaderMap, limit: u64 },
    /// The upstream has been asked.
    AwaitingUpstream,
    /// The upstream has answered; its body is being read.
    ReadingUpstreamBody { status: u16, headers: HeaderMap },
    /// The client has its answer.
    Done,
}

/// `ProxyState` as the contracts see it.
pub enum ProxyStateView {
    ReadingBody {
        method: Seq<char>,
        url: Seq<char>,
        headers: Map<Seq<char>, Seq<Seq<u8>>>,
        limit: u64,
    },
    AwaitingUpstream,
    ReadingUpstreamBody { status: u16, headers: Map<Seq<char>, Seq<Seq<u8>>> },
    Done,
}

impl View for ProxyState {
    type V = ProxyStateView;

    open spec fn view(&self) -> ProxyStateView {
        match self {
            ProxyState::ReadingBody { method, url, headers, limit } => ProxyStateView::ReadingBody {
                method: method@,
                url: url@,
                headers: header_entries(*headers),
                limit: *limit,
            },
            ProxyState::AwaitingUpstream => ProxyStateView::AwaitingUpstream,
            ProxyState::ReadingUpstreamBody { status, headers } => {
                ProxyStateView::ReadingUpstreamBody {
                    status: *status,
                    headers: header_entries(*headers),
                }
            },
            ProxyState::Done => ProxyStateView::Done,
        }
    }
}

/// What the outside reports of the work it was given.
#[derive(Debug)]
pub enum ProxyEvent {
    /// The request body, read to its end.
    Body(Vec<u8>),
    /// The request body could not be read within the limit.
    BodyFailed,
    /// The upstream answered with this status and these headers.
    Upstream { status: u16, headers: HeaderMap },
    /// The upstream could not be reached, or did not answer in time.
    UpstreamFailed,
    /// The body of the upstream's answer, read to its end.
    UpstreamBody(Vec<u8>),
    /// The body of the upstream's answer could not be read.
    UpstreamBodyFailed,
}

/// `ProxyEvent` as the contracts see it.
pub enum ProxyEventView {
    Body(Seq<u8>),
    BodyFailed,
    Upstream { status: u16, headers: Map<Seq<char>, Seq<Seq<u8>>> },
    UpstreamFailed,
    UpstreamBody(Seq<u8>),
    UpstreamBodyFailed,
}

impl View for ProxyEvent {
    type V = ProxyEventView;

    open spec fn view(&self) -> ProxyEventView {
        match self {
            ProxyEvent::Body(body) => ProxyEventView::Body(body@),
            ProxyEvent::BodyFailed => ProxyEventView::BodyFailed,
            ProxyEvent::Upstream { status, headers } => ProxyEventView::Upstream {
                status: *status,
                headers: header_entries(*headers),
            },
            ProxyEvent::UpstreamFailed => ProxyEventView::UpstreamFailed,
            ProxyEvent::UpstreamBody(body) => ProxyEventView::UpstreamBody(body@),
            ProxyEvent::UpstreamBodyFailed => ProxyEventView::UpstreamBodyFailed,
        }
    }
}

/// What the outside is to do next.
#[derive(Debug)]
pub enum ProxyAction {
    /// Read the request body, up to `limit` bytes.
    ReadBody { limit: u64 },
    /// Send this to the upstream.
    Send(UpstreamRequest),
    /// Read the body of the upstream's answer.
    ReadUpstreamBody,
    /// Answer the client.
    Respond(GatewayResponse),
}

/// `ProxyAction` as the contracts see it.
pub enum ProxyActionView {
    ReadBody { limit: u64 },
    Send(UpstreamRequestView),
    ReadUpstreamBody,
    Respond(GatewayResponseView),
}

impl View for ProxyAction {
    type V = ProxyActionView;

    open spec fn view(&self) -> ProxyActionView {
        match self {
            ProxyAction::ReadBody { limit } => ProxyActionView::ReadBody { limit: *limit },
            ProxyAction::Send(request) => ProxyActionView::Send(request@),
            ProxyAction::ReadUpstreamBody => ProxyActionView::ReadUpstreamBody,
            ProxyAction::Respond(response) => ProxyActionView::Respond(response@),
        }
    }
}

/// The answer to a request whose body is over the limit.
pub open spec fn payload_too_large() -> GatewayResponseView {
    GatewayResponseView {
        status: 413,
        headers: no_entries(),
        body: bytes_of("payload too large"@),
    }
}

/// The answer where the upstream failed. It says nothing of how.
pub open spec fn bad_gateway() -> GatewayResponseView {
    GatewayResponseView { status: 502, headers: no_entries(), body: bytes_of("bad gateway"@) }
}

/// The status passed on to the client: the upstream's, or 502 where that is
/// no status code.
pub open spec fn relayed_status(status: u16) -> u16 {
    if 100 <= status <= 999 {
        status
    } else {
        502
    }
}

/// How a proxied call begins for a request under `route`: with its upstream
/// request ready, and its body to be read.
pub open spec fn proxy_start(
    ctx: ProxyRequestContextView,
    route: RouteView,
    max_body_bytes: u64,
) -> (ProxyStateView, ProxyActionView) {
    (
        ProxyStateView::ReadingBody {
            method: ctx.method,
            url: target_url(route.upstream, route.prefix, ctx.path, ctx.query),
            headers: forwarded_entries(
                ctx.headers,
                route.prefix,
                path_and_query(ctx.path, ctx.query),
                ctx.client_ip,
            ),
            limit: max_body_bytes,
        },
        ProxyActionView::ReadBody { limit: max_body_bytes },
    )
}

/// How a proxied call goes on when `event` is reported in state `state`. An
/// event out of turn ends the call as a failed upstream does.
pub open spec fn proxy_step(state: ProxyStateView, event: ProxyEventView) -> (
    ProxyStateView,
    ProxyActionView,
) {
    match state {
        ProxyStateView::ReadingBody { method, url, headers, limit } => match event {
            ProxyEventView::Body(body) => if body.len() > limit {
                (ProxyStateView::Done, ProxyActionView::Respond(payload_too_large()))
            } else {
                (
                    ProxyStateView::AwaitingUpstream,
                    ProxyActionView::Send(UpstreamRequestView { method, url, headers, body }),
                )
            },
            ProxyEventView::BodyFailed => (
                ProxyStateView::Done,
                ProxyActionView::Respond(payload_too_large()),
            ),
            _ => (ProxyStateView::Done, ProxyActionView::Respond(bad_gateway())),
        },
        ProxyStateView::AwaitingUpstream => match event {
            ProxyEventView::Upstream { status, headers } => (
                ProxyStateView::ReadingUpstreamBody {
                    status: relayed_status(status),
                    headers: relayed_entries(headers),
                },
                ProxyActionView::ReadUpstreamBody,
            ),
            _ => (ProxyStateView::Done, ProxyActionView::Respond(bad_gateway())),
        },
        ProxyStateView::ReadingUpstreamBody { status, headers } => match event {
            ProxyEventView::UpstreamBody(body) => (
                ProxyStateView::Done,
                ProxyActionView::Respond(GatewayResponseView { status, headers, body }),
            ),
            _ => (ProxyStateView::Done, ProxyActionView::Respond(bad_gateway())),
        },
        ProxyStateView::Done => (ProxyStateView::Done, ProxyActionView::Respond(bad_gateway())),
    }
}

fn refuse_payload() -> (r: GatewayResponse)
    ensures
        r@ == payload_too_large(),
{
    GatewayResponse {
        status: 413,
        headers: no_headers(),
        body: "payload too large".as_bytes_vec(),
    }
}

fn refuse_gateway() -> (r: GatewayResponse)
    ensures
        r@ == bad_gateway(),
{
    GatewayResponse {
        status: 502,
        headers: no_headers(),
        body: "bad gateway".as_bytes_vec(),
    }
}

/// Begins a proxied call for a request under `route`.
pub fn begin(ctx: ProxyRequestContext, route: &Route, max_body_bytes: u64) -> (r: (
    ProxyState,
    ProxyAction,
))
    requires
        header_count(ctx.headers) + 5 <= MAX_HEADER_NAMES,
    ensures
        (r.0@, r.1@) == proxy_start(ctx@, route@, max_body_bytes),
{
    let ProxyRequestContext { method, path, query, headers, client_ip } = ctx;
    let query_text: Option<&str> = match &query {
        Some(q) => Some(q.as_str()),
        None => None,
    };
    let ip_text: Option<&str> = match &client_ip {
        Some(ip) => Some(ip.as_str()),
        None => None,
    };
    let url = upstream_url(
        route.upstream.as_str(),
        route.prefix.as_str(),
        path.as_str(),
        query_text,
    );
    let uri = with_query(path, query_text);
    let headers = forward_request_headers(headers, route.prefix.as_str(), uri.as_str(), ip_text);
    (
        ProxyState::ReadingBody { method, url, headers, limit: max_body_bytes },
        ProxyAction::ReadBody { limit: max_body_bytes },
    )
}

/// Begins a proxied call where the headers of the request leave room for
/// those that the gateway adds, and tells where they do not.
pub fn try_begin(ctx: ProxyRequestContext, route: &Route, max_body_bytes: u64) -> (r: Option<
    (ProxyState, ProxyAction),
>)
    ensures
        r is Some <==> header_count(ctx.headers) + 5 <= MAX_HEADER_NAMES,
        match r {
            Some((state, action)) => (state@, action@) == proxy_start(
                ctx@,
                route@,
                max_body_bytes,
            ),
            None => true,
        },
{
    if has_room(&ctx.headers, 5) {
        Some(begin(ctx, route, max_body_bytes))
    } else {
        None
    }
}

/// Takes one proxied call a step further: from where it stands and what was
/// reported, to where it stands then and what is to be done.
pub fn proxy_one(state: ProxyState, event: ProxyEvent) -> (r: (ProxyState, ProxyAction))
    ensures
        (r.0@, r.1@) == proxy_step(state@, event@),
{
    match state {
        ProxyState::ReadingBody { method, url, headers, limit } => match event {
            ProxyEvent::Body(body) => {
                if body.len() as u64 > limit {
                    (ProxyState::Done, ProxyAction::Respond(refuse_payload()))
                } else {
                    (
                        ProxyState::AwaitingUpstream,
                        ProxyAction::Send(UpstreamRequest { method, url, headers, body }),
                    )
                }
            },
            ProxyEvent::BodyFailed => (ProxyState::Done, ProxyAction::Respond(refuse_payload())),
            _ => (ProxyState::Done, ProxyAction::Respond(refuse_gateway())),
        },
        ProxyState::AwaitingUpstream => match event {
            ProxyEvent::Upstream { status, headers } => (
                ProxyState::ReadingUpstreamBody {
                    status: status_or_bad_gateway(status),
                    headers: relay_response_headers(headers),
                },
                ProxyAction::ReadUpstreamBody,
            ),
            _ => (ProxyState::Done, ProxyAction::Respond(refuse_gateway())),
        },
        ProxyState::ReadingUpstreamBody { status, headers } => match event {
            ProxyEvent::UpstreamBody(body) => (
                ProxyState::Done,
                ProxyAction::Respond(GatewayResponse { status, headers, body }),
            ),
            _ => (ProxyState::Done, ProxyAction::Respond(refuse_gateway())),
        },
        ProxyState::Done => (ProxyState::Done, ProxyAction::Respond(refuse_gateway())),
    }
}

} // verus!
