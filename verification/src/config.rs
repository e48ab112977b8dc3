//! The gateway's configuration: its shape, its defaults and the rules a
//! configuration must meet before the gateway starts.

use vstd::prelude::*;
use crate::text::{blank, has_char, has_prefix, is_blank, join, text_eq};

verus! {

/// One proxied path prefix and the upstream that serves it.
#[derive(Debug, Clone, PartialEq, Eq)]
pub struct Route {
    pub prefix: String,
    pub upstream: String,
}

/// `Route` as the contracts see it.
pub struct RouteView {
    pub prefix: Seq<char>,
    pub upstream: Seq<char>,
}

impl View for Route {
    type V = RouteView;

    open spec fn view(&self) -> RouteView {
        RouteView { prefix: self.prefix@, upstream: self.upstream@ }
    }
}

/// The reverse proxy's routes, in the order they are tried, and the largest
/// request body it accepts (zero: the default).
#[derive(Debug, Clone)]
pub struct Proxy {
    pub routes: Vec<Route>,
    pub max_body_bytes: u64,
}

/// `Proxy` as the contracts see it.
pub struct ProxyView {
    pub routes: Seq<RouteView>,
    pub max_body_bytes: u64,
}

impl View for Proxy {
    type V = ProxyView;

    open spec fn view(&self) -> ProxyView {
        ProxyView {
            routes: self.routes@.map_values(|r: Route| r@),
            max_body_bytes: self.max_body_bytes,
        }
    }
}

/// Where static files are served from.
#[derive(Debug, Clone)]
pub struct StaticSite {
    pub root: String,
    pub index: String,
    pub cache_control: Option<String>,
}

/// `StaticSite` as the contracts see it.
pub struct StaticSiteView {
    pub root: Seq<char>,
    pub index: Seq<char>,
    pub cache_control: Option<Seq<char>>,
}

impl View for StaticSite {
    type V = StaticSiteView;

    open spec fn view(&self) -> StaticSiteView {
        StaticSiteView {
            root: self.root@,
            index: self.index@,
            cache_control: match self.cache_control {
                Some(c) => Some(c@),
                None => None,
            },
        }
    }
}

/// Listeners, profile and the hardening of responses.
#[derive(Debug, Clone)]
pub struct Server {
    /// Plain HTTP listen address: certificate challenges and redirects only.
    pub http_listen: String,
    /// HTTPS listen address: the service itself.
    pub https_listen: String,
    pub profile: String,
    /// Where set, requests for any other host are redirected to this one.
    pub canonical_host: Option<String>,
    /// Send `Strict-Transport-Security` on HTTPS responses.
    pub hsts: bool,
    /// Its `max-age`, in seconds.
    pub hsts_max_age: u64,
    pub hsts_include_subdomains: bool,
    pub hsts_preload: bool,
    /// Send the baseline security headers on HTTPS responses.
    pub security_headers: bool,
}

/// `Server` as the contracts see it.
pub struct ServerView {
    pub http_listen: Seq<char>,
    pub https_listen: Seq<char>,
    pub profile: Seq<char>,
    pub canonical_host: Option<Seq<char>>,
    pub hsts: bool,
    pub hsts_max_age: u64,
    pub hsts_include_subdomains: bool,
    pub hsts_preload: bool,
    pub security_headers: bool,
}

impl View for Server {
    type V = ServerView;

    open spec fn view(&self) -> ServerView {
        ServerView {
            http_listen: self.http_listen@,
            https_listen: self.https_listen@,
            profile: self.profile@,
            canonical_host: match self.canonical_host {
                Some(h) => Some(h@),
                None => None,
            },
            hsts: self.hsts,
            hsts_max_age: self.hsts_max_age,
            hsts_include_subdomains: self.hsts_include_subdomains,
            hsts_preload: self.hsts_preload,
            security_headers: self.security_headers,
        }
    }
}

/// Logging.
#[derive(Debug, Clone)]
pub struct Telemetry {
    pub json_logs: bool,
    pub log_level: String,
}

/// `Telemetry` as the contracts see it.
pub struct TelemetryView {
    pub json_logs: bool,
    pub log_level: Seq<char>,
}

impl View for Telemetry {
    type V = TelemetryView;

    open spec fn view(&self) -> TelemetryView {
        TelemetryView { json_logs: self.json_logs, log_level: self.log_level@ }
    }
}

/// Automatic certificates.
#[derive(Debug, Clone)]
pub struct Acme {
    pub enabled: bool,
    /// The production directory; staging where false.
    pub prod: bool,
    /// Contact address of the account, without `mailto:`.
    pub email: String,
    /// The hostnames the certificate covers.
    pub domains: Vec<String>,
    /// Directory for the account and certificate cache.
    pub cache_dir: String,
    /// `http-01` or `tls-alpn-01`.
    pub challenge: String,
}

/// `Acme` as the contracts see it.
pub struct AcmeView {
    pub enabled: bool,
    pub prod: bool,
    pub email: Seq<char>,
    pub domains: Seq<Seq<char>>,
    pub cache_dir: Seq<char>,
    pub challenge: Seq<char>,
}

impl View for Acme {
    type V = AcmeView;

    open spec fn view(&self) -> AcmeView {
        AcmeView {
            enabled: self.enabled,
            prod: self.prod,
            email: self.email@,
            domains: self.domains@.map_values(|d: String| d@),
            cache_dir: self.cache_dir@,
            challenge: self.challenge@,
        }
    }
}

/// All that the gateway is configured with.
#[derive(Debug, Clone)]
pub struct Config {
    pub server: Server,
    pub telemetry: Telemetry,
    pub acme: Acme,
    pub proxy: Option<Proxy>,
    pub static_site: Option<StaticSite>,
}

/// `Config` as the contracts see it.
pub struct ConfigView {
    pub server: ServerView,
    pub telemetry: TelemetryView,
    pub acme: AcmeView,
    pub proxy: Option<ProxyView>,
    pub static_site: Option<StaticSiteView>,
}

impl View for Config {
    type V = ConfigView;

    open spec fn view(&self) -> ConfigView {
        ConfigView {
            server: self.server@,
            telemetry: self.telemetry@,
            acme: self.acme@,
            proxy: match self.proxy {
                Some(p) => Some(p@),
                None => None,
            },
            static_site: match self.static_site {
                Some(s) => Some(s@),
                None => None,
            },
        }
    }
}

/// The plain listener's address where none is configured.
pub fn default_http_listen() -> (r: String)
    ensures
        r@ == "127.0.0.1:8080"@,
{
    "127.0.0.1:8080".to_owned()
}

/// The TLS listener's address where none is configured.
pub fn default_https_listen() -> (r: String)
    ensures
        r@ == "127.0.0.1:8443"@,
{
    "127.0.0.1:8443".to_owned()
}

/// The profile where none is configured.
pub fn default_profile() -> (r: String)
    ensures
        r@ == "public_api"@,
{
    "public_api".to_owned()
}

/// One day, in seconds.
pub fn default_hsts_max_age() -> (r: u64)
    ensures
        r == 86400,
{
    86400
}

/// The log level where a telemetry section names none.
pub fn default_log_level() -> (r: String)
    ensures
        r@ == "info"@,
{
    "info".to_owned()
}

/// Where the certificate cache lies where no directory is configured.
pub fn default_acme_cache_dir() -> (r: String)
    ensures
        r@ == "./acme-cache"@,
{
    "./acme-cache".to_owned()
}

/// The kind of challenge where none is configured.
pub fn default_acme_challenge() -> (r: String)
    ensures
        r@ == "http-01"@,
{
    "http-01".to_owned()
}

impl Default for Telemetry {
    fn default() -> (r: Self)
        ensures
            !r.json_logs,
            r.log_level@ == Seq::<char>::empty(),
    {
        Telemetry { json_logs: false, log_level: String::new() }
    }
}

impl Default for Acme {
    fn default() -> (r: Self)
        ensures
            !r.enabled,
            !r.prod,
            r.email@ == Seq::<char>::empty(),
            r.domains@ == Seq::<String>::empty(),
            r.cache_dir@ == "./acme-cache"@,
            r.challenge@ == "http-01"@,
    {
        Acme {
            enabled: false,
            prod: false,
            email: String::new(),
            domains: Vec::new(),
            cache_dir: default_acme_cache_dir(),
            challenge: default_acme_challenge(),
        }
    }
}

/// Why a configuration is refused.
#[derive(Debug, Clone, PartialEq, Eq)]
pub enum ConfigError {
    HttpListenEmpty,
    HttpsListenEmpty,
    ProfileInvalid { profile: String },
    StaticSiteMissing,
    StaticSiteRootEmpty,
    StaticSiteIndexEmpty,
    StaticSiteCacheControlEmpty,
    ProxyMissing,
    ProxyRoutesEmpty,
    RoutePrefixEmpty,
    RoutePrefixNotRooted,
    RouteUpstreamEmpty,
    RouteUpstreamNotHttp,
    HstsMaxAgeZero,
    AcmeDomainsEmpty,
    AcmeEmailEmpty,
    AcmeChallengeInvalid { challenge: String },
    ProxyPrefixNotRooted { prefix: String },
    ProxyUpstreamEmpty { prefix: String },
    ProxyUpstreamNotHttp { prefix: String },
    CanonicalHostEmpty,
    CanonicalHostHasSpace,
}

/// `ConfigError` as the contracts see it.
pub enum ConfigFault {
    HttpListenEmpty,
    HttpsListenEmpty,
    ProfileInvalid { profile: Seq<char> },
    StaticSiteMissing,
    StaticSiteRootEmpty,
    StaticSiteIndexEmpty,
    StaticSiteCacheControlEmpty,
    ProxyMissing,
    ProxyRoutesEmpty,
    RoutePrefixEmpty,
    RoutePrefixNotRooted,
    RouteUpstreamEmpty,
    RouteUpstreamNotHttp,
    HstsMaxAgeZero,
    AcmeDomainsEmpty,
    AcmeEmailEmpty,
    AcmeChallengeInvalid { challenge: Seq<char> },
    ProxyPrefixNotRooted { prefix: Seq<char> },
    ProxyUpstreamEmpty { prefix: Seq<char> },
    ProxyUpstreamNotHttp { prefix: Seq<char> },
    CanonicalHostEmpty,
    CanonicalHostHasSpace,
}

impl View for ConfigError {
    type V = ConfigFault;

    open spec fn view(&self) -> ConfigFault {
        match self {
            ConfigError::HttpListenEmpty => ConfigFault::HttpListenEmpty,
            ConfigError::HttpsListenEmpty => ConfigFault::HttpsListenEmpty,
            ConfigError::ProfileInvalid { profile } => ConfigFault::ProfileInvalid {
                profile: profile@,
            },
            ConfigError::StaticSiteMissing => ConfigFault::StaticSiteMissing,
            ConfigError::StaticSiteRootEmpty => ConfigFault::StaticSiteRootEmpty,
            ConfigError::StaticSiteIndexEmpty => ConfigFault::StaticSiteIndexEmpty,
            ConfigError::StaticSiteCacheControlEmpty => ConfigFault::StaticSiteCacheControlEmpty,
            ConfigError::ProxyMissing => ConfigFault::ProxyMissing,
            ConfigError::ProxyRoutesEmpty => ConfigFault::ProxyRoutesEmpty,
            ConfigError::RoutePrefixEmpty => ConfigFault::RoutePrefixEmpty,
            ConfigError::RoutePrefixNotRooted => ConfigFault::RoutePrefixNotRooted,
            ConfigError::RouteUpstreamEmpty => ConfigFault::RouteUpstreamEmpty,
            ConfigError::RouteUpstreamNotHttp => ConfigFault::RouteUpstreamNotHttp,
            ConfigError::HstsMaxAgeZero => ConfigFault::HstsMaxAgeZero,
            ConfigError::AcmeDomainsEmpty => ConfigFault::AcmeDomainsEmpty,
            ConfigError::AcmeEmailEmpty => ConfigFault::AcmeEmailEmpty,
            ConfigError::AcmeChallengeInvalid { challenge } => ConfigFault::AcmeChallengeInvalid {
                challenge: challenge@,
            },
            ConfigError::ProxyPrefixNotRooted { prefix } => ConfigFault::ProxyPrefixNotRooted {
                prefix: prefix@,
            },
            ConfigError::ProxyUpstreamEmpty { prefix } => ConfigFault::ProxyUpstreamEmpty {
                prefix: prefix@,
            },
            ConfigError::ProxyUpstreamNotHttp { prefix } => ConfigFault::ProxyUpstreamNotHttp {
                prefix: prefix@,
            },
            ConfigError::CanonicalHostEmpty => ConfigFault::CanonicalHostEmpty,
            ConfigError::CanonicalHostHasSpace => ConfigFault::CanonicalHostHasSpace,
        }
    }
}

/// The wording of each fault.
pub open spec fn fault_text(f: ConfigFault) -> Seq<char> {
    match f {
        ConfigFault::HttpListenEmpty =>
            "server.http_listen is empty (required unless acme.challenge=tls-alpn-01)"@,
        ConfigFault::HttpsListenEmpty => "server.https_listen is empty"@,
        ConfigFault::ProfileInvalid { profile } => "server.profile invalid: "@ + profile
            + " (allowed: static_site|public_api|admin_panel)"@,
        ConfigFault::StaticSiteMissing =>
            "server.profile=static_site but [static_site] section is missing"@,
        ConfigFault::StaticSiteRootEmpty => "static_site.root is empty"@,
        ConfigFault::StaticSiteIndexEmpty => "static_site.index is empty"@,
        ConfigFault::StaticSiteCacheControlEmpty => "static_site.cache_control is empty"@,
        ConfigFault::ProxyMissing => "server.profile=public_api but [proxy] section is missing"@,
        ConfigFault::ProxyRoutesEmpty => "proxy.routes is empty"@,
        ConfigFault::RoutePrefixEmpty => "proxy.routes[].prefix is empty"@,
        ConfigFault::RoutePrefixNotRooted => "proxy.routes[].prefix must start with '/'"@,
        ConfigFault::RouteUpstreamEmpty => "proxy.routes[].upstream is empty"@,
        ConfigFault::RouteUpstreamNotHttp =>
            "proxy.routes[].upstream must start with http:// or https://"@,
        ConfigFault::HstsMaxAgeZero => "server.hsts_max_age must be > 0 when hsts=true"@,
        ConfigFault::AcmeDomainsEmpty => "acme.enabled=true but acme.domains is empty"@,
        ConfigFault::AcmeEmailEmpty => "acme.enabled=true but acme.email is empty"@,
        ConfigFault::AcmeChallengeInvalid { challenge } => "acme.challenge invalid: "@ + challenge
            + " (allowed: http-01|tls-alpn-01)"@,
        ConfigFault::ProxyPrefixNotRooted { prefix } =>
            "proxy.routes.prefix must start with '/': "@ + prefix,
        ConfigFault::ProxyUpstreamEmpty { prefix } => "proxy.routes.upstream is empty for prefix "@
            + prefix,
        ConfigFault::ProxyUpstreamNotHttp { prefix } =>
            "proxy.routes.upstream must start with http:// or https:// for prefix "@ + prefix,
        ConfigFault::CanonicalHostEmpty => "server.canonical_host is empty"@,
        ConfigFault::CanonicalHostHasSpace => "server.canonical_host must not contain spaces"@,
    }
}

impl ConfigError {
    /// The fault in words, for the operator.
    pub fn message(&self) -> (r: String)
        ensures
            r@ == fault_text(self@),
    {
        match self {
            ConfigError::HttpListenEmpty =>
                "server.http_listen is empty (required unless acme.challenge=tls-alpn-01)".to_owned(),
            ConfigError::HttpsListenEmpty => "server.https_listen is empty".to_owned(),
            ConfigError::ProfileInvalid { profile } => {
                let mut out = join("server.profile invalid: ", profile.as_str());
                out.append(" (allowed: static_site|public_api|admin_panel)");
                out
            },
            ConfigError::StaticSiteMissing =>
                "server.profile=static_site but [static_site] section is missing".to_owned(),
            ConfigError::StaticSiteRootEmpty => "static_site.root is empty".to_owned(),
            ConfigError::StaticSiteIndexEmpty => "static_site.index is empty".to_owned(),
            ConfigError::StaticSiteCacheControlEmpty =>
                "static_site.cache_control is empty".to_owned(),
            ConfigError::ProxyMissing =>
                "server.profile=public_api but [proxy] section is missing".to_owned(),
            ConfigError::ProxyRoutesEmpty => "proxy.routes is empty".to_owned(),
            ConfigError::RoutePrefixEmpty => "proxy.routes[].prefix is empty".to_owned(),
            ConfigError::RoutePrefixNotRooted =>
                "proxy.routes[].prefix must start with '/'".to_owned(),
            ConfigError::RouteUpstreamEmpty => "proxy.routes[].upstream is empty".to_owned(),
            ConfigError::RouteUpstreamNotHttp =>
                "proxy.routes[].upstream must start with http:// or https://".to_owned(),
            ConfigError::HstsMaxAgeZero =>
                "server.hsts_max_age must be > 0 when hsts=true".to_owned(),
            ConfigError::AcmeDomainsEmpty =>
                "acme.enabled=true but acme.domains is empty".to_owned(),
            ConfigError::AcmeEmailEmpty => "acme.enabled=true but acme.email is empty".to_owned(),
            ConfigError::AcmeChallengeInvalid { challenge } => {
                let mut out = join("acme.challenge invalid: ", challenge.as_str());
                out.append(" (allowed: http-01|tls-alpn-01)");
                out
            },
            ConfigError::ProxyPrefixNotRooted { prefix } => join(
                "proxy.routes.prefix must start with '/': ",
                prefix.as_str(),
            ),
            ConfigError::ProxyUpstreamEmpty { prefix } => join(
                "proxy.routes.upstream is empty for prefix ",
                prefix.as_str(),
            ),
            ConfigError::ProxyUpstreamNotHttp { prefix } => join(
                "proxy.routes.upstream must start with http:// or https:// for prefix ",
                prefix.as_str(),
            ),
            ConfigError::CanonicalHostEmpty => "server.canonical_host is empty".to_owned(),
            ConfigError::CanonicalHostHasSpace =>
                "server.canonical_host must not contain spaces".to_owned(),
        }
    }
}

/// `a` where it names a fault, else `b`.
pub open spec fn first_fault(a: Option<ConfigFault>, b: Option<ConfigFault>) -> Option<
    ConfigFault,
> {
    if a is Some {
        a
    } else {
        b
    }
}

/// Begins with a slash.
pub open spec fn is_rooted(path: Seq<char>) -> bool {
    path.len() > 0 && path[0] == '/'
}

/// Begins with `http://` or `https://`.
pub open spec fn is_http_url(url: Seq<char>) -> bool {
    "http://"@.is_prefix_of(url) || "https://"@.is_prefix_of(url)
}

/// One of the three profiles.
pub open spec fn is_profile(p: Seq<char>) -> bool {
    p == "static_site"@ || p == "public_api"@ || p == "admin_panel"@
}

/// One of the two kinds of challenge.
pub open spec fn is_challenge(c: Seq<char>) -> bool {
    c == "http-01"@ || c == "tls-alpn-01"@
}

/// The plain listener may go unset only where certificates are validated
/// inside TLS; the TLS listener never.
pub open spec fn listen_fault(c: ConfigView) -> Option<ConfigFault> {
    if is_blank(c.server.http_listen) && !(c.acme.enabled && c.acme.challenge == "tls-alpn-01"@) {
        Some(ConfigFault::HttpListenEmpty)
    } else if is_blank(c.server.https_listen) {
        Some(ConfigFault::HttpsListenEmpty)
    } else {
        None
    }
}

/// The profile must be known.
pub open spec fn profile_fault(c: ConfigView) -> Option<ConfigFault> {
    if is_profile(c.server.profile) {
        None
    } else {
        Some(ConfigFault::ProfileInvalid { profile: c.server.profile })
    }
}

/// The static-site profile needs its section, with a root and an index.
pub open spec fn static_site_fault(c: ConfigView) -> Option<ConfigFault> {
    if c.server.profile != "static_site"@ {
        None
    } else {
        match c.static_site {
            None => Some(ConfigFault::StaticSiteMissing),
            Some(s) => if is_blank(s.root) {
                Some(ConfigFault::StaticSiteRootEmpty)
            } else if is_blank(s.index) {
                Some(ConfigFault::StaticSiteIndexEmpty)
            } else if s.cache_control is Some && is_blank(s.cache_control->0) {
                Some(ConfigFault::StaticSiteCacheControlEmpty)
            } else {
                None
            },
        }
    }
}

/// What a route of the API profile must meet.
pub open spec fn api_route_fault(r: RouteView) -> Option<ConfigFault> {
    if is_blank(r.prefix) {
        Some(ConfigFault::RoutePrefixEmpty)
    } else if !is_rooted(r.prefix) {
        Some(ConfigFault::RoutePrefixNotRooted)
    } else if is_blank(r.upstream) {
        Some(ConfigFault::RouteUpstreamEmpty)
    } else if !is_http_url(r.upstream) {
        Some(ConfigFault::RouteUpstreamNotHttp)
    } else {
        None
    }
}

/// The first fault among the routes from `from` on, by `api_route_fault`.
pub open spec fn api_routes_fault(routes: Seq<RouteView>, from: int) -> Option<ConfigFault>
    decreases routes.len() - from,
{
    if from < 0 || from >= routes.len() {
        None
    } else {
        first_fault(api_route_fault(routes[from]), api_routes_fault(routes, from + 1))
    }
}

/// The API profile needs its proxy section, with at least one route, each sound.
pub open spec fn api_fault(c: ConfigView) -> Option<ConfigFault> {
    if c.server.profile != "public_api"@ {
        None
    } else {
        match c.proxy {
            None => Some(ConfigFault::ProxyMissing),
            Some(p) => if p.routes.len() == 0 {
                Some(ConfigFault::ProxyRoutesEmpty)
            } else {
                api_routes_fault(p.routes, 0)
            },
        }
    }
}

/// Transport security needs an age above zero.
pub open spec fn hsts_fault(c: ConfigView) -> Option<ConfigFault> {
    if c.server.hsts && c.server.hsts_max_age == 0 {
        Some(ConfigFault::HstsMaxAgeZero)
    } else {
        None
    }
}

/// Automatic certificates need domains, a contact and a known kind of challenge.
pub open spec fn acme_fault(c: ConfigView) -> Option<ConfigFault> {
    if !c.acme.enabled {
        None
    } else if c.acme.domains.len() == 0 {
        Some(ConfigFault::AcmeDomainsEmpty)
    } else if is_blank(c.acme.email) {
        Some(ConfigFault::AcmeEmailEmpty)
    } else if !is_challenge(c.acme.challenge) {
        Some(ConfigFault::AcmeChallengeInvalid { challenge: c.acme.challenge })
    } else {
        None
    }
}

/// What a route must meet under any profile: a prefix that begins with a
/// slash, and an upstream that is set and is an http or https address.
pub open spec fn proxy_route_fault(r: RouteView) -> Option<ConfigFault> {
    if !is_rooted(r.prefix) {
        Some(ConfigFault::ProxyPrefixNotRooted { prefix: r.prefix })
    } else if is_blank(r.upstream) {
        Some(ConfigFault::ProxyUpstreamEmpty { prefix: r.prefix })
    } else if !is_http_url(r.upstream) {
        Some(ConfigFault::ProxyUpstreamNotHttp { prefix: r.prefix })
    } else {
        None
    }
}

/// The first fault among the routes from `from` on, by `proxy_route_fault`.
pub open spec fn proxy_routes_fault(routes: Seq<RouteView>, from: int) -> Option<ConfigFault>
    decreases routes.len() - from,
{
    if from < 0 || from >= routes.len() {
        None
    } else {
        first_fault(proxy_route_fault(routes[from]), proxy_routes_fault(routes, from + 1))
    }
}

/// Under any profile, the routes of a proxy section are held to `proxy_route_fault`.
pub open spec fn proxy_fault(c: ConfigView) -> Option<ConfigFault> {
    match c.proxy {
        None => None,
        Some(p) => proxy_routes_fault(p.routes, 0),
    }
}

/// A canonical host, where set, is one word.
pub open spec fn canonical_host_fault(c: ConfigView) -> Option<ConfigFault> {
    match c.server.canonical_host {
        None => None,
        Some(h) => if is_blank(h) {
            Some(ConfigFault::CanonicalHostEmpty)
        } else if h.contains(' ') {
            Some(ConfigFault::CanonicalHostHasSpace)
        } else {
            None
        },
    }
}

/// The first rule that `c` breaks, in the order the rules are checked.
pub open spec fn config_fault(c: ConfigView) -> Option<ConfigFault> {
    first_fault(
        listen_fault(c),
        first_fault(
            profile_fault(c),
            first_fault(
                static_site_fault(c),
                first_fault(
                    api_fault(c),
                    first_fault(
                        hsts_fault(c),
                        first_fault(
                            acme_fault(c),
                            first_fault(proxy_fault(c), canonical_host_fault(c)),
                        ),
                    ),
                ),
            ),
        ),
    )
}

/// How a check ended, as the fault it found.
pub open spec fn found(r: Result<(), ConfigError>) -> Option<ConfigFault> {
    match r {
        Ok(_) => None,
        Err(e) => Some(e@),
    }
}

fn check_listen(cfg: &Config) -> (r: Result<(), ConfigError>)
    ensures
        found(r) == listen_fault(cfg@),
{
    if blank(cfg.server.http_listen.as_str()) {
        let inside_tls = cfg.acme.enabled && text_eq(cfg.acme.challenge.as_str(), "tls-alpn-01");
        if !inside_tls {
            return Err(ConfigError::HttpListenEmpty);
        }
    }
    if blank(cfg.server.https_listen.as_str()) {
        return Err(ConfigError::HttpsListenEmpty);
    }
    Ok(())
}

fn check_profile(cfg: &Config) -> (r: Result<(), ConfigError>)
    ensures
        found(r) == profile_fault(cfg@),
{
    let p = cfg.server.profile.as_str();
    if text_eq(p, "static_site") || text_eq(p, "public_api") || text_eq(p, "admin_panel") {
        Ok(())
    } else {
        Err(ConfigError::ProfileInvalid { profile: cfg.server.profile.clone() })
    }
}

fn check_static_site(cfg: &Config) -> (r: Result<(), ConfigError>)
    ensures
        found(r) == static_site_fault(cfg@),
{
    if !text_eq(cfg.server.profile.as_str(), "static_site") {
        return Ok(());
    }
    match &cfg.static_site {
        None => Err(ConfigError::StaticSiteMissing),
        Some(s) => {
            if blank(s.root.as_str()) {
                return Err(ConfigError::StaticSiteRootEmpty);
            }
            if blank(s.index.as_str()) {
                return Err(ConfigError::StaticSiteIndexEmpty);
            }
            match &s.cache_control {
                Some(cc) => {
                    if blank(cc.as_str()) {
                        return Err(ConfigError::StaticSiteCacheControlEmpty);
                    }
                },
                None => {},
            }
            Ok(())
        },
    }
}

/// Whether `path` begins with a slash.
pub fn rooted(path: &str) -> (r: bool)
    ensures
        r == is_rooted(path@),
{
    proof {
        reveal_strlit("/");
        assert(is_rooted(path@) ==> path@.subrange(0, 1) =~= "/"@);
        if "/"@.is_prefix_of(path@) {
            assert(path@.subrange(0, 1)[0] == path@[0]);
        }
    }
    has_prefix(path, "/")
}

/// Whether `url` begins with `http://` or `https://`.
pub fn http_url(url: &str) -> (r: bool)
    ensures
        r == is_http_url(url@),
{
    has_prefix(url, "http://") || has_prefix(url, "https://")
}

fn check_api_route(route: &Route) -> (r: Result<(), ConfigError>)
    ensures
        found(r) == api_route_fault(route@),
{
    if blank(route.prefix.as_str()) {
        return Err(ConfigError::RoutePrefixEmpty);
    }
    if !rooted(route.prefix.as_str()) {
        return Err(ConfigError::RoutePrefixNotRooted);
    }
    if blank(route.upstream.as_str()) {
        return Err(ConfigError::RouteUpstreamEmpty);
    }
    if !http_url(route.upstream.as_str()) {
        return Err(ConfigError::RouteUpstreamNotHttp);
    }
    Ok(())
}

fn check_api_routes(routes: &Vec<Route>) -> (r: Result<(), ConfigError>)
    ensures
        found(r) == api_routes_fault(routes@.map_values(|r: Route| r@), 0),
{
    let ghost views = routes@.map_values(|r: Route| r@);
    let mut i: usize = 0;
    while i < routes.len()
        invariant
            i <= routes.len(),
            views == routes@.map_values(|r: Route| r@),
            api_routes_fault(views, 0) == api_routes_fault(views, i as int),
        decreases routes.len() - i,
    {
        let checked = check_api_route(&routes[i]);
        if checked.is_err() {
            return checked;
        }
        i = i + 1;
    }
    Ok(())
}

fn check_api(cfg: &Config) -> (r: Result<(), ConfigError>)
    ensures
        found(r) == api_fault(cfg@),
{
    if !text_eq(cfg.server.profile.as_str(), "public_api") {
        return Ok(());
    }
    match &cfg.proxy {
        None => Err(ConfigError::ProxyMissing),
        Some(p) => {
            if p.routes.len() == 0 {
                return Err(ConfigError::ProxyRoutesEmpty);
            }
            check_api_routes(&p.routes)
        },
    }
}

fn check_hsts(cfg: &Config) -> (r: Result<(), ConfigError>)
    ensures
        found(r) == hsts_fault(cfg@),
{
    if cfg.server.hsts && cfg.server.hsts_max_age == 0 {
        Err(ConfigError::HstsMaxAgeZero)
    } else {
        Ok(())
    }
}

fn check_acme(cfg: &Config) -> (r: Result<(), ConfigError>)
    ensures
        found(r) == acme_fault(cfg@),
{
    if !cfg.acme.enabled {
        return Ok(());
    }
    if cfg.acme.domains.len() == 0 {
        return Err(ConfigError::AcmeDomainsEmpty);
    }
    if blank(cfg.acme.email.as_str()) {
        return Err(ConfigError::AcmeEmailEmpty);
    }
    let c = cfg.acme.challenge.as_str();
    if text_eq(c, "http-01") || text_eq(c, "tls-alpn-01") {
        Ok(())
    } else {
        Err(ConfigError::AcmeChallengeInvalid { challenge: cfg.acme.challenge.clone() })
    }
}

fn check_proxy_route(route: &Route) -> (r: Result<(), ConfigError>)
    ensures
        found(r) == proxy_route_fault(route@),
{
    if !rooted(route.prefix.as_str()) {
        return Err(ConfigError::ProxyPrefixNotRooted { prefix: route.prefix.clone() });
    }
    if blank(route.upstream.as_str()) {
        return Err(ConfigError::ProxyUpstreamEmpty { prefix: route.prefix.clone() });
    }
    if !http_url(route.upstream.as_str()) {
        return Err(ConfigError::ProxyUpstreamNotHttp { prefix: route.prefix.clone() });
    }
    Ok(())
}

fn check_proxy_routes(routes: &Vec<Route>) -> (r: Result<(), ConfigError>)
    ensures
        found(r) == proxy_routes_fault(routes@.map_values(|r: Route| r@), 0),
{
    let ghost views = routes@.map_values(|r: Route| r@);
    let mut i: usize = 0;
    while i < routes.len()
        invariant
            i <= routes.len(),
            views == routes@.map_values(|r: Route| r@),
            proxy_routes_fault(views, 0) == proxy_routes_fault(views, i as int),
        decreases routes.len() - i,
    {
        let checked = check_proxy_route(&routes[i]);
        if checked.is_err() {
            return checked;
        }
        i = i + 1;
    }
    Ok(())
}

fn check_proxy(cfg: &Config) -> (r: Result<(), ConfigError>)
    ensures
        found(r) == proxy_fault(cfg@),
{
    match &cfg.proxy {
        None => Ok(()),
        Some(p) => {
            check_proxy_routes(&p.routes)
        },
    }
}

fn check_canonical_host(cfg: &Config) -> (r: Result<(), ConfigError>)
    ensures
        found(r) == canonical_host_fault(cfg@),
{
    match &cfg.server.canonical_host {
        None => Ok(()),
        Some(h) => {
            if blank(h.as_str()) {
                return Err(ConfigError::CanonicalHostEmpty);
            }
            if has_char(h.as_str(), ' ') {
                return Err(ConfigError::CanonicalHostHasSpace);
            }
            Ok(())
        },
    }
}

/// Holds `cfg` to the rules, in their order, and names the first it breaks.
pub fn validate(cfg: &Config) -> (r: Result<(), ConfigError>)
    ensures
        found(r) == config_fault(cfg@),
{
    let listen = check_listen(cfg);
    if listen.is_err() {
        return listen;
    }
    let profile = check_profile(cfg);
    if profile.is_err() {
        return profile;
    }
    let static_site = check_static_site(cfg);
    if static_site.is_err() {
        return static_site;
    }
    let api = check_api(cfg);
    if api.is_err() {
        return api;
    }
    let hsts = check_hsts(cfg);
    if hsts.is_err() {
        return hsts;
    }
    let acme = check_acme(cfg);
    if acme.is_err() {
        return acme;
    }
    let proxy = check_proxy(cfg);
    if proxy.is_err() {
        return proxy;
    }
    check_canonical_host(cfg)
}

} // verus!
