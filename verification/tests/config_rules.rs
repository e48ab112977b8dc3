use luciuz::config::{
    default_acme_cache_dir, default_acme_challenge, default_hsts_max_age, default_http_listen,
    default_https_listen, default_log_level, default_profile, validate, Acme, Config,
    ConfigError, Proxy, Route, Server, StaticSite, Telemetry,
};

fn sound_config() -> Config {
    Config {
        server: Server {
            http_listen: default_http_listen(),
            https_listen: default_https_listen(),
            profile: "admin_panel".to_string(),
            canonical_host: None,
            hsts: false,
            hsts_max_age: default_hsts_max_age(),
            hsts_include_subdomains: false,
            hsts_preload: false,
            security_headers: false,
        },
        telemetry: Telemetry::default(),
        acme: Acme::default(),
        proxy: None,
        static_site: None,
    }
}

fn api_config(routes: Vec<Route>) -> Config {
    let mut cfg = sound_config();
    cfg.server.profile = default_profile();
    cfg.proxy = Some(Proxy { routes, max_body_bytes: 0 });
    cfg
}

fn route(prefix: &str, upstream: &str) -> Route {
    Route { prefix: prefix.to_string(), upstream: upstream.to_string() }
}

#[test]
fn defaults_are_the_documented_values() {
    assert_eq!(default_http_listen(), "127.0.0.1:8080");
    assert_eq!(default_https_listen(), "127.0.0.1:8443");
    assert_eq!(default_profile(), "public_api");
    assert_eq!(default_hsts_max_age(), 86400);
    assert_eq!(default_log_level(), "info");
    assert_eq!(default_acme_cache_dir(), "./acme-cache");
    assert_eq!(default_acme_challenge(), "http-01");
}

#[test]
fn acme_default_is_switched_off() {
    let acme = Acme::default();
    assert!(!acme.enabled);
    assert!(!acme.prod);
    assert_eq!(acme.email, "");
    assert!(acme.domains.is_empty());
    assert_eq!(acme.cache_dir, "./acme-cache");
    assert_eq!(acme.challenge, "http-01");
}

#[test]
fn telemetry_default_is_plain() {
    let t = Telemetry::default();
    assert!(!t.json_logs);
    assert_eq!(t.log_level, "");
}

#[test]
fn sound_config_is_accepted() {
    assert_eq!(validate(&sound_config()), Ok(()));
}

#[test]
fn empty_http_listen_is_refused() {
    let mut cfg = sound_config();
    cfg.server.http_listen = "  \t".to_string();
    assert_eq!(validate(&cfg), Err(ConfigError::HttpListenEmpty));
}

#[test]
fn empty_http_listen_is_accepted_with_tls_alpn() {
    let mut cfg = sound_config();
    cfg.server.http_listen = String::new();
    cfg.acme.enabled = true;
    cfg.acme.challenge = "tls-alpn-01".to_string();
    cfg.acme.domains = vec!["example.org".to_string()];
    cfg.acme.email = "ops@example.org".to_string();
    assert_eq!(validate(&cfg), Ok(()));
}

#[test]
fn empty_http_listen_with_http01_is_refused() {
    let mut cfg = sound_config();
    cfg.server.http_listen = String::new();
    cfg.acme.enabled = true;
    cfg.acme.domains = vec!["example.org".to_string()];
    cfg.acme.email = "ops@example.org".to_string();
    assert_eq!(validate(&cfg), Err(ConfigError::HttpListenEmpty));
}

#[test]
fn empty_https_listen_is_refused() {
    let mut cfg = sound_config();
    cfg.server.https_listen = "\u{3000}".to_string();
    assert_eq!(validate(&cfg), Err(ConfigError::HttpsListenEmpty));
}

#[test]
fn listen_rules_come_before_the_profile_rule() {
    let mut cfg = sound_config();
    cfg.server.https_listen = String::new();
    cfg.server.profile = "nonsense".to_string();
    assert_eq!(validate(&cfg), Err(ConfigError::HttpsListenEmpty));
}

#[test]
fn unknown_profile_is_refused_with_its_name() {
    let mut cfg = sound_config();
    cfg.server.profile = "blog".to_string();
    let err = validate(&cfg).unwrap_err();
    assert_eq!(err, ConfigError::ProfileInvalid { profile: "blog".to_string() });
    assert_eq!(
        err.message(),
        "server.profile invalid: blog (allowed: static_site|public_api|admin_panel)"
    );
}

#[test]
fn static_site_profile_needs_its_section() {
    let mut cfg = sound_config();
    cfg.server.profile = "static_site".to_string();
    assert_eq!(validate(&cfg), Err(ConfigError::StaticSiteMissing));
    cfg.static_site = Some(StaticSite {
        root: " ".to_string(),
        index: "index.html".to_string(),
        cache_control: None,
    });
    assert_eq!(validate(&cfg), Err(ConfigError::StaticSiteRootEmpty));
    cfg.static_site = Some(StaticSite {
        root: "/srv/www".to_string(),
        index: String::new(),
        cache_control: None,
    });
    assert_eq!(validate(&cfg), Err(ConfigError::StaticSiteIndexEmpty));
    cfg.static_site = Some(StaticSite {
        root: "/srv/www".to_string(),
        index: "index.html".to_string(),
        cache_control: Some("\n".to_string()),
    });
    assert_eq!(validate(&cfg), Err(ConfigError::StaticSiteCacheControlEmpty));
    cfg.static_site = Some(StaticSite {
        root: "/srv/www".to_string(),
        index: "index.html".to_string(),
        cache_control: Some("max-age=60".to_string()),
    });
    assert_eq!(validate(&cfg), Ok(()));
}

#[test]
fn static_site_section_is_not_read_under_another_profile() {
    let mut cfg = sound_config();
    cfg.static_site =
        Some(StaticSite { root: String::new(), index: String::new(), cache_control: None });
    assert_eq!(validate(&cfg), Ok(()));
}

#[test]
fn api_profile_needs_routes() {
    let mut cfg = sound_config();
    cfg.server.profile = "public_api".to_string();
    assert_eq!(validate(&cfg), Err(ConfigError::ProxyMissing));
    assert_eq!(validate(&api_config(vec![])), Err(ConfigError::ProxyRoutesEmpty));
    assert_eq!(validate(&api_config(vec![route("/api", "http://127.0.0.1:3000")])), Ok(()));
}

#[test]
fn api_routes_are_held_to_each_rule() {
    assert_eq!(
        validate(&api_config(vec![route(" ", "http://a")])),
        Err(ConfigError::RoutePrefixEmpty)
    );
    assert_eq!(
        validate(&api_config(vec![route("api", "http://a")])),
        Err(ConfigError::RoutePrefixNotRooted)
    );
    assert_eq!(
        validate(&api_config(vec![route("/api", "")])),
        Err(ConfigError::RouteUpstreamEmpty)
    );
    assert_eq!(
        validate(&api_config(vec![route("/api", "ftp://a")])),
        Err(ConfigError::RouteUpstreamNotHttp)
    );
    assert_eq!(validate(&api_config(vec![route("/api", "https://a")])), Ok(()));
}

#[test]
fn the_first_faulty_route_is_named() {
    let cfg = api_config(vec![
        route("/ok", "http://a"),
        route("/api", "ftp://a"),
        route("", "http://a"),
    ]);
    assert_eq!(validate(&cfg), Err(ConfigError::RouteUpstreamNotHttp));
}

#[test]
fn hsts_needs_an_age() {
    let mut cfg = sound_config();
    cfg.server.hsts = true;
    cfg.server.hsts_max_age = 0;
    let err = validate(&cfg).unwrap_err();
    assert_eq!(err, ConfigError::HstsMaxAgeZero);
    assert_eq!(err.message(), "server.hsts_max_age must be > 0 when hsts=true");
    cfg.server.hsts = false;
    assert_eq!(validate(&cfg), Ok(()));
}

#[test]
fn acme_needs_domains_email_and_a_known_challenge() {
    let mut cfg = sound_config();
    cfg.acme.enabled = true;
    assert_eq!(validate(&cfg), Err(ConfigError::AcmeDomainsEmpty));
    cfg.acme.domains = vec!["example.org".to_string()];
    assert_eq!(validate(&cfg), Err(ConfigError::AcmeEmailEmpty));
    cfg.acme.email = "ops@example.org".to_string();
    assert_eq!(validate(&cfg), Ok(()));
    cfg.acme.challenge = "dns-01".to_string();
    let err = validate(&cfg).unwrap_err();
    assert_eq!(err, ConfigError::AcmeChallengeInvalid { challenge: "dns-01".to_string() });
    assert_eq!(err.message(), "acme.challenge invalid: dns-01 (allowed: http-01|tls-alpn-01)");
}

#[test]
fn routes_are_checked_under_every_profile() {
    let mut cfg = sound_config();
    cfg.proxy = Some(Proxy { routes: vec![route("api", "http://a")], max_body_bytes: 0 });
    let err = validate(&cfg).unwrap_err();
    assert_eq!(err, ConfigError::ProxyPrefixNotRooted { prefix: "api".to_string() });
    assert_eq!(err.message(), "proxy.routes.prefix must start with '/': api");
    cfg.proxy = Some(Proxy { routes: vec![route("/api", " ")], max_body_bytes: 0 });
    let err = validate(&cfg).unwrap_err();
    assert_eq!(err, ConfigError::ProxyUpstreamEmpty { prefix: "/api".to_string() });
    assert_eq!(err.message(), "proxy.routes.upstream is empty for prefix /api");
    cfg.proxy = Some(Proxy { routes: vec![route("/api", "ftp://127.0.0.1")], max_body_bytes: 0 });
    let err = validate(&cfg).unwrap_err();
    assert_eq!(err, ConfigError::ProxyUpstreamNotHttp { prefix: "/api".to_string() });
    assert_eq!(
        err.message(),
        "proxy.routes.upstream must start with http:// or https:// for prefix /api"
    );
    cfg.proxy = Some(Proxy {
        routes: vec![route("/api", "http://127.0.0.1"), route("/", "https://127.0.0.1:8000/")],
        max_body_bytes: 0,
    });
    assert_eq!(validate(&cfg), Ok(()));
}

#[test]
fn a_later_route_with_another_scheme_is_refused_under_any_profile() {
    for profile in ["admin_panel", "static_site"] {
        let mut cfg = sound_config();
        cfg.server.profile = profile.to_string();
        cfg.static_site = Some(StaticSite {
            root: "/srv/www".to_string(),
            index: "index.html".to_string(),
            cache_control: None,
        });
        cfg.proxy = Some(Proxy {
            routes: vec![route("/ok", "https://a"), route("/files", "file:///etc")],
            max_body_bytes: 0,
        });
        assert_eq!(
            validate(&cfg),
            Err(ConfigError::ProxyUpstreamNotHttp { prefix: "/files".to_string() }),
            "{}",
            profile
        );
    }
}

#[test]
fn canonical_host_is_a_single_word() {
    let mut cfg = sound_config();
    cfg.server.canonical_host = Some(" ".to_string());
    assert_eq!(validate(&cfg), Err(ConfigError::CanonicalHostEmpty));
    cfg.server.canonical_host = Some("example .org".to_string());
    assert_eq!(validate(&cfg), Err(ConfigError::CanonicalHostHasSpace));
    cfg.server.canonical_host = Some("example.org".to_string());
    assert_eq!(validate(&cfg), Ok(()));
}

#[test]
fn every_fault_has_its_wording() {
    assert_eq!(
        ConfigError::HttpListenEmpty.message(),
        "server.http_listen is empty (required unless acme.challenge=tls-alpn-01)"
    );
    assert_eq!(ConfigError::HttpsListenEmpty.message(), "server.https_listen is empty");
    assert_eq!(
        ConfigError::StaticSiteMissing.message(),
        "server.profile=static_site but [static_site] section is missing"
    );
    assert_eq!(ConfigError::StaticSiteRootEmpty.message(), "static_site.root is empty");
    assert_eq!(ConfigError::StaticSiteIndexEmpty.message(), "static_site.index is empty");
    assert_eq!(
        ConfigError::StaticSiteCacheControlEmpty.message(),
        "static_site.cache_control is empty"
    );
    assert_eq!(
        ConfigError::ProxyMissing.message(),
        "server.profile=public_api but [proxy] section is missing"
    );
    assert_eq!(ConfigError::ProxyRoutesEmpty.message(), "proxy.routes is empty");
    assert_eq!(ConfigError::RoutePrefixEmpty.message(), "proxy.routes[].prefix is empty");
    assert_eq!(
        ConfigError::RoutePrefixNotRooted.message(),
        "proxy.routes[].prefix must start with '/'"
    );
    assert_eq!(ConfigError::RouteUpstreamEmpty.message(), "proxy.routes[].upstream is empty");
    assert_eq!(
        ConfigError::RouteUpstreamNotHttp.message(),
        "proxy.routes[].upstream must start with http:// or https://"
    );
    assert_eq!(
        ConfigError::AcmeDomainsEmpty.message(),
        "acme.enabled=true but acme.domains is empty"
    );
    assert_eq!(ConfigError::AcmeEmailEmpty.message(), "acme.enabled=true but acme.email is empty");
    assert_eq!(ConfigError::CanonicalHostEmpty.message(), "server.canonical_host is empty");
    assert_eq!(
        ConfigError::CanonicalHostHasSpace.message(),
        "server.canonical_host must not contain spaces"
    );
}
