use luciuz::config::{
    default_hsts_max_age, default_http_listen, default_https_listen, Acme, Config, Proxy, Route,
    Server, Telemetry,
};
use luciuz::proxy::{
    rewrite_path, router, select_route, serves, upstream_url, with_query, ProxyError,
    DEFAULT_MAX_BODY_BYTES, UPSTREAM_TIMEOUT_SECS,
};

fn config_with(proxy: Option<Proxy>) -> Config {
    Config {
        server: Server {
            http_listen: default_http_listen(),
            https_listen: default_https_listen(),
            profile: "public_api".to_string(),
            canonical_host: None,
            hsts: false,
            hsts_max_age: default_hsts_max_age(),
            hsts_include_subdomains: false,
            hsts_preload: false,
            security_headers: false,
        },
        telemetry: Telemetry::default(),
        acme: Acme::default(),
        proxy,
        static_site: None,
    }
}

fn configured(prefix: &str, upstream: &str) -> Route {
    Route { prefix: prefix.to_string(), upstream: upstream.to_string() }
}

#[test]
fn api_prefix_alone_goes_to_the_root() {
    assert_eq!(rewrite_path("/api", "/api"), "/");
    assert_eq!(upstream_url("http://up", "/api", "/api", None), "http://up/");
}

#[test]
fn api_prefix_with_slash_goes_to_the_root() {
    assert_eq!(rewrite_path("/api", "/api/"), "/");
    assert_eq!(upstream_url("http://up", "/api", "/api/", None), "http://up/");
}

#[test]
fn api_path_keeps_what_follows_and_its_query() {
    assert_eq!(rewrite_path("/api", "/api/foo"), "/foo");
    assert_eq!(upstream_url("http://up", "/api", "/api/foo", Some("q=1")), "http://up/foo?q=1");
}

#[test]
fn root_prefix_leaves_the_path() {
    assert_eq!(rewrite_path("/", "/foo"), "/foo");
    assert_eq!(rewrite_path("/", "/"), "/");
    assert_eq!(rewrite_path("/", ""), "/");
}

#[test]
fn a_path_outside_the_prefix_is_left_as_it_is() {
    assert_eq!(rewrite_path("/api", "/other"), "/other");
    assert_eq!(rewrite_path("/api", ""), "/");
}

#[test]
fn a_prefix_is_removed_wherever_the_path_begins_with_it() {
    assert_eq!(rewrite_path("/api", "/apix"), "x");
}

#[test]
fn upstream_base_loses_its_trailing_slashes() {
    assert_eq!(upstream_url("http://up//", "/api", "/api/a", None), "http://up/a");
    assert_eq!(upstream_url("http://up/base/", "/api", "/api", Some("")), "http://up/base/?");
}

#[test]
fn with_query_appends_after_a_question_mark() {
    assert_eq!(with_query("/a".to_string(), Some("b=c&d")), "/a?b=c&d");
    assert_eq!(with_query("/a".to_string(), None), "/a");
}

#[test]
fn router_needs_a_proxy_section() {
    let err = router(&config_with(None)).unwrap_err();
    assert_eq!(err, ProxyError::MissingProxyConfig);
    assert_eq!(err.message(), "missing [proxy] config");
}

#[test]
fn router_mounts_every_route_in_order_without_trailing_slashes() {
    let cfg = config_with(Some(Proxy {
        routes: vec![
            configured("/api/", "http://one/"),
            configured("/", "http://root"),
            configured("//", "http://slashes/"),
            configured("", "http://bare"),
            configured("/v2", "https://two//"),
        ],
        max_body_bytes: 0,
    }));
    let table = router(&cfg).unwrap();
    assert_eq!(
        table.routes,
        vec![
            configured("/api", "http://one"),
            configured("/", "http://root"),
            configured("/", "http://slashes"),
            configured("/", "http://bare"),
            configured("/v2", "https://two"),
        ]
    );
    assert_eq!(table.max_body_bytes, 10 * 1024 * 1024);
    assert_eq!(table.max_body_bytes, DEFAULT_MAX_BODY_BYTES);
    assert_eq!(table.timeout_secs, 30);
    assert_eq!(table.timeout_secs, UPSTREAM_TIMEOUT_SECS);
}

#[test]
fn the_root_route_serves_every_path_as_it_is() {
    let cfg = config_with(Some(Proxy {
        routes: vec![configured("/", "http://up/")],
        max_body_bytes: 0,
    }));
    let table = router(&cfg).unwrap();
    assert_eq!(table.routes.len(), 1);
    for path in ["/", "/foo", "/api/v2/x", "//"] {
        assert_eq!(select_route(&table, path), Some(0), "{}", path);
        let route = &table.routes[0];
        assert_eq!(rewrite_path(&route.prefix, path), path);
        assert_eq!(
            upstream_url(&route.upstream, &route.prefix, path, Some("q=1")),
            format!("http://up{}?q=1", path)
        );
    }
    assert_eq!(select_route(&table, ""), None);
    assert_eq!(select_route(&table, "foo"), None);
}

#[test]
fn a_root_route_after_others_takes_what_they_leave() {
    let cfg = config_with(Some(Proxy {
        routes: vec![configured("/api", "http://one"), configured("/", "http://rest")],
        max_body_bytes: 0,
    }));
    let table = router(&cfg).unwrap();
    assert_eq!(select_route(&table, "/api/x"), Some(0));
    assert_eq!(select_route(&table, "/apix"), Some(1));
    assert_eq!(select_route(&table, "/"), Some(1));
}

#[test]
fn router_keeps_a_configured_body_limit() {
    let cfg = config_with(Some(Proxy { routes: vec![], max_body_bytes: 4096 }));
    let table = router(&cfg).unwrap();
    assert!(table.routes.is_empty());
    assert_eq!(table.max_body_bytes, 4096);
}

#[test]
fn a_route_serves_its_prefix_and_what_is_below() {
    assert!(serves("/api", "/api"));
    assert!(serves("/api", "/api/"));
    assert!(serves("/api", "/api/a/b"));
    assert!(!serves("/api", "/apix"));
    assert!(!serves("/api", "/"));
    assert!(!serves("/api", "/ap"));
    assert!(serves("/", "/"));
    assert!(serves("/", "/anything/at/all"));
    assert!(!serves("/", ""));
    assert!(!serves("/", "relative"));
}

#[test]
fn the_first_route_that_serves_a_path_wins() {
    let cfg = config_with(Some(Proxy {
        routes: vec![
            configured("/api", "http://one"),
            configured("/api/v2", "http://two"),
            configured("/files", "http://three"),
        ],
        max_body_bytes: 0,
    }));
    let table = router(&cfg).unwrap();
    assert_eq!(select_route(&table, "/api/v2/x"), Some(0));
    assert_eq!(select_route(&table, "/files"), Some(2));
    assert_eq!(select_route(&table, "/filesystem"), None);
    assert_eq!(select_route(&table, "/"), None);
}
