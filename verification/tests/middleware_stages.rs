use axum::http::{HeaderMap, HeaderName, HeaderValue};
use luciuz::headers::MAX_HEADER_NAMES;
use luciuz::config::{default_http_listen, default_https_listen, Server};
use luciuz::middleware::{
    canonical_host_mw, hsts_mw, hsts_value, http_to_https_redirect, on_request, on_response,
    pipeline, request_host, security_headers_mw, try_on_response, Redirect,
    SecurityHeaderPolicy, Stage,
};
use luciuz::proxy::relay_response_headers;

fn with_host(host: &'static str) -> HeaderMap {
    let mut m = HeaderMap::new();
    m.insert("host", HeaderValue::from_static(host));
    m
}

fn policy(hsts: bool, security_headers: bool, canonical: Option<&str>) -> SecurityHeaderPolicy {
    SecurityHeaderPolicy {
        hsts,
        hsts_max_age: 31536000,
        hsts_include_subdomains: true,
        hsts_preload: false,
        security_headers,
        canonical_host: canonical.map(|c| c.to_string()),
    }
}

#[test]
fn request_host_drops_the_port() {
    assert_eq!(request_host(&with_host("example.org:8443")), Some("example.org".to_string()));
    assert_eq!(request_host(&with_host("example.org")), Some("example.org".to_string()));
    assert_eq!(request_host(&HeaderMap::new()), None);
}

#[test]
fn another_host_is_redirected_to_the_canonical_one() {
    let r = canonical_host_mw("example.org", &with_host("www.example.org:443"), "/a/b", Some("c=d"));
    assert_eq!(
        r,
        Some(Redirect { status: 308, location: "https://example.org/a/b?c=d".to_string() })
    );
}

#[test]
fn the_canonical_host_passes_with_or_without_port() {
    assert_eq!(canonical_host_mw("example.org", &with_host("example.org"), "/", None), None);
    assert_eq!(canonical_host_mw("example.org", &with_host("example.org:8443"), "/", None), None);
}

#[test]
fn a_request_without_host_passes() {
    assert_eq!(canonical_host_mw("example.org", &HeaderMap::new(), "/", None), None);
}

#[test]
fn host_comparison_is_exact() {
    let r = canonical_host_mw("example.org", &with_host("EXAMPLE.org"), "/x", None);
    assert_eq!(r, Some(Redirect { status: 308, location: "https://example.org/x".to_string() }));
}

#[test]
fn hsts_value_spells_age_and_directives() {
    assert_eq!(hsts_value(86400, false, false), "max-age=86400");
    assert_eq!(hsts_value(31536000, true, false), "max-age=31536000; includeSubDomains");
    assert_eq!(hsts_value(1, false, true), "max-age=1; preload");
    assert_eq!(hsts_value(0, true, true), "max-age=0; includeSubDomains; preload");
    assert_eq!(
        hsts_value(u64::MAX, true, true),
        "max-age=18446744073709551615; includeSubDomains; preload"
    );
}

#[test]
fn hsts_overwrites_what_the_response_held() {
    let mut m = HeaderMap::new();
    m.append("strict-transport-security", HeaderValue::from_static("max-age=1"));
    m.append("strict-transport-security", HeaderValue::from_static("max-age=2"));
    hsts_mw(&mut m, 600, true, true);
    let all: Vec<&HeaderValue> = m.get_all("strict-transport-security").iter().collect();
    assert_eq!(all, vec!["max-age=600; includeSubDomains; preload"]);
}

#[test]
fn security_headers_are_added_when_absent() {
    let mut m = HeaderMap::new();
    security_headers_mw(&mut m);
    assert_eq!(m.len(), 5);
    assert_eq!(m.get("x-content-type-options").unwrap(), "nosniff");
    assert_eq!(m.get("referrer-policy").unwrap(), "strict-origin-when-cross-origin");
    assert_eq!(m.get("x-frame-options").unwrap(), "DENY");
    assert_eq!(m.get("cross-origin-opener-policy").unwrap(), "same-origin");
    assert_eq!(m.get("cross-origin-resource-policy").unwrap(), "same-site");
}

#[test]
fn a_frame_options_header_of_the_upstream_is_kept() {
    let mut upstream = HeaderMap::new();
    upstream.insert("x-frame-options", HeaderValue::from_static("SAMEORIGIN"));
    upstream.insert("referrer-policy", HeaderValue::from_static("no-referrer"));
    let mut m = relay_response_headers(upstream);
    security_headers_mw(&mut m);
    assert_eq!(m.get("x-frame-options").unwrap(), "SAMEORIGIN");
    assert_eq!(m.get("referrer-policy").unwrap(), "no-referrer");
    assert_eq!(m.get("x-content-type-options").unwrap(), "nosniff");
    assert_eq!(m.len(), 5);
}

#[test]
fn the_plain_listener_redirects_to_https() {
    let r = http_to_https_redirect(None, &with_host("example.org:80"), "/a", Some("b=1"));
    assert_eq!(r, Redirect { status: 301, location: "https://example.org/a?b=1".to_string() });
    let r = http_to_https_redirect(Some("canon.example"), &with_host("example.org"), "/a", None);
    assert_eq!(r, Redirect { status: 301, location: "https://canon.example/a".to_string() });
    let r = http_to_https_redirect(None, &HeaderMap::new(), "/", None);
    assert_eq!(r, Redirect { status: 301, location: "https://luciuz.com/".to_string() });
}

#[test]
fn policy_is_read_from_the_server_section() {
    let server = Server {
        http_listen: default_http_listen(),
        https_listen: default_https_listen(),
        profile: "public_api".to_string(),
        canonical_host: Some("example.org".to_string()),
        hsts: true,
        hsts_max_age: 600,
        hsts_include_subdomains: false,
        hsts_preload: true,
        security_headers: true,
    };
    let p = SecurityHeaderPolicy::from_config(&server);
    assert!(p.hsts);
    assert_eq!(p.hsts_max_age, 600);
    assert!(!p.hsts_include_subdomains);
    assert!(p.hsts_preload);
    assert!(p.security_headers);
    assert_eq!(p.canonical_host, Some("example.org".to_string()));
}

#[test]
fn stages_follow_the_policy_in_order() {
    assert_eq!(pipeline(&policy(false, false, None)), vec![]);
    assert_eq!(
        pipeline(&policy(true, true, Some("example.org"))),
        vec![Stage::CanonicalHost, Stage::Hsts, Stage::SecurityHeaders]
    );
    assert_eq!(pipeline(&policy(false, true, None)), vec![Stage::SecurityHeaders]);
    assert_eq!(pipeline(&policy(true, false, None)), vec![Stage::Hsts]);
}

#[test]
fn on_request_redirects_only_with_a_canonical_host() {
    let h = with_host("www.example.org");
    assert_eq!(on_request(&policy(true, true, None), &h, "/", None), None);
    assert_eq!(
        on_request(&policy(false, false, Some("example.org")), &h, "/p", Some("q")),
        Some(Redirect { status: 308, location: "https://example.org/p?q".to_string() })
    );
}

#[test]
fn hsts_is_on_a_proxied_response_iff_switched_on() {
    let mut upstream = HeaderMap::new();
    upstream.insert("strict-transport-security", HeaderValue::from_static("max-age=5"));
    upstream.insert("content-type", HeaderValue::from_static("text/html"));

    let mut off = relay_response_headers(upstream.clone());
    on_response(&policy(false, false, None), &mut off);
    assert!(!off.contains_key("strict-transport-security"));
    assert_eq!(off.len(), 1);

    let mut on = relay_response_headers(upstream);
    on_response(&policy(true, false, None), &mut on);
    assert_eq!(
        on.get("strict-transport-security").unwrap(),
        "max-age=31536000; includeSubDomains"
    );
    assert_eq!(on.len(), 2);
}

#[test]
fn on_response_applies_both_stages() {
    let mut m = HeaderMap::new();
    m.insert("x-frame-options", HeaderValue::from_static("SAMEORIGIN"));
    on_response(&policy(true, true, None), &mut m);
    assert_eq!(m.len(), 6);
    assert_eq!(m.get("x-frame-options").unwrap(), "SAMEORIGIN");
    assert_eq!(m.get("strict-transport-security").unwrap(), "max-age=31536000; includeSubDomains");
}

#[test]
fn the_stages_leave_a_full_map_as_it_is() {
    let mut full = HeaderMap::new();
    let mut i = 0;
    while full.keys_len() + 6 <= MAX_HEADER_NAMES {
        let name = HeaderName::from_bytes(format!("x-filler-{}", i).as_bytes()).unwrap();
        full.insert(name, HeaderValue::from_static("1"));
        i += 1;
    }
    let before = full.clone();
    assert!(!try_on_response(&policy(true, true, None), &mut full));
    assert_eq!(full, before);

    let mut m = HeaderMap::new();
    assert!(try_on_response(&policy(true, true, None), &mut m));
    assert_eq!(m.len(), 6);
}
