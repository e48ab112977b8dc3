use axum::http::{HeaderMap, HeaderName, HeaderValue};
use luciuz::headers::{
    filter_hop_by_hop, has_room, hop_by_hop_set, is_hop_by_hop_header, status_or_bad_gateway,
    MAX_HEADER_NAMES,
};
use luciuz::proxy::{forward_request_headers, relay_response_headers};

fn headers_of(pairs: &[(&'static str, &'static str)]) -> HeaderMap {
    let mut m = HeaderMap::new();
    for (k, v) in pairs {
        m.append(HeaderName::from_static(k), HeaderValue::from_static(v));
    }
    m
}

fn text(m: &HeaderMap, name: &str) -> Option<String> {
    m.get(name).map(|v| String::from_utf8_lossy(v.as_bytes()).into_owned())
}

#[test]
fn hop_by_hop_set_holds_the_eight_names() {
    let names = hop_by_hop_set();
    assert_eq!(
        names,
        vec![
            "connection",
            "keep-alive",
            "proxy-authenticate",
            "proxy-authorization",
            "te",
            "trailer",
            "transfer-encoding",
            "upgrade",
        ]
    );
}

#[test]
fn hop_by_hop_names_are_recognised() {
    for name in hop_by_hop_set() {
        assert!(is_hop_by_hop_header(&HeaderName::from_static(name)), "{}", name);
    }
    for name in ["host", "content-length", "x-forwarded-for", "tea", "t"] {
        assert!(!is_hop_by_hop_header(&HeaderName::from_static(name)), "{}", name);
    }
    assert!(is_hop_by_hop_header(&HeaderName::from_bytes(b"Connection").unwrap()));
}

#[test]
fn filter_removes_hop_by_hop_headers_only() {
    let m = headers_of(&[
        ("connection", "close"),
        ("keep-alive", "timeout=5"),
        ("proxy-authenticate", "Basic"),
        ("proxy-authorization", "Basic abc"),
        ("te", "trailers"),
        ("trailer", "Expires"),
        ("transfer-encoding", "chunked"),
        ("upgrade", "websocket"),
        ("host", "example.org"),
        ("accept", "text/html"),
        ("accept", "text/plain"),
    ]);
    let out = filter_hop_by_hop(m);
    assert_eq!(out.keys_len(), 2);
    assert_eq!(text(&out, "host").unwrap(), "example.org");
    let accepts: Vec<&HeaderValue> = out.get_all("accept").iter().collect();
    assert_eq!(accepts, vec!["text/html", "text/plain"]);
    for name in hop_by_hop_set() {
        assert!(!out.contains_key(name));
    }
}

#[test]
fn has_room_counts_names() {
    let m = headers_of(&[("a", "1"), ("a", "2"), ("b", "3")]);
    assert!(has_room(&m, 0));
    assert!(has_room(&m, MAX_HEADER_NAMES - 2));
    assert!(!has_room(&m, MAX_HEADER_NAMES - 1));
    assert!(!has_room(&m, usize::MAX));
}

#[test]
fn status_outside_three_digits_becomes_bad_gateway() {
    assert_eq!(status_or_bad_gateway(200), 200);
    assert_eq!(status_or_bad_gateway(100), 100);
    assert_eq!(status_or_bad_gateway(999), 999);
    assert_eq!(status_or_bad_gateway(99), 502);
    assert_eq!(status_or_bad_gateway(1000), 502);
    assert_eq!(status_or_bad_gateway(0), 502);
}

#[test]
fn forwarded_metadata_is_added_when_absent() {
    let m = headers_of(&[("host", "example.org:8443"), ("connection", "close")]);
    let out = forward_request_headers(m, "/api", "/api/foo?q=1", Some("203.0.113.7"));
    assert_eq!(text(&out, "host").unwrap(), "example.org:8443");
    assert_eq!(text(&out, "x-forwarded-host").unwrap(), "example.org:8443");
    assert_eq!(text(&out, "x-forwarded-proto").unwrap(), "https");
    assert_eq!(text(&out, "x-forwarded-prefix").unwrap(), "/api");
    assert_eq!(text(&out, "x-forwarded-uri").unwrap(), "/api/foo?q=1");
    assert_eq!(text(&out, "x-forwarded-for").unwrap(), "203.0.113.7");
    assert!(!out.contains_key("connection"));
    assert_eq!(out.keys_len(), 6);
}

#[test]
fn forwarded_metadata_is_kept_when_present() {
    let m = headers_of(&[
        ("host", "example.org"),
        ("x-forwarded-host", "outer.example"),
        ("x-forwarded-proto", "http"),
        ("x-forwarded-prefix", "/outer"),
        ("x-forwarded-uri", "/outer/x"),
    ]);
    let out = forward_request_headers(m, "/api", "/api/foo", None);
    assert_eq!(text(&out, "x-forwarded-host").unwrap(), "outer.example");
    assert_eq!(text(&out, "x-forwarded-proto").unwrap(), "http");
    assert_eq!(text(&out, "x-forwarded-prefix").unwrap(), "/outer");
    assert_eq!(text(&out, "x-forwarded-uri").unwrap(), "/outer/x");
    assert!(!out.contains_key("x-forwarded-for"));
}

#[test]
fn forwarded_for_is_a_chain() {
    let m = headers_of(&[("x-forwarded-for", "198.51.100.1")]);
    let out = forward_request_headers(m, "/api", "/api", Some("203.0.113.7"));
    assert_eq!(text(&out, "x-forwarded-for").unwrap(), "198.51.100.1, 203.0.113.7");
    assert_eq!(out.get_all("x-forwarded-for").iter().count(), 1);
}

#[test]
fn forwarded_for_starts_anew_over_an_unreadable_chain() {
    let mut m = HeaderMap::new();
    m.insert("x-forwarded-for", HeaderValue::from_bytes(b"\xff\xfe").unwrap());
    let out = forward_request_headers(m, "/api", "/api", Some("2001:db8::1"));
    assert_eq!(text(&out, "x-forwarded-for").unwrap(), "2001:db8::1");
}

#[test]
fn forwarded_host_copies_the_first_host() {
    let m = headers_of(&[("host", "a.example"), ("host", "b.example")]);
    let out = forward_request_headers(m, "/api", "/api", None);
    assert_eq!(text(&out, "x-forwarded-host").unwrap(), "a.example");
    assert_eq!(out.get_all("x-forwarded-host").iter().count(), 1);
    assert_eq!(out.get_all("host").iter().count(), 2);
}

#[test]
fn a_uri_beyond_ascii_is_forwarded_as_its_bytes() {
    let out = forward_request_headers(HeaderMap::new(), "/café", "/café/x", None);
    assert_eq!(out.get("x-forwarded-prefix").unwrap().as_bytes(), "/café".as_bytes());
    assert_eq!(out.get("x-forwarded-uri").unwrap().as_bytes(), "/café/x".as_bytes());
}

#[test]
fn forwarded_for_is_left_where_the_address_cannot_stand_in_a_header() {
    let m = headers_of(&[("x-forwarded-for", "198.51.100.1")]);
    let out = forward_request_headers(m, "/api", "/api", Some("bad\naddress"));
    assert_eq!(text(&out, "x-forwarded-for").unwrap(), "198.51.100.1");
    let out = forward_request_headers(HeaderMap::new(), "/api", "/api", Some("bad\naddress"));
    assert!(!out.contains_key("x-forwarded-for"));
}

#[test]
fn forwarded_host_needs_a_readable_host() {
    let mut m = HeaderMap::new();
    m.insert("host", HeaderValue::from_bytes(b"caf\xc3\xa9.example").unwrap());
    let out = forward_request_headers(m, "/api", "/api", None);
    assert!(!out.contains_key("x-forwarded-host"));
    let out = forward_request_headers(HeaderMap::new(), "/api", "/api", None);
    assert!(!out.contains_key("x-forwarded-host"));
    assert_eq!(out.keys_len(), 3);
}

#[test]
fn a_prefix_that_cannot_stand_in_a_header_is_given_as_a_slash() {
    let out = forward_request_headers(HeaderMap::new(), "/a\nb", "/a\nb/x", None);
    assert_eq!(text(&out, "x-forwarded-prefix").unwrap(), "/");
    assert!(!out.contains_key("x-forwarded-uri"));
}

#[test]
fn response_headers_lose_what_is_the_gateways() {
    let m = headers_of(&[
        ("content-type", "text/plain"),
        ("set-cookie", "a=1"),
        ("set-cookie", "b=2"),
        ("strict-transport-security", "max-age=1"),
        ("server", "nginx"),
        ("x-powered-by", "php"),
        ("via", "1.1 inner"),
        ("connection", "keep-alive"),
        ("transfer-encoding", "chunked"),
        ("x-frame-options", "SAMEORIGIN"),
    ]);
    let out = relay_response_headers(m);
    assert_eq!(out.keys_len(), 3);
    assert_eq!(text(&out, "content-type").unwrap(), "text/plain");
    assert_eq!(text(&out, "x-frame-options").unwrap(), "SAMEORIGIN");
    let cookies: Vec<&HeaderValue> = out.get_all("set-cookie").iter().collect();
    assert_eq!(cookies, vec!["a=1", "b=2"]);
}
