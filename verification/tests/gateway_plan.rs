use luciuz::config::{
    default_hsts_max_age, default_http_listen, default_https_listen, Acme, Config, Server,
    Telemetry,
};
use axum::http::{HeaderMap, HeaderValue};
use luciuz::gateway::{
    acme_plan, challenge_answer, challenge_token, gateway_plan, plain_request, ChallengeKind,
    PlainRequest,
};
use luciuz::middleware::{Redirect, Stage};

fn acme(email: &str, challenge: &str, prod: bool) -> Acme {
    Acme {
        enabled: true,
        prod,
        email: email.to_string(),
        domains: vec!["example.org".to_string(), "www.example.org".to_string()],
        cache_dir: "/var/lib/acme".to_string(),
        challenge: challenge.to_string(),
    }
}

#[test]
fn acme_plan_carries_the_settings() {
    let plan = acme_plan(&acme("ops@example.org", "http-01", true));
    assert_eq!(plan.domains, vec!["example.org".to_string(), "www.example.org".to_string()]);
    assert_eq!(plan.contact, "mailto:ops@example.org");
    assert_eq!(plan.cache_dir, "/var/lib/acme");
    assert!(plan.production);
    assert_eq!(plan.challenge, ChallengeKind::Http01);
}

#[test]
fn acme_plan_reads_the_challenge_kind() {
    assert_eq!(acme_plan(&acme("a@b", "tls-alpn-01", false)).challenge, ChallengeKind::TlsAlpn01);
    assert_eq!(acme_plan(&acme("a@b", "http-01", false)).challenge, ChallengeKind::Http01);
    assert!(!acme_plan(&acme("a@b", "http-01", false)).production);
}

#[test]
fn gateway_plan_lays_out_policy_and_stages() {
    let cfg = Config {
        server: Server {
            http_listen: default_http_listen(),
            https_listen: default_https_listen(),
            profile: "public_api".to_string(),
            canonical_host: Some("example.org".to_string()),
            hsts: true,
            hsts_max_age: default_hsts_max_age(),
            hsts_include_subdomains: true,
            hsts_preload: false,
            security_headers: false,
        },
        telemetry: Telemetry::default(),
        acme: acme("ops@example.org", "http-01", false),
        proxy: None,
        static_site: None,
    };
    let plan = gateway_plan(&cfg);
    assert_eq!(plan.acme.contact, "mailto:ops@example.org");
    assert_eq!(plan.policy.canonical_host, Some("example.org".to_string()));
    assert!(plan.policy.hsts);
    assert_eq!(plan.policy.hsts_max_age, 86400);
    assert!(plan.policy.hsts_include_subdomains);
    assert!(!plan.policy.hsts_preload);
    assert!(!plan.policy.security_headers);
    assert_eq!(plan.stages, vec![Stage::CanonicalHost, Stage::Hsts]);
}

#[test]
fn challenge_paths_name_one_token() {
    assert_eq!(challenge_token("/.well-known/acme-challenge/abc_-123"), Some("abc_-123".to_string()));
    assert_eq!(challenge_token("/.well-known/acme-challenge/"), None);
    assert_eq!(challenge_token("/.well-known/acme-challenge/a/b"), None);
    assert_eq!(challenge_token("/.well-known/acme-challenge"), None);
    assert_eq!(challenge_token("/other"), None);
    assert_eq!(challenge_token(""), None);
}

#[test]
fn the_plain_listener_tells_challenges_from_the_rest() {
    let mut headers = HeaderMap::new();
    headers.insert("host", HeaderValue::from_static("example.org:80"));
    assert_eq!(
        plain_request(None, &headers, "/.well-known/acme-challenge/tok", None),
        PlainRequest::Challenge { token: "tok".to_string() }
    );
    assert_eq!(
        plain_request(None, &headers, "/.well-known/acme-challenge/", Some("x=1")),
        PlainRequest::Redirect(Redirect {
            status: 301,
            location: "https://example.org/.well-known/acme-challenge/?x=1".to_string(),
        })
    );
    assert_eq!(
        plain_request(Some("canon.example"), &headers, "/a", None),
        PlainRequest::Redirect(Redirect {
            status: 301,
            location: "https://canon.example/a".to_string(),
        })
    );
}

#[test]
fn a_pending_challenge_is_answered_verbatim() {
    let hit = challenge_answer(Some("tok.thumbprint"));
    assert_eq!(hit.status, 200);
    assert_eq!(hit.body, b"tok.thumbprint");
    assert_eq!(hit.headers.len(), 1);
    assert_eq!(hit.headers.get("content-type").unwrap(), "application/octet-stream");

    let miss = challenge_answer(None);
    assert_eq!(miss.status, 404);
    assert!(miss.headers.is_empty());
    assert!(miss.body.is_empty());
}
