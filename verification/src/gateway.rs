//! What the two listeners are set up with: the certificate settings, the
//! policy of the TLS side, and which paths of the plain side belong to
//! certificate challenges.

use vstd::prelude::*;
use crate::config::{Acme, AcmeView, Config, ConfigView};
use crate::headers::{
    bytes_of, header_entries, lemma_visible_text_is_value, no_entries, no_headers, set_header,
};
use crate::middleware::{
    active_stages, http_to_https_redirect, https_redirect, pipeline, policy_of, Redirect,
    RedirectView, SecurityHeaderPolicy, SecurityHeaderPolicyView, Stage,
};
use crate::proxy::{GatewayResponse, GatewayResponseView};
use crate::text::{has_char, join, strip_prefix, text_eq, without_prefix};
use axum::http::HeaderMap;

verus! {

/// How the certificate authority checks that a domain is ours.
#[derive(Debug, Clone, Copy, PartialEq, Eq, Structural)]
pub enum ChallengeKind {
    /// Over the plain listener.
    Http01,
    /// Inside the TLS handshake.
    TlsAlpn01,
}

/// The kind of challenge that a configured name stands for.
pub open spec fn challenge_kind(challenge: Seq<char>) -> ChallengeKind {
    if challenge == "tls-alpn-01"@ {
        ChallengeKind::TlsAlpn01
    } else {
        ChallengeKind::Http01
    }
}

/// What the certificate manager is set up with.
#[derive(Debug, Clone)]
pub struct AcmePlan {
    pub domains: Vec<String>,
    /// The account's contact, as a `mailto:` address.
    pub contact: String,
    pub cache_dir: String,
    /// The production directory; staging where false.
    pub production: bool,
    pub challenge: ChallengeKind,
}

/// `AcmePlan` as the contracts see it.
pub struct AcmePlanView {
    pub domains: Seq<Seq<char>>,
    pub contact: Seq<char>,
    pub cache_dir: Seq<char>,
    pub production: bool,
    pub challenge: ChallengeKind,
}

impl View for AcmePlan {
    type V = AcmePlanView;

    open spec fn view(&self) -> AcmePlanView {
        AcmePlanView {
            domains: self.domains@.map_values(|d: String| d@),
            contact: self.contact@,
            cache_dir: self.cache_dir@,
            production: self.production,
            challenge: self.challenge,
        }
    }
}

/// The certificate settings that an ACME section asks for.
pub open spec fn acme_settings(a: AcmeView) -> AcmePlanView {
    AcmePlanView {
        domains: a.domains,
        contact: "mailto:"@ + a.email,
        cache_dir: a.cache_dir,
        production: a.prod,
        challenge: challenge_kind(a.challenge),
    }
}

/// The certificate settings that a configuration asks for.
pub fn acme_plan(acme: &Acme) -> (r: AcmePlan)
    ensures
        r@ == acme_settings(acme@),
{
    let mut domains: Vec<String> = Vec::new();
    let mut i: usize = 0;
    while i < acme.domains.len()
        invariant
            i <= acme.domains.len(),
            domains@.len() == i,
            forall|j: int| 0 <= j < i ==> domains@[j]@ == acme.domains@[j]@,
        decreases acme.domains.len() - i,
    {
        domains.push(acme.domains[i].clone());
        i = i + 1;
    }
    let challenge = if text_eq(acme.challenge.as_str(), "tls-alpn-01") {
        ChallengeKind::TlsAlpn01
    } else {
        ChallengeKind::Http01
    };
    proof {
        assert(domains@.map_values(|d: String| d@) =~= acme@.domains);
    }
    AcmePlan {
        domains,
        contact: join("mailto:", acme.email.as_str()),
        cache_dir: acme.cache_dir.clone(),
        production: acme.prod,
        challenge,
    }
}

/// What the gateway is started with.
#[derive(Debug, Clone)]
pub struct GatewayPlan {
    pub acme: AcmePlan,
    pub policy: SecurityHeaderPolicy,
    /// The stages around the handler of the TLS side, in the order they act.
    pub stages: Vec<Stage>,
}

/// `GatewayPlan` as the contracts see it.
pub struct GatewayPlanView {
    pub acme: AcmePlanView,
    pub policy: SecurityHeaderPolicyView,
    pub stages: Seq<Stage>,
}

impl View for GatewayPlan {
    type V = GatewayPlanView;

    open spec fn view(&self) -> GatewayPlanView {
        GatewayPlanView { acme: self.acme@, policy: self.policy@, stages: self.stages@ }
    }
}

/// The layout that a configuration asks for.
pub open spec fn gateway_layout(c: ConfigView) -> GatewayPlanView {
    GatewayPlanView {
        acme: acme_settings(c.acme),
        policy: policy_of(c.server),
        stages: active_stages(policy_of(c.server)),
    }
}

/// Lays out the gateway for a configuration.
pub fn gateway_plan(cfg: &Config) -> (r: GatewayPlan)
    ensures
        r@ == gateway_layout(cfg@),
{
    let policy = SecurityHeaderPolicy::from_config(&cfg.server);
    let stages = pipeline(&policy);
    GatewayPlan { acme: acme_plan(&cfg.acme), policy, stages }
}

/// The token that `path` asks the challenge for: what follows
/// `/.well-known/acme-challenge/`, where that is one segment and not empty.
pub open spec fn challenge_token_of(path: Seq<char>) -> Option<Seq<char>> {
    match strip_prefix(path, "/.well-known/acme-challenge/"@) {
        Some(token) => if token.len() > 0 && !token.contains('/') {
            Some(token)
        } else {
            None
        },
        None => None,
    }
}

/// The challenge token that a path of the plain listener names, if it names one.
pub fn challenge_token(path: &str) -> (r: Option<String>)
    ensures
        match r {
            Some(token) => challenge_token_of(path@) == Some(token@),
            None => challenge_token_of(path@) is None,
        },
{
    match without_prefix(path, "/.well-known/acme-challenge/") {
        Some(token) => {
            if !token.as_str().is_empty() && !has_char(token.as_str(), '/') {
                Some(token)
            } else {
                None
            }
        },
        None => None,
    }
}

/// What the plain listener makes of a request.
#[derive(Debug, PartialEq, Eq)]
pub enum PlainRequest {
    /// It asks for the key authorization of this challenge token.
    Challenge { token: String },
    /// It is sent to the TLS side.
    Redirect(Redirect),
}

/// `PlainRequest` as the contracts see it.
pub enum PlainRequestView {
    Challenge { token: Seq<char> },
    Redirect(RedirectView),
}

impl View for PlainRequest {
    type V = PlainRequestView;

    open spec fn view(&self) -> PlainRequestView {
        match self {
            PlainRequest::Challenge { token } => PlainRequestView::Challenge { token: token@ },
            PlainRequest::Redirect(r) => PlainRequestView::Redirect(r@),
        }
    }
}

/// A challenge path is answered as a challenge; every other request is
/// redirected.
pub open spec fn plain_route(
    canonical: Option<Seq<char>>,
    h: Map<Seq<char>, Seq<Seq<u8>>>,
    path: Seq<char>,
    query: Option<Seq<char>>,
) -> PlainRequestView {
    match challenge_token_of(path) {
        Some(token) => PlainRequestView::Challenge { token },
        None => PlainRequestView::Redirect(https_redirect(canonical, h, path, query)),
    }
}

/// Decides what the plain listener does with a request.
pub fn plain_request(
    canonical_host: Option<&str>,
    headers: &HeaderMap,
    path: &str,
    query: Option<&str>,
) -> (r: PlainRequest)
    ensures
        r@ == plain_route(
            match canonical_host {
                Some(c) => Some(c@),
                None => None,
            },
            header_entries(*headers),
            path@,
            match query {
                Some(q) => Some(q@),
                None => None,
            },
        ),
{
    match challenge_token(path) {
        Some(token) => PlainRequest::Challenge { token },
        None => {
            PlainRequest::Redirect(http_to_https_redirect(canonical_host, headers, path, query))
        },
    }
}

/// The answer to a challenge: the key authorization as it is, as a stream
/// of octets; 404 where the token is not pending.
pub open spec fn challenge_reply(key_authorization: Option<Seq<char>>) -> GatewayResponseView {
    match key_authorization {
        Some(key) => GatewayResponseView {
            status: 200,
            headers: no_entries().insert(
                "content-type"@,
                seq![bytes_of("application/octet-stream"@)],
            ),
            body: bytes_of(key),
        },
        None => GatewayResponseView { status: 404, headers: no_entries(), body: Seq::empty() },
    }
}

/// Answers a challenge with what is pending for its token, if anything is.
pub fn challenge_answer(key_authorization: Option<&str>) -> (r: GatewayResponse)
    ensures
        r@ == challenge_reply(
            match key_authorization {
                Some(k) => Some(k@),
                None => None,
            },
        ),
{
    match key_authorization {
        Some(key) => {
            let mut headers = no_headers();
            proof {
                reveal_strlit("content-type");
                reveal_strlit("application/octet-stream");
                lemma_visible_text_is_value("application/octet-stream"@);
            }
            set_header(&mut headers, "content-type", "application/octet-stream");
            GatewayResponse { status: 200, headers, body: key.as_bytes_vec() }
        },
        None => GatewayResponse { status: 404, headers: no_headers(), body: Vec::new() },
    }
}

} // verus!
