use http::{HeaderMap, HeaderValue};
use tower_sombrero::csp::CspLayer;
use tower_sombrero::headers::XFrameOptions;
use tower_sombrero::nonce::store_nonce;
use tower_sombrero::{
    random_string, ContentSecurityPolicy, CspNonce, CspSource, Error, NonceNotFoundError,
    Sombrero,
};

/// Runs one request through the middleware's steps and returns the response
/// headers and the nonce that handlers would see.
fn run_request(sombrero: &Sombrero, mut headers: HeaderMap) -> (HeaderMap, String) {
    let mut extensions = http::Extensions::new();
    let prepared = sombrero.begin_request(&mut extensions).unwrap();
    let seen = CspNonce::from_extensions(&extensions).unwrap();
    assert_eq!(seen.as_str(), prepared.nonce);
    sombrero.attach(prepared, &mut headers);
    (headers, seen.0)
}

fn helper_get_nonce(headers: &HeaderMap, name: &str) -> String {
    headers
        .get(name)
        .unwrap()
        .to_str()
        .unwrap()
        .trim_start_matches("script-src 'nonce-")
        .trim_end_matches("';")
        .to_string()
}

#[test]
fn sombrero_layer_adds_csp() {
    let sombrero = Sombrero::default();
    let (headers, _) = run_request(&sombrero, HeaderMap::new());
    let csp = headers.get("content-security-policy").unwrap().to_str().unwrap();
    assert!(csp.contains("default-src 'self';"));
    assert!(csp.contains("base-uri 'self';"));
}

#[test]
fn sombrero_layer_changes_csp_nonce() {
    let csp = ContentSecurityPolicy::new().script_src(vec![CspSource::Nonce]);
    let sombrero = Sombrero::new().content_security_policy(csp);
    let (resp1, _) = run_request(&sombrero, HeaderMap::new());
    let (resp2, _) = run_request(&sombrero, HeaderMap::new());
    let nonce1 = helper_get_nonce(&resp1, "content-security-policy");
    let nonce2 = helper_get_nonce(&resp2, "content-security-policy");
    assert_ne!(nonce1, nonce2);
}

#[test]
fn sombrero_layer_one_nonce_per_request() {
    let csp = ContentSecurityPolicy::new().script_src(vec![CspSource::Nonce]);
    let sombrero = Sombrero::new()
        .content_security_policy(csp.clone())
        .content_security_policy_report_only(csp);
    let (headers, _) = run_request(&sombrero, HeaderMap::new());
    let nonce_ac = helper_get_nonce(&headers, "content-security-policy");
    let nonce_ro = helper_get_nonce(&headers, "content-security-policy-report-only");
    assert_eq!(nonce_ac, nonce_ro);
}

#[test]
fn nonce_in_header_matches_stored_nonce() {
    let csp = ContentSecurityPolicy::new().script_src(vec![CspSource::Nonce]);
    let sombrero = Sombrero::new().content_security_policy(csp);
    let (headers, stored) = run_request(&sombrero, HeaderMap::new());
    assert_eq!(helper_get_nonce(&headers, "content-security-policy"), stored);
    assert_eq!(stored.len(), 32);
}

#[test]
fn default_sets_static_headers() {
    let (headers, _) = run_request(&Sombrero::default(), HeaderMap::new());
    assert_eq!(headers.get("x-frame-options").unwrap(), "SAMEORIGIN");
    assert_eq!(headers.get("x-content-type-options").unwrap(), "nosniff");
    assert_eq!(
        headers.get("strict-transport-security").unwrap(),
        "max-age=15552000;includeSubDomains"
    );
    assert_eq!(headers.get("referrer-policy").unwrap(), "no-referrer");
    assert_eq!(headers.get("x-xss-protection").unwrap(), "0");
    assert_eq!(headers.get("origin-agent-cluster").unwrap(), "?1");
    assert!(headers.get("x-dns-prefetch-control").is_none());
    assert!(headers.get("cross-origin-embedder-policy").is_none());
    assert!(headers.get("content-security-policy-report-only").is_none());
}

#[test]
fn middleware_replaces_handler_headers() {
    let mut before = HeaderMap::new();
    before.append("x-frame-options", HeaderValue::from_static("DENY"));
    before.append("x-frame-options", HeaderValue::from_static("ALLOW"));
    before.insert("x-custom", HeaderValue::from_static("kept"));
    let (headers, _) = run_request(&Sombrero::default(), before);
    let all: Vec<_> = headers.get_all("x-frame-options").iter().collect();
    assert_eq!(all.len(), 1);
    assert_eq!(all[0], "SAMEORIGIN");
    assert_eq!(headers.get("x-custom").unwrap(), "kept");
}

#[test]
fn empty_configuration_sets_nothing() {
    let (headers, _) = run_request(&Sombrero::new(), HeaderMap::new());
    assert!(headers.is_empty());
}

#[test]
fn removed_header_is_not_set() {
    let sombrero = Sombrero::default()
        .remove_x_frame_options()
        .x_dns_prefetch_control(tower_sombrero::headers::XDnsPrefetchControl::On);
    let (headers, _) = run_request(&sombrero, HeaderMap::new());
    assert!(headers.get("x-frame-options").is_none());
    assert_eq!(headers.get("x-dns-prefetch-control").unwrap(), "on");
    let sombrero = sombrero.x_frame_options(XFrameOptions::Deny);
    let (headers, _) = run_request(&sombrero, HeaderMap::new());
    assert_eq!(headers.get("x-frame-options").unwrap(), "DENY");
}

#[test]
fn bad_policy_fails_before_storing_nonce() {
    let csp = ContentSecurityPolicy::new().img_src(vec![CspSource::Host("a\rb".to_string())]);
    let sombrero = Sombrero::new().content_security_policy(csp);
    let mut extensions = http::Extensions::new();
    assert!(sombrero.prepare("abc".to_string(), &mut extensions).is_err());
    assert!(CspNonce::from_extensions(&extensions).is_err());
}

#[test]
fn prepare_uses_given_nonce() {
    let csp = ContentSecurityPolicy::new().script_src(vec![CspSource::Nonce]);
    let sombrero = Sombrero::new().content_security_policy(csp);
    let mut extensions = http::Extensions::new();
    let prepared = sombrero.prepare("fixed".to_string(), &mut extensions).unwrap();
    assert_eq!(prepared.nonce, "fixed");
    assert_eq!(prepared.content_security_policy.unwrap(), "script-src 'nonce-fixed';");
    assert!(prepared.content_security_policy_report_only.is_none());
    assert_eq!(CspNonce::from_extensions(&extensions).unwrap().as_str(), "fixed");
}

#[test]
fn missing_nonce_is_an_error() {
    let extensions = http::Extensions::new();
    let err = CspNonce::from_extensions(&extensions).unwrap_err();
    assert_eq!(err.message(), "Nonce not found in extensions!");
    let wrapped = Error::from(err);
    assert!(matches!(wrapped, Error::NonceMiddlewareNotEnabled(NonceNotFoundError)));
}

#[test]
fn stored_nonce_is_read_back() {
    let mut extensions = http::Extensions::new();
    store_nonce(&mut extensions, &"first".to_string());
    store_nonce(&mut extensions, &"second".to_string());
    assert_eq!(CspNonce::from_extensions(&extensions).unwrap().as_str(), "second");
}

#[test]
fn random_string_is_alphanumeric() {
    let s = random_string(64);
    assert_eq!(s.len(), 64);
    assert!(s.chars().all(|c| c.is_ascii_alphanumeric()));
    assert_eq!(random_string(0), "");
    assert_ne!(random_string(32), random_string(32));
}

#[test]
fn csp_layer_sets_one_header() {
    let csp = ContentSecurityPolicy::new().script_src(vec![CspSource::Nonce]);
    let service = CspLayer::new_report_only(csp.clone()).layer(());
    assert_eq!(service.header_name(), "content-security-policy-report-only");
    let mut extensions = http::Extensions::new();
    let value = service.begin_request(&mut extensions).unwrap();
    let nonce = CspNonce::from_extensions(&extensions).unwrap();
    let mut headers = HeaderMap::new();
    headers.insert("content-security-policy-report-only", HeaderValue::from_static("old"));
    service.attach(value, &mut headers);
    assert_eq!(headers.len(), 1);
    assert_eq!(
        headers.get("content-security-policy-report-only").unwrap().to_str().unwrap(),
        format!("script-src 'nonce-{}';", nonce.as_str())
    );
    let enforcing = CspLayer::new(csp).layer(());
    assert_eq!(enforcing.header_name(), "content-security-policy");
}
