use tower_sombrero::headers::{XFrameOptions, XPermittedCrossDomainPolicies, XXssProtection};
use tower_sombrero::policy::serialize_header;
use tower_sombrero::{
    ContentSecurityPolicy, CspHashAlgorithm, CspSchemeSource, CspSource, StrictTransportSecurity,
};

const STRICT_TEXT: &str = "default-src 'self';font-src 'self' https: data:;img-src 'self' data:;object-src 'none';script-src 'self';script-src-attr 'none';style-src 'self' https: 'unsafe-inline';base-uri 'self';form-action 'self';frame-ancestors 'self';upgrade-insecure-requests;";

#[test]
fn sts_default_matches() {
    let default = StrictTransportSecurity::default();
    assert_eq!(default.raw_value(), default.value());
}

#[test]
fn sts_default_text() {
    assert_eq!(
        StrictTransportSecurity::default().value(),
        "max-age=15552000;includeSubDomains"
    );
}

#[test]
fn sts_custom_values() {
    let sts = StrictTransportSecurity::default().max_age(0).include_sub_domains(false);
    assert_eq!(sts.value(), "max-age=0");
    let sts = StrictTransportSecurity::default().max_age(3600);
    assert_eq!(sts.raw_value(), "max-age=3600;includeSubDomains");
    assert_eq!(sts.value(), "max-age=3600;includeSubDomains");
    assert_eq!(sts.name(), "strict-transport-security");
}

#[test]
fn render_is_deterministic() {
    let p = ContentSecurityPolicy::strict_default().script_src(vec![CspSource::Nonce]);
    let a = p.render("abc123");
    let b = p.render("abc123");
    assert_eq!(a, b);
    assert_eq!(p.value("abc123").unwrap(), p.value("abc123").unwrap());
}

#[test]
fn empty_policy_renders_empty() {
    let p = ContentSecurityPolicy::new();
    assert_eq!(p.render("NONCE"), "");
    assert_eq!(p.value("NONCE").unwrap(), "");
}

#[test]
fn strict_default_renders_canonical_text() {
    let text = ContentSecurityPolicy::strict_default().render("NONCE");
    assert!(text.contains("default-src 'self';"));
    assert!(text.contains("base-uri 'self';"));
    assert!(text.ends_with("upgrade-insecure-requests;"));
    assert_eq!(text, STRICT_TEXT);
}

#[test]
fn upgrade_flag_alone() {
    let p = ContentSecurityPolicy::new().upgrade_insecure_requests(true);
    assert_eq!(p.render("n"), "upgrade-insecure-requests;");
    let p = p.upgrade_insecure_requests(false);
    assert_eq!(p.render("n"), "");
}

#[test]
fn directives_follow_fixed_order() {
    let a = ContentSecurityPolicy::new()
        .frame_ancestors(vec![CspSource::NoneSource])
        .default_src(vec![CspSource::SelfOrigin]);
    let b = ContentSecurityPolicy::new()
        .default_src(vec![CspSource::SelfOrigin])
        .frame_ancestors(vec![CspSource::NoneSource]);
    assert_eq!(a.render("n"), "default-src 'self';frame-ancestors 'none';");
    assert_eq!(a.render("n"), b.render("n"));
}

#[test]
fn remove_leaves_directive_out() {
    let p = ContentSecurityPolicy::strict_default().remove_default_src().remove_base_uri();
    let text = p.render("n");
    assert!(!text.contains("default-src"));
    assert!(!text.contains("base-uri"));
    assert!(text.starts_with("font-src 'self' https: data:;"));
}

#[test]
fn every_source_renders_its_token() {
    let p = ContentSecurityPolicy::new().script_src(vec![
        CspSource::Host("https://cdn.example.com".to_string()),
        CspSource::Scheme(CspSchemeSource::Blob),
        CspSource::Nonce,
        CspSource::Hash(CspHashAlgorithm::Sha256, "AbC=".to_string()),
        CspSource::Hash(CspHashAlgorithm::Custom("sha3".to_string()), "xyz".to_string()),
        CspSource::SelfOrigin,
        CspSource::UnsafeEval,
        CspSource::WasmUnsafeEval,
        CspSource::UnsafeHashes,
        CspSource::UnsafeInline,
        CspSource::StrictDynamic,
        CspSource::ReportSample,
        CspSource::InlineSpeculationRules,
        CspSource::NoneSource,
    ]);
    assert_eq!(
        p.render("N0nce"),
        "script-src https://cdn.example.com blob: 'nonce-N0nce' 'sha256-AbC=' 'sha3-xyz' 'self' 'unsafe-eval' 'wasm-unsafe-eval' 'unsafe-hashes' 'unsafe-inline' 'strict-dynamic' 'report-sample' 'inline-speculation-rules' 'none';"
    );
}

#[test]
fn schemes_and_algorithms_render() {
    assert_eq!(CspSchemeSource::Data.as_str(), "data:");
    assert_eq!(CspSchemeSource::Mediastream.as_str(), "mediastream:");
    assert_eq!(CspSchemeSource::Filesystem.as_str(), "filesystem:");
    assert_eq!(CspSchemeSource::Http.as_str(), "http:");
    assert_eq!(CspHashAlgorithm::Sha384.as_str(), "sha384");
    assert_eq!(CspHashAlgorithm::Sha512.as_str(), "sha512");
}

#[test]
fn serialize_header_appends_clause() {
    let mut out = String::from("x;");
    serialize_header(&mut out, "n", "img-src", &[CspSource::SelfOrigin, CspSource::Nonce]);
    assert_eq!(out, "x;img-src 'self' 'nonce-n';");
    serialize_header(&mut out, "n", "media-src", &[]);
    assert_eq!(out, "x;img-src 'self' 'nonce-n';");
}

#[test]
fn invalid_host_is_a_configuration_error() {
    let p = ContentSecurityPolicy::new().img_src(vec![CspSource::Host("bad\nhost".to_string())]);
    assert!(p.value("n").is_err());
    let p = ContentSecurityPolicy::new().img_src(vec![CspSource::Host("del\u{7f}".to_string())]);
    assert!(p.value("n").is_err());
    let p = ContentSecurityPolicy::new().img_src(vec![CspSource::Host("tab\there".to_string())]);
    assert!(p.value("n").is_ok());
}

#[test]
fn static_header_texts() {
    assert_eq!(XFrameOptions::Deny.value(), "DENY");
    assert_eq!(XFrameOptions::default().value(), "SAMEORIGIN");
    assert_eq!(XFrameOptions::Deny.name(), "x-frame-options");
    assert_eq!(XXssProtection::TrueBlock.value(), "1; mode=block");
    assert_eq!(XPermittedCrossDomainPolicies::NonePermitted.value(), "none");
    assert_eq!(XPermittedCrossDomainPolicies::ByContentType.value(), "by-content-type");
}
