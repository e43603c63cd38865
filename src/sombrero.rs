//! The middleware's configuration, and what it does around each request:
//! before the request is handed on, and to the response that comes back.

use std::sync::Arc;

use vstd::prelude::*;

use crate::headers::{
    CrossOriginEmbedderPolicy, CrossOriginOpenerPolicy, CrossOriginResourcePolicy,
    OriginAgentCluster, ReferrerPolicy, XContentTypeOptions, XDnsPrefetchControl,
    XDownloadOptions, XFrameOptions, XPermittedCrossDomainPolicies, XXssProtection,
};
use crate::nonce::{is_alphanumeric, random_string, store_nonce, stored_nonces, NONCE_LENGTH};
use crate::policy::{
    contains_text, lemma_nonce_script_clause, nonce_script_clause, policy_text, ContentSecurityPolicy,
    CspSource,
};
use crate::sts::{StrictTransportSecurity, STS_MAX_AGE};
use crate::wire::{
    header_entries, header_map_has_room, header_name_ok, header_text_ok, header_value_from_str,
    header_value_of, insert_header,
};

verus! {

/// The full middleware configuration: at most one enforcing and one
/// report-only policy, and at most one value of each other header.
#[derive(Debug, Clone)]
pub struct Sombrero {
    pub content_security_policy: Option<Arc<ContentSecurityPolicy>>,
    pub content_security_policy_report_only: Option<Arc<ContentSecurityPolicy>>,
    pub cross_origin_embedder_policy: Option<CrossOriginEmbedderPolicy>,
    pub cross_origin_opener_policy: Option<CrossOriginOpenerPolicy>,
    pub cross_origin_resource_policy: Option<CrossOriginResourcePolicy>,
    pub origin_agent_cluster: Option<OriginAgentCluster>,
    pub referrer_policy: Option<ReferrerPolicy>,
    pub strict_transport_security: Option<StrictTransportSecurity>,
    pub x_content_type_options: Option<XContentTypeOptions>,
    pub x_dns_prefetch_control: Option<XDnsPrefetchControl>,
    pub x_download_options: Option<XDownloadOptions>,
    pub x_frame_options: Option<XFrameOptions>,
    pub x_permitted_cross_domain_policies: Option<XPermittedCrossDomainPolicies>,
    pub x_xss_protection: Option<XXssProtection>,
}

/// The header value of an optional policy for one nonce.
pub open spec fn rendered(p: Option<Arc<ContentSecurityPolicy>>, nonce: Seq<char>) -> Option<http::HeaderValue> {
    match p {
        Some(q) => Some(header_value_of(policy_text(*q, nonce))),
        None => None,
    }
}

/// The policy held in a configured slot.
pub open spec fn policy_of(p: Option<Arc<ContentSecurityPolicy>>) -> ContentSecurityPolicy {
    *p.unwrap()
}

/// An optional policy whose text, for this nonce, can be a header value.
pub open spec fn renders_ok(p: Option<Arc<ContentSecurityPolicy>>, nonce: Seq<char>) -> bool {
    match p {
        Some(q) => header_text_ok(policy_text(*q, nonce)),
        None => true,
    }
}

/// A header map after `name` is set to `v`, if there is a `v`.
#[verifier::opaque]
pub open spec fn put(
    m: Map<Seq<char>, Seq<http::HeaderValue>>,
    name: Seq<char>,
    v: Option<http::HeaderValue>,
) -> Map<Seq<char>, Seq<http::HeaderValue>> {
    match v {
        Some(x) => m.insert(name, seq![x]),
        None => m,
    }
}

impl Sombrero {
    pub open spec fn cross_origin_embedder_policy_value(self) -> Option<http::HeaderValue> {
        match self.cross_origin_embedder_policy {
            Some(h) => Some(header_value_of(h.spec_value())),
            None => None,
        }
    }

    pub open spec fn cross_origin_opener_policy_value(self) -> Option<http::HeaderValue> {
        match self.cross_origin_opener_policy {
            Some(h) => Some(header_value_of(h.spec_value())),
            None => None,
        }
    }

    pub open spec fn cross_origin_resource_policy_value(self) -> Option<http::HeaderValue> {
        match self.cross_origin_resource_policy {
            Some(h) => Some(header_value_of(h.spec_value())),
            None => None,
        }
    }

    pub open spec fn origin_agent_cluster_value(self) -> Option<http::HeaderValue> {
        match self.origin_agent_cluster {
            Some(h) => Some(header_value_of(h.spec_value())),
            None => None,
        }
    }

    pub open spec fn referrer_policy_value(self) -> Option<http::HeaderValue> {
        match self.referrer_policy {
            Some(h) => Some(header_value_of(h.spec_value())),
            None => None,
        }
    }

    pub open spec fn strict_transport_security_value(self) -> Option<http::HeaderValue> {
        match self.strict_transport_security {
            Some(h) => Some(header_value_of(h.spec_value())),
            None => None,
        }
    }

    pub open spec fn x_content_type_options_value(self) -> Option<http::HeaderValue> {
        match self.x_content_type_options {
            Some(h) => Some(header_value_of(h.spec_value())),
            None => None,
        }
    }

    pub open spec fn x_dns_prefetch_control_value(self) -> Option<http::HeaderValue> {
        match self.x_dns_prefetch_control {
            Some(h) => Some(header_value_of(h.spec_value())),
            None => None,
        }
    }

    pub open spec fn x_download_options_value(self) -> Option<http::HeaderValue> {
        match self.x_download_options {
            Some(h) => Some(header_value_of(h.spec_value())),
            None => None,
        }
    }

    pub open spec fn x_frame_options_value(self) -> Option<http::HeaderValue> {
        match self.x_frame_options {
            Some(h) => Some(header_value_of(h.spec_value())),
            None => None,
        }
    }

    pub open spec fn x_permitted_cross_domain_policies_value(self) -> Option<http::HeaderValue> {
        match self.x_permitted_cross_domain_policies {
            Some(h) => Some(header_value_of(h.spec_value())),
            None => None,
        }
    }

    pub open spec fn x_xss_protection_value(self) -> Option<http::HeaderValue> {
        match self.x_xss_protection {
            Some(h) => Some(header_value_of(h.spec_value())),
            None => None,
        }
    }

    /// The headers of a response once the middleware has set its own: the
    /// two policies first, then the other headers in a fixed order. Each
    /// replaces whatever the response held under that name.
    pub open spec fn attached(
        self,
        csp: Option<http::HeaderValue>,
        csp_report_only: Option<http::HeaderValue>,
        m: Map<Seq<char>, Seq<http::HeaderValue>>,
    ) -> Map<Seq<char>, Seq<http::HeaderValue>> {
        let m = put(m, "content-security-policy"@, csp);
        let m = put(m, "content-security-policy-report-only"@, csp_report_only);
        let m = put(m, "cross-origin-embedder-policy"@, self.cross_origin_embedder_policy_value());
        let m = put(m, "cross-origin-opener-policy"@, self.cross_origin_opener_policy_value());
        let m = put(m, "cross-origin-resource-policy"@, self.cross_origin_resource_policy_value());
        let m = put(m, "origin-agent-cluster"@, self.origin_agent_cluster_value());
        let m = put(m, "referrer-policy"@, self.referrer_policy_value());
        let m = put(m, "strict-transport-security"@, self.strict_transport_security_value());
        let m = put(m, "x-content-type-options"@, self.x_content_type_options_value());
        let m = put(m, "x-dns-prefetch-control"@, self.x_dns_prefetch_control_value());
        let m = put(m, "x-download-options"@, self.x_download_options_value());
        let m = put(m, "x-frame-options"@, self.x_frame_options_value());
        let m = put(m, "x-permitted-cross-domain-policies"@, self.x_permitted_cross_domain_policies_value());
        let m = put(m, "x-xss-protection"@, self.x_xss_protection_value());
        m
    }

    /// A configuration that sets no header at all.
    pub fn new() -> (r: Self)
        ensures
            r.content_security_policy.is_none(),
            r.content_security_policy_report_only.is_none(),
            r.cross_origin_embedder_policy.is_none(),
            r.cross_origin_opener_policy.is_none(),
            r.cross_origin_resource_policy.is_none(),
            r.origin_agent_cluster.is_none(),
            r.referrer_policy.is_none(),
            r.strict_transport_security.is_none(),
            r.x_content_type_options.is_none(),
            r.x_dns_prefetch_control.is_none(),
            r.x_download_options.is_none(),
            r.x_frame_options.is_none(),
            r.x_permitted_cross_domain_policies.is_none(),
            r.x_xss_protection.is_none(),
    {
        Sombrero {
            content_security_policy: None,
            content_security_policy_report_only: None,
            cross_origin_embedder_policy: None,
            cross_origin_opener_policy: None,
            cross_origin_resource_policy: None,
            origin_agent_cluster: None,
            referrer_policy: None,
            strict_transport_security: None,
            x_content_type_options: None,
            x_dns_prefetch_control: None,
            x_download_options: None,
            x_frame_options: None,
            x_permitted_cross_domain_policies: None,
            x_xss_protection: None,
        }
    }

    /// Sets the `content-security-policy` header.
    pub fn content_security_policy(self, k: ContentSecurityPolicy) -> (r: Self)
        ensures
            r == (Sombrero { content_security_policy: Some(Arc::new(k)), ..self }),
    {
        Sombrero { content_security_policy: Some(Arc::new(k)), ..self }
    }

    /// Leaves the `content-security-policy` header out.
    pub fn remove_content_security_policy(self) -> (r: Self)
        ensures
            r == (Sombrero { content_security_policy: None, ..self }),
    {
        Sombrero { content_security_policy: None, ..self }
    }

    /// Sets the `content-security-policy-report-only` header.
    pub fn content_security_policy_report_only(self, k: ContentSecurityPolicy) -> (r: Self)
        ensures
            r == (Sombrero { content_security_policy_report_only: Some(Arc::new(k)), ..self }),
    {
        Sombrero { content_security_policy_report_only: Some(Arc::new(k)), ..self }
    }

    /// Leaves the `content-security-policy-report-only` header out.
    pub fn remove_content_security_policy_report_only(self) -> (r: Self)
        ensures
            r == (Sombrero { content_security_policy_report_only: None, ..self }),
    {
        Sombrero { content_security_policy_report_only: None, ..self }
    }

    /// Sets the `cross-origin-embedder-policy` header.
    pub fn cross_origin_embedder_policy(self, k: CrossOriginEmbedderPolicy) -> (r: Self)
        ensures
            r == (Sombrero { cross_origin_embedder_policy: Some(k), ..self }),
    {
        Sombrero { cross_origin_embedder_policy: Some(k), ..self }
    }

    /// Leaves the `cross-origin-embedder-policy` header out.
    pub fn remove_cross_origin_embedder_policy(self) -> (r: Self)
        ensures
            r == (Sombrero { cross_origin_embedder_policy: None, ..self }),
    {
        Sombrero { cross_origin_embedder_policy: None, ..self }
    }

    /// Sets the `cross-origin-opener-policy` header.
    pub fn cross_origin_opener_policy(self, k: CrossOriginOpenerPolicy) -> (r: Self)
        ensures
            r == (Sombrero { cross_origin_opener_policy: Some(k), ..self }),
    {
        Sombrero { cross_origin_opener_policy: Some(k), ..self }
    }

    /// Leaves the `cross-origin-opener-policy` header out.
    pub fn remove_cross_origin_opener_policy(self) -> (r: Self)
        ensures
            r == (Sombrero { cross_origin_opener_policy: None, ..self }),
    {
        Sombrero { cross_origin_opener_policy: None, ..self }
    }

    /// Sets the `cross-origin-resource-policy` header.
    pub fn cross_origin_resource_policy(self, k: CrossOriginResourcePolicy) -> (r: Self)
        ensures
            r == (Sombrero { cross_origin_resource_policy: Some(k), ..self }),
    {
        Sombrero { cross_origin_resource_policy: Some(k), ..self }
    }

    /// Leaves the `cross-origin-resource-policy` header out.
    pub fn remove_cross_origin_resource_policy(self) -> (r: Self)
        ensures
            r == (Sombrero { cross_origin_resource_policy: None, ..self }),
    {
        Sombrero { cross_origin_resource_policy: None, ..self }
    }

    /// Sets the `origin-agent-cluster` header.
    pub fn origin_agent_cluster(self, k: OriginAgentCluster) -> (r: Self)
        ensures
            r == (Sombrero { origin_agent_cluster: Some(k), ..self }),
    {
        Sombrero { origin_agent_cluster: Some(k), ..self }
    }

    /// Leaves the `origin-agent-cluster` header out.
    pub fn remove_origin_agent_cluster(self) -> (r: Self)
        ensures
            r == (Sombrero { origin_agent_cluster: None, ..self }),
    {
        Sombrero { origin_agent_cluster: None, ..self }
    }

    /// Sets the `referrer-policy` header.
    pub fn referrer_policy(self, k: ReferrerPolicy) -> (r: Self)
        ensures
            r == (Sombrero { referrer_policy: Some(k), ..self }),
    {
        Sombrero { referrer_policy: Some(k), ..self }
    }

    /// Leaves the `referrer-policy` header out.
    pub fn remove_referrer_policy(self) -> (r: Self)
        ensures
            r == (Sombrero { referrer_policy: None, ..self }),
    {
        Sombrero { referrer_policy: None, ..self }
    }

    /// Sets the `strict-transport-security` header.
    pub fn strict_transport_security(self, k: StrictTransportSecurity) -> (r: Self)
        ensures
            r == (Sombrero { strict_transport_security: Some(k), ..self }),
    {
        Sombrero { strict_transport_security: Some(k), ..self }
    }

    /// Leaves the `strict-transport-security` header out.
    pub fn remove_strict_transport_security(self) -> (r: Self)
        ensures
            r == (Sombrero { strict_transport_security: None, ..self }),
    {
        Sombrero { strict_transport_security: None, ..self }
    }

    /// Sets the `x-content-type-options` header.
    pub fn x_content_type_options(self, k: XContentTypeOptions) -> (r: Self)
        ensures
            r == (Sombrero { x_content_type_options: Some(k), ..self }),
    {
        Sombrero { x_content_type_options: Some(k), ..self }
    }

    /// Leaves the `x-content-type-options` header out.
    pub fn remove_x_content_type_options(self) -> (r: Self)
        ensures
            r == (Sombrero { x_content_type_options: None, ..self }),
    {
        Sombrero { x_content_type_options: None, ..self }
    }

    /// Sets the `x-dns-prefetch-control` header.
    pub fn x_dns_prefetch_control(self, k: XDnsPrefetchControl) -> (r: Self)
        ensures
            r == (Sombrero { x_dns_prefetch_control: Some(k), ..self }),
    {
        Sombrero { x_dns_prefetch_control: Some(k), ..self }
    }

    /// Leaves the `x-dns-prefetch-control` header out.
    pub fn remove_x_dns_prefetch_control(self) -> (r: Self)
        ensures
            r == (Sombrero { x_dns_prefetch_control: None, ..self }),
    {
        Sombrero { x_dns_prefetch_control: None, ..self }
    }

    /// Sets the `x-download-options` header.
    pub fn x_download_options(self, k: XDownloadOptions) -> (r: Self)
        ensures
            r == (Sombrero { x_download_options: Some(k), ..self }),
    {
        Sombrero { x_download_options: Some(k), ..self }
    }

    /// Leaves the `x-download-options` header out.
    pub fn remove_x_download_options(self) -> (r: Self)
        ensures
            r == (Sombrero { x_download_options: None, ..self }),
    {
        Sombrero { x_download_options: None, ..self }
    }

    /// Sets the `x-frame-options` header.
    pub fn x_frame_options(self, k: XFrameOptions) -> (r: Self)
        ensures
            r == (Sombrero { x_frame_options: Some(k), ..self }),
    {
        Sombrero { x_frame_options: Some(k), ..self }
    }

    /// Leaves the `x-frame-options` header out.
    pub fn remove_x_frame_options(self) -> (r: Self)
        ensures
            r == (Sombrero { x_frame_options: None, ..self }),
    {
        Sombrero { x_frame_options: None, ..self }
    }

    /// Sets the `x-permitted-cross-domain-policies` header.
    pub fn x_permitted_cross_domain_policies(self, k: XPermittedCrossDomainPolicies) -> (r: Self)
        ensures
            r == (Sombrero { x_permitted_cross_domain_policies: Some(k), ..self }),
    {
        Sombrero { x_permitted_cross_domain_policies: Some(k), ..self }
    }

    /// Leaves the `x-permitted-cross-domain-policies` header out.
    pub fn remove_x_permitted_cross_domain_policies(self) -> (r: Self)
        ensures
            r == (Sombrero { x_permitted_cross_domain_policies: None, ..self }),
    {
        Sombrero { x_permitted_cross_domain_policies: None, ..self }
    }

    /// Sets the `x-xss-protection` header.
    pub fn x_xss_protection(self, k: XXssProtection) -> (r: Self)
        ensures
            r == (Sombrero { x_xss_protection: Some(k), ..self }),
    {
        Sombrero { x_xss_protection: Some(k), ..self }
    }

    /// Leaves the `x-xss-protection` header out.
    pub fn remove_x_xss_protection(self) -> (r: Self)
        ensures
            r == (Sombrero { x_xss_protection: None, ..self }),
    {
        Sombrero { x_xss_protection: None, ..self }
    }

}

/// The configuration that `default` returns: the strict policy enforced,
/// no report-only policy, and a safe value for most other headers.
pub open spec fn is_default_config(s: Sombrero) -> bool {
    &&& s.content_security_policy matches Some(p) && crate::policy::is_strict_default(*p)
    &&& s.content_security_policy_report_only.is_none()
    &&& s.cross_origin_embedder_policy.is_none()
    &&& s.cross_origin_opener_policy == Some(CrossOriginOpenerPolicy::SameOrigin)
    &&& s.cross_origin_resource_policy == Some(CrossOriginResourcePolicy::SameOrigin)
    &&& s.origin_agent_cluster == Some(OriginAgentCluster)
    &&& s.referrer_policy == Some(ReferrerPolicy::NoReferrer)
    &&& s.strict_transport_security == Some(StrictTransportSecurity { include_sub_domains: true, max_age: STS_MAX_AGE })
    &&& s.x_content_type_options == Some(XContentTypeOptions)
    &&& s.x_dns_prefetch_control.is_none()
    &&& s.x_download_options == Some(XDownloadOptions)
    &&& s.x_frame_options == Some(XFrameOptions::Sameorigin)
    &&& s.x_permitted_cross_domain_policies == Some(XPermittedCrossDomainPolicies::NonePermitted)
    &&& s.x_xss_protection == Some(XXssProtection::False)
}

impl Default for Sombrero {
    fn default() -> (r: Self)
        ensures
            is_default_config(r),
    {
        Sombrero {
            content_security_policy: Some(Arc::new(ContentSecurityPolicy::strict_default())),
            content_security_policy_report_only: None,
            cross_origin_embedder_policy: None,
            cross_origin_opener_policy: Some(CrossOriginOpenerPolicy::SameOrigin),
            cross_origin_resource_policy: Some(CrossOriginResourcePolicy::SameOrigin),
            origin_agent_cluster: Some(OriginAgentCluster),
            referrer_policy: Some(ReferrerPolicy::NoReferrer),
            strict_transport_security: Some(StrictTransportSecurity { include_sub_domains: true, max_age: STS_MAX_AGE }),
            x_content_type_options: Some(XContentTypeOptions),
            x_dns_prefetch_control: None,
            x_download_options: Some(XDownloadOptions),
            x_frame_options: Some(XFrameOptions::Sameorigin),
            x_permitted_cross_domain_policies: Some(XPermittedCrossDomainPolicies::NonePermitted),
            x_xss_protection: Some(XXssProtection::False),
        }
    }
}


/// A handler wrapped by the middleware.
#[derive(Debug, Clone)]
pub struct SombreroService<S> {
    pub sombrero: Sombrero,
    pub inner: S,
}

impl Sombrero {
    /// Wraps a handler.
    pub fn layer<S>(&self, inner: S) -> (r: SombreroService<S>)
        ensures
            r.sombrero == *self,
            r.inner == inner,
    {
        SombreroService { sombrero: self.share(), inner }
    }

    /// A copy that shares the policies with this configuration.
    fn share(&self) -> (r: Self)
        ensures
            r == *self,
    {
        Sombrero {
            content_security_policy: share_policy(&self.content_security_policy),
            content_security_policy_report_only: share_policy(&self.content_security_policy_report_only),
            cross_origin_embedder_policy: self.cross_origin_embedder_policy,
            cross_origin_opener_policy: self.cross_origin_opener_policy,
            cross_origin_resource_policy: self.cross_origin_resource_policy,
            origin_agent_cluster: self.origin_agent_cluster,
            referrer_policy: self.referrer_policy,
            strict_transport_security: self.strict_transport_security,
            x_content_type_options: self.x_content_type_options,
            x_dns_prefetch_control: self.x_dns_prefetch_control,
            x_download_options: self.x_download_options,
            x_frame_options: self.x_frame_options,
            x_permitted_cross_domain_policies: self.x_permitted_cross_domain_policies,
            x_xss_protection: self.x_xss_protection,
        }
    }
}

fn share_policy(p: &Option<Arc<ContentSecurityPolicy>>) -> (r: Option<Arc<ContentSecurityPolicy>>)
    ensures
        r == *p,
{
    match p {
        Some(q) => Some(q.clone()),
        None => None,
    }
}

/// What the middleware settles before a request is handed on: its nonce,
/// and the header values of the configured policies for that nonce.
pub struct RequestHeaders {
    pub nonce: String,
    pub content_security_policy: Option<http::HeaderValue>,
    pub content_security_policy_report_only: Option<http::HeaderValue>,
}

/// Renders an optional policy with the nonce.
fn render_optional(p: &Option<Arc<ContentSecurityPolicy>>, nonce: &str) -> (r: Result<
    Option<http::HeaderValue>,
    http::header::InvalidHeaderValue,
>)
    ensures
        r.is_ok() <==> renders_ok(*p, nonce@),
        r.is_ok() ==> r.unwrap() == rendered(*p, nonce@),
{
    match p {
        Some(q) => match q.value(nonce) {
            Ok(v) => Ok(Some(v)),
            Err(e) => Err(e),
        },
        None => Ok(None),
    }
}

/// Sets `name` to the header value of `text`.
fn put_header(m: &mut http::HeaderMap, name: &'static str, text: &str)
    requires
        header_name_ok(name@),
        header_text_ok(text@),
        header_map_has_room(*old(m)),
    ensures
        header_entries(*final(m)) == header_entries(*old(m)).insert(
            name@,
            seq![header_value_of(text@)],
        ),
{
    match header_value_from_str(text) {
        Ok(v) => insert_header(m, name, v),
        Err(_) => {},
    }
}

/// Sets `name` to `v`, if there is one.
fn put_optional(m: &mut http::HeaderMap, name: &'static str, v: Option<http::HeaderValue>)
    requires
        header_name_ok(name@),
        header_map_has_room(*old(m)),
    ensures
        header_entries(*final(m)) == put(header_entries(*old(m)), name@, v),
{
    reveal(put);
    match v {
        Some(x) => insert_header(m, name, x),
        None => {},
    }
}

/// The names of the two policy headers are well formed.
pub proof fn lemma_policy_header_names()
    ensures
        header_name_ok("content-security-policy"@),
        header_name_ok("content-security-policy-report-only"@),
{
    reveal(header_name_ok);
    reveal_strlit("content-security-policy");
    reveal_strlit("content-security-policy-report-only");
}

/// Setting one header adds at most one name to a map.
pub proof fn lemma_put_room(
    m: Map<Seq<char>, Seq<http::HeaderValue>>,
    name: Seq<char>,
    v: Option<http::HeaderValue>,
)
    requires
        m.dom().finite(),
    ensures
        put(m, name, v).dom().finite(),
        put(m, name, v).dom().len() <= m.dom().len() + 1,
{
    reveal(put);
    if v.is_some() {
        assert(m.insert(name, seq![v.unwrap()]).dom() == m.dom().insert(name));
    }
}

/// A header map with room for the middleware's headers.
pub open spec fn has_room_for_headers(m: Map<Seq<char>, Seq<http::HeaderValue>>) -> bool {
    m.dom().finite() && m.dom().len() + 14 < 4096
}

impl Sombrero {
    /// Before the request is handed on: renders the configured policies with
    /// `nonce`, then stores the nonce in the request's extensions. A policy
    /// whose text cannot be a header value is a configuration error; then
    /// the extensions are left as they were.
    pub fn prepare(&self, nonce: String, extensions: &mut http::Extensions) -> (r: Result<
        RequestHeaders,
        http::header::InvalidHeaderValue,
    >)
        ensures
            r.is_ok() <==> renders_ok(self.content_security_policy, nonce@) && renders_ok(
                self.content_security_policy_report_only,
                nonce@,
            ),
            r.is_ok() ==> {
                &&& r.unwrap().nonce@ == nonce@
                &&& r.unwrap().content_security_policy == rendered(
                    self.content_security_policy,
                    nonce@,
                )
                &&& r.unwrap().content_security_policy_report_only == rendered(
                    self.content_security_policy_report_only,
                    nonce@,
                )
                &&& stored_nonces(*final(extensions)) == seq![nonce@]
            },
            r.is_err() ==> *final(extensions) == *old(extensions),
    {
        let csp = match render_optional(&self.content_security_policy, nonce.as_str()) {
            Ok(v) => v,
            Err(e) => return Err(e),
        };
        let csp_report_only = match render_optional(
            &self.content_security_policy_report_only,
            nonce.as_str(),
        ) {
            Ok(v) => v,
            Err(e) => return Err(e),
        };
        store_nonce(extensions, &nonce);
        Ok(RequestHeaders { nonce, content_security_policy: csp, content_security_policy_report_only: csp_report_only })
    }

    /// Before the request is handed on: draws a fresh nonce of
    /// `NONCE_LENGTH` letters and digits and prepares the request with it.
    pub fn begin_request(&self, extensions: &mut http::Extensions) -> (r: Result<
        RequestHeaders,
        http::header::InvalidHeaderValue,
    >)
        ensures
            r.is_ok() ==> {
                let n = r.unwrap().nonce@;
                &&& n.len() == NONCE_LENGTH
                &&& forall|i: int| 0 <= i < n.len() ==> is_alphanumeric(#[trigger] n[i])
                &&& r.unwrap().content_security_policy == rendered(self.content_security_policy, n)
                &&& r.unwrap().content_security_policy_report_only == rendered(
                    self.content_security_policy_report_only,
                    n,
                )
                &&& stored_nonces(*final(extensions)) == seq![n]
            },
            r.is_err() ==> *final(extensions) == *old(extensions) && exists|n: Seq<char>|
                n.len() == NONCE_LENGTH && !(renders_ok(self.content_security_policy, n)
                    && renders_ok(self.content_security_policy_report_only, n)),
    {
        let nonce = random_string(NONCE_LENGTH);
        let ghost n = nonce@;
        let r = self.prepare(nonce, extensions);
        proof {
            if r.is_err() {
                assert(n.len() == NONCE_LENGTH && !(renders_ok(self.content_security_policy, n)
                    && renders_ok(self.content_security_policy_report_only, n)));
            }
        }
        r
    }

    /// On the response: sets the rendered policies, then each configured
    /// header, replacing what the handler had set under the same names.
    fn attach_cross_origin_embedder_policy(&self, headers: &mut http::HeaderMap)
        requires
            header_map_has_room(*old(headers)),
        ensures
            header_entries(*final(headers)) == put(
                header_entries(*old(headers)),
                "cross-origin-embedder-policy"@,
                self.cross_origin_embedder_policy_value(),
            ),
    {
        reveal(put);
        if let Some(h) = &self.cross_origin_embedder_policy {
            proof {
                h.lemma_well_formed();
            }
            put_header(headers, h.name(), &h.value());
        }
    }

    fn attach_cross_origin_opener_policy(&self, headers: &mut http::HeaderMap)
        requires
            header_map_has_room(*old(headers)),
        ensures
            header_entries(*final(headers)) == put(
                header_entries(*old(headers)),
                "cross-origin-opener-policy"@,
                self.cross_origin_opener_policy_value(),
            ),
    {
        reveal(put);
        if let Some(h) = &self.cross_origin_opener_policy {
            proof {
                h.lemma_well_formed();
            }
            put_header(headers, h.name(), &h.value());
        }
    }

    fn attach_cross_origin_resource_policy(&self, headers: &mut http::HeaderMap)
        requires
            header_map_has_room(*old(headers)),
        ensures
            header_entries(*final(headers)) == put(
                header_entries(*old(headers)),
                "cross-origin-resource-policy"@,
                self.cross_origin_resource_policy_value(),
            ),
    {
        reveal(put);
        if let Some(h) = &self.cross_origin_resource_policy {
            proof {
                h.lemma_well_formed();
            }
            put_header(headers, h.name(), &h.value());
        }
    }

    fn attach_origin_agent_cluster(&self, headers: &mut http::HeaderMap)
        requires
            header_map_has_room(*old(headers)),
        ensures
            header_entries(*final(headers)) == put(
                header_entries(*old(headers)),
                "origin-agent-cluster"@,
                self.origin_agent_cluster_value(),
            ),
    {
        reveal(put);
        if let Some(h) = &self.origin_agent_cluster {
            proof {
                h.lemma_well_formed();
            }
            put_header(headers, h.name(), &h.value());
        }
    }

    fn attach_referrer_policy(&self, headers: &mut http::HeaderMap)
        requires
            header_map_has_room(*old(headers)),
        ensures
            header_entries(*final(headers)) == put(
                header_entries(*old(headers)),
                "referrer-policy"@,
                self.referrer_policy_value(),
            ),
    {
        reveal(put);
        if let Some(h) = &self.referrer_policy {
            proof {
                h.lemma_well_formed();
            }
            put_header(headers, h.name(), &h.value());
        }
    }

    fn attach_strict_transport_security(&self, headers: &mut http::HeaderMap)
        requires
            header_map_has_room(*old(headers)),
        ensures
            header_entries(*final(headers)) == put(
                header_entries(*old(headers)),
                "strict-transport-security"@,
                self.strict_transport_security_value(),
            ),
    {
        reveal(put);
        if let Some(h) = &self.strict_transport_security {
            proof {
                h.lemma_well_formed();
            }
            put_header(headers, h.name(), &h.value());
        }
    }

    fn attach_x_content_type_options(&self, headers: &mut http::HeaderMap)
        requires
            header_map_has_room(*old(headers)),
        ensures
            header_entries(*final(headers)) == put(
                header_entries(*old(headers)),
                "x-content-type-options"@,
                self.x_content_type_options_value(),
            ),
    {
        reveal(put);
        if let Some(h) = &self.x_content_type_options {
            proof {
                h.lemma_well_formed();
            }
            put_header(headers, h.name(), &h.value());
        }
    }

    fn attach_x_dns_prefetch_control(&self, headers: &mut http::HeaderMap)
        requires
            header_map_has_room(*old(headers)),
        ensures
            header_entries(*final(headers)) == put(
                header_entries(*old(headers)),
                "x-dns-prefetch-control"@,
                self.x_dns_prefetch_control_value(),
            ),
    {
        reveal(put);
        if let Some(h) = &self.x_dns_prefetch_control {
            proof {
                h.lemma_well_formed();
            }
            put_header(headers, h.name(), &h.value());
        }
    }

    fn attach_x_download_options(&self, headers: &mut http::HeaderMap)
        requires
            header_map_has_room(*old(headers)),
        ensures
            header_entries(*final(headers)) == put(
                header_entries(*old(headers)),
                "x-download-options"@,
                self.x_download_options_value(),
            ),
    {
        reveal(put);
        if let Some(h) = &self.x_download_options {
            proof {
                h.lemma_well_formed();
            }
            put_header(headers, h.name(), &h.value());
        }
    }

    fn attach_x_frame_options(&self, headers: &mut http::HeaderMap)
        requires
            header_map_has_room(*old(headers)),
        ensures
            header_entries(*final(headers)) == put(
                header_entries(*old(headers)),
                "x-frame-options"@,
                self.x_frame_options_value(),
            ),
    {
        reveal(put);
        if let Some(h) = &self.x_frame_options {
            proof {
                h.lemma_well_formed();
            }
            put_header(headers, h.name(), &h.value());
        }
    }

    fn attach_x_permitted_cross_domain_policies(&self, headers: &mut http::HeaderMap)
        requires
            header_map_has_room(*old(headers)),
        ensures
            header_entries(*final(headers)) == put(
                header_entries(*old(headers)),
                "x-permitted-cross-domain-policies"@,
                self.x_permitted_cross_domain_policies_value(),
            ),
    {
        reveal(put);
        if let Some(h) = &self.x_permitted_cross_domain_policies {
            proof {
                h.lemma_well_formed();
            }
            put_header(headers, h.name(), &h.value());
        }
    }

    fn attach_x_xss_protection(&self, headers: &mut http::HeaderMap)
        requires
            header_map_has_room(*old(headers)),
        ensures
            header_entries(*final(headers)) == put(
                header_entries(*old(headers)),
                "x-xss-protection"@,
                self.x_xss_protection_value(),
            ),
    {
        reveal(put);
        if let Some(h) = &self.x_xss_protection {
            proof {
                h.lemma_well_formed();
            }
            put_header(headers, h.name(), &h.value());
        }
    }

    pub fn attach(&self, prepared: RequestHeaders, headers: &mut http::HeaderMap)
        requires
            has_room_for_headers(header_entries(*old(headers))),
        ensures
            header_entries(*final(headers)) == self.attached(
                prepared.content_security_policy,
                prepared.content_security_policy_report_only,
                header_entries(*old(headers)),
            ),
    {
        proof {
            lemma_policy_header_names();
        }
        let ghost m0 = header_entries(*headers);
        put_optional(headers, "content-security-policy", prepared.content_security_policy);
        proof {
            lemma_put_room(m0, "content-security-policy"@, prepared.content_security_policy);
        }
        let ghost m1 = header_entries(*headers);
        put_optional(
            headers,
            "content-security-policy-report-only",
            prepared.content_security_policy_report_only,
        );
        proof {
            lemma_put_room(m1, "content-security-policy-report-only"@, prepared.content_security_policy_report_only);
        }
        let ghost m2 = header_entries(*headers);
        self.attach_cross_origin_embedder_policy(headers);
        proof {
            lemma_put_room(m2, "cross-origin-embedder-policy"@, self.cross_origin_embedder_policy_value());
        }
        let ghost m3 = header_entries(*headers);
        self.attach_cross_origin_opener_policy(headers);
        proof {
            lemma_put_room(m3, "cross-origin-opener-policy"@, self.cross_origin_opener_policy_value());
        }
        let ghost m4 = header_entries(*headers);
        self.attach_cross_origin_resource_policy(headers);
        proof {
            lemma_put_room(m4, "cross-origin-resource-policy"@, self.cross_origin_resource_policy_value());
        }
        let ghost m5 = header_entries(*headers);
        self.attach_origin_agent_cluster(headers);
        proof {
            lemma_put_room(m5, "origin-agent-cluster"@, self.origin_agent_cluster_value());
        }
        let ghost m6 = header_entries(*headers);
        self.attach_referrer_policy(headers);
        proof {
            lemma_put_room(m6, "referrer-policy"@, self.referrer_policy_value());
        }
        let ghost m7 = header_entries(*headers);
        self.attach_strict_transport_security(headers);
        proof {
            lemma_put_room(m7, "strict-transport-security"@, self.strict_transport_security_value());
        }
        let ghost m8 = header_entries(*headers);
        self.attach_x_content_type_options(headers);
        proof {
            lemma_put_room(m8, "x-content-type-options"@, self.x_content_type_options_value());
        }
        let ghost m9 = header_entries(*headers);
        self.attach_x_dns_prefetch_control(headers);
        proof {
            lemma_put_room(m9, "x-dns-prefetch-control"@, self.x_dns_prefetch_control_value());
        }
        let ghost m10 = header_entries(*headers);
        self.attach_x_download_options(headers);
        proof {
            lemma_put_room(m10, "x-download-options"@, self.x_download_options_value());
        }
        let ghost m11 = header_entries(*headers);
        self.attach_x_frame_options(headers);
        proof {
            lemma_put_room(m11, "x-frame-options"@, self.x_frame_options_value());
        }
        let ghost m12 = header_entries(*headers);
        self.attach_x_permitted_cross_domain_policies(headers);
        proof {
            lemma_put_room(m12, "x-permitted-cross-domain-policies"@, self.x_permitted_cross_domain_policies_value());
        }
        let ghost m13 = header_entries(*headers);
        self.attach_x_xss_protection(headers);
        proof {
            lemma_put_room(m13, "x-xss-protection"@, self.x_xss_protection_value());
        }
    }
}


/// The names of the headers that the middleware sets are pairwise distinct.
pub proof fn lemma_header_names_distinct()
    ensures
        "content-security-policy"@ != "content-security-policy-report-only"@,
        "content-security-policy"@ != "cross-origin-embedder-policy"@,
        "content-security-policy"@ != "cross-origin-opener-policy"@,
        "content-security-policy"@ != "cross-origin-resource-policy"@,
        "content-security-policy"@ != "origin-agent-cluster"@,
        "content-security-policy"@ != "referrer-policy"@,
        "content-security-policy"@ != "strict-transport-security"@,
        "content-security-policy"@ != "x-content-type-options"@,
        "content-security-policy"@ != "x-dns-prefetch-control"@,
        "content-security-policy"@ != "x-download-options"@,
        "content-security-policy"@ != "x-frame-options"@,
        "content-security-policy"@ != "x-permitted-cross-domain-policies"@,
        "content-security-policy"@ != "x-xss-protection"@,
        "content-security-policy-report-only"@ != "cross-origin-embedder-policy"@,
        "content-security-policy-report-only"@ != "cross-origin-opener-policy"@,
        "content-security-policy-report-only"@ != "cross-origin-resource-policy"@,
        "content-security-policy-report-only"@ != "origin-agent-cluster"@,
        "content-security-policy-report-only"@ != "referrer-policy"@,
        "content-security-policy-report-only"@ != "strict-transport-security"@,
        "content-security-policy-report-only"@ != "x-content-type-options"@,
        "content-security-policy-report-only"@ != "x-dns-prefetch-control"@,
        "content-security-policy-report-only"@ != "x-download-options"@,
        "content-security-policy-report-only"@ != "x-frame-options"@,
        "content-security-policy-report-only"@ != "x-permitted-cross-domain-policies"@,
        "content-security-policy-report-only"@ != "x-xss-protection"@,
        "cross-origin-embedder-policy"@ != "cross-origin-opener-policy"@,
        "cross-origin-embedder-policy"@ != "cross-origin-resource-policy"@,
        "cross-origin-embedder-policy"@ != "origin-agent-cluster"@,
        "cross-origin-embedder-policy"@ != "referrer-policy"@,
        "cross-origin-embedder-policy"@ != "strict-transport-security"@,
        "cross-origin-embedder-policy"@ != "x-content-type-options"@,
        "cross-origin-embedder-policy"@ != "x-dns-prefetch-control"@,
        "cross-origin-embedder-policy"@ != "x-download-options"@,
        "cross-origin-embedder-policy"@ != "x-frame-options"@,
        "cross-origin-embedder-policy"@ != "x-permitted-cross-domain-policies"@,
        "cross-origin-embedder-policy"@ != "x-xss-protection"@,
        "cross-origin-opener-policy"@ != "cross-origin-resource-policy"@,
        "cross-origin-opener-policy"@ != "origin-agent-cluster"@,
        "cross-origin-opener-policy"@ != "referrer-policy"@,
        "cross-origin-opener-policy"@ != "strict-transport-security"@,
        "cross-origin-opener-policy"@ != "x-content-type-options"@,
        "cross-origin-opener-policy"@ != "x-dns-prefetch-control"@,
        "cross-origin-opener-policy"@ != "x-download-options"@,
        "cross-origin-opener-policy"@ != "x-frame-options"@,
        "cross-origin-opener-policy"@ != "x-permitted-cross-domain-policies"@,
        "cross-origin-opener-policy"@ != "x-xss-protection"@,
        "cross-origin-resource-policy"@ != "origin-agent-cluster"@,
        "cross-origin-resource-policy"@ != "referrer-policy"@,
        "cross-origin-resource-policy"@ != "strict-transport-security"@,
        "cross-origin-resource-policy"@ != "x-content-type-options"@,
        "cross-origin-resource-policy"@ != "x-dns-prefetch-control"@,
        "cross-origin-resource-policy"@ != "x-download-options"@,
        "cross-origin-resource-policy"@ != "x-frame-options"@,
        "cross-origin-resource-policy"@ != "x-permitted-cross-domain-policies"@,
        "cross-origin-resource-policy"@ != "x-xss-protection"@,
        "origin-agent-cluster"@ != "referrer-policy"@,
        "origin-agent-cluster"@ != "strict-transport-security"@,
        "origin-agent-cluster"@ != "x-content-type-options"@,
        "origin-agent-cluster"@ != "x-dns-prefetch-control"@,
        "origin-agent-cluster"@ != "x-download-options"@,
        "origin-agent-cluster"@ != "x-frame-options"@,
        "origin-agent-cluster"@ != "x-permitted-cross-domain-policies"@,
        "origin-agent-cluster"@ != "x-xss-protection"@,
        "referrer-policy"@ != "strict-transport-security"@,
        "referrer-policy"@ != "x-content-type-options"@,
        "referrer-policy"@ != "x-dns-prefetch-control"@,
        "referrer-policy"@ != "x-download-options"@,
        "referrer-policy"@ != "x-frame-options"@,
        "referrer-policy"@ != "x-permitted-cross-domain-policies"@,
        "referrer-policy"@ != "x-xss-protection"@,
        "strict-transport-security"@ != "x-content-type-options"@,
        "strict-transport-security"@ != "x-dns-prefetch-control"@,
        "strict-transport-security"@ != "x-download-options"@,
        "strict-transport-security"@ != "x-frame-options"@,
        "strict-transport-security"@ != "x-permitted-cross-domain-policies"@,
        "strict-transport-security"@ != "x-xss-protection"@,
        "x-content-type-options"@ != "x-dns-prefetch-control"@,
        "x-content-type-options"@ != "x-download-options"@,
        "x-content-type-options"@ != "x-frame-options"@,
        "x-content-type-options"@ != "x-permitted-cross-domain-policies"@,
        "x-content-type-options"@ != "x-xss-protection"@,
        "x-dns-prefetch-control"@ != "x-download-options"@,
        "x-dns-prefetch-control"@ != "x-frame-options"@,
        "x-dns-prefetch-control"@ != "x-permitted-cross-domain-policies"@,
        "x-dns-prefetch-control"@ != "x-xss-protection"@,
        "x-download-options"@ != "x-frame-options"@,
        "x-download-options"@ != "x-permitted-cross-domain-policies"@,
        "x-download-options"@ != "x-xss-protection"@,
        "x-frame-options"@ != "x-permitted-cross-domain-policies"@,
        "x-frame-options"@ != "x-xss-protection"@,
        "x-permitted-cross-domain-policies"@ != "x-xss-protection"@,
{
    reveal_strlit("content-security-policy");
    reveal_strlit("content-security-policy-report-only");
    reveal_strlit("cross-origin-embedder-policy");
    reveal_strlit("cross-origin-opener-policy");
    reveal_strlit("cross-origin-resource-policy");
    reveal_strlit("origin-agent-cluster");
    reveal_strlit("referrer-policy");
    reveal_strlit("strict-transport-security");
    reveal_strlit("x-content-type-options");
    reveal_strlit("x-dns-prefetch-control");
    reveal_strlit("x-download-options");
    reveal_strlit("x-frame-options");
    reveal_strlit("x-permitted-cross-domain-policies");
    reveal_strlit("x-xss-protection");
    assert("content-security-policy"@.len() != "content-security-policy-report-only"@.len());
    assert("content-security-policy"@.len() != "cross-origin-embedder-policy"@.len());
    assert("content-security-policy"@.len() != "cross-origin-opener-policy"@.len());
    assert("content-security-policy"@.len() != "cross-origin-resource-policy"@.len());
    assert("content-security-policy"@.len() != "origin-agent-cluster"@.len());
    assert("content-security-policy"@.len() != "referrer-policy"@.len());
    assert("content-security-policy"@.len() != "strict-transport-security"@.len());
    assert("content-security-policy"@.len() != "x-content-type-options"@.len());
    assert("content-security-policy"@.len() != "x-dns-prefetch-control"@.len());
    assert("content-security-policy"@.len() != "x-download-options"@.len());
    assert("content-security-policy"@.len() != "x-frame-options"@.len());
    assert("content-security-policy"@.len() != "x-permitted-cross-domain-policies"@.len());
    assert("content-security-policy"@.len() != "x-xss-protection"@.len());
    assert("content-security-policy-report-only"@.len() != "cross-origin-embedder-policy"@.len());
    assert("content-security-policy-report-only"@.len() != "cross-origin-opener-policy"@.len());
    assert("content-security-policy-report-only"@.len() != "cross-origin-resource-policy"@.len());
    assert("content-security-policy-report-only"@.len() != "origin-agent-cluster"@.len());
    assert("content-security-policy-report-only"@.len() != "referrer-policy"@.len());
    assert("content-security-policy-report-only"@.len() != "strict-transport-security"@.len());
    assert("content-security-policy-report-only"@.len() != "x-content-type-options"@.len());
    assert("content-security-policy-report-only"@.len() != "x-dns-prefetch-control"@.len());
    assert("content-security-policy-report-only"@.len() != "x-download-options"@.len());
    assert("content-security-policy-report-only"@.len() != "x-frame-options"@.len());
    assert("content-security-policy-report-only"@.len() != "x-permitted-cross-domain-policies"@.len());
    assert("content-security-policy-report-only"@.len() != "x-xss-protection"@.len());
    assert("cross-origin-embedder-policy"@.len() != "cross-origin-opener-policy"@.len());
    assert("cross-origin-embedder-policy"@[13] != "cross-origin-resource-policy"@[13]);
    assert("cross-origin-embedder-policy"@.len() != "origin-agent-cluster"@.len());
    assert("cross-origin-embedder-policy"@.len() != "referrer-policy"@.len());
    assert("cross-origin-embedder-policy"@.len() != "strict-transport-security"@.len());
    assert("cross-origin-embedder-policy"@.len() != "x-content-type-options"@.len());
    assert("cross-origin-embedder-policy"@.len() != "x-dns-prefetch-control"@.len());
    assert("cross-origin-embedder-policy"@.len() != "x-download-options"@.len());
    assert("cross-origin-embedder-policy"@.len() != "x-frame-options"@.len());
    assert("cross-origin-embedder-policy"@.len() != "x-permitted-cross-domain-policies"@.len());
    assert("cross-origin-embedder-policy"@.len() != "x-xss-protection"@.len());
    assert("cross-origin-opener-policy"@.len() != "cross-origin-resource-policy"@.len());
    assert("cross-origin-opener-policy"@.len() != "origin-agent-cluster"@.len());
    assert("cross-origin-opener-policy"@.len() != "referrer-policy"@.len());
    assert("cross-origin-opener-policy"@.len() != "strict-transport-security"@.len());
    assert("cross-origin-opener-policy"@.len() != "x-content-type-options"@.len());
    assert("cross-origin-opener-policy"@.len() != "x-dns-prefetch-control"@.len());
    assert("cross-origin-opener-policy"@.len() != "x-download-options"@.len());
    assert("cross-origin-opener-policy"@.len() != "x-frame-options"@.len());
    assert("cross-origin-opener-policy"@.len() != "x-permitted-cross-domain-policies"@.len());
    assert("cross-origin-opener-policy"@.len() != "x-xss-protection"@.len());
    assert("cross-origin-resource-policy"@.len() != "origin-agent-cluster"@.len());
    assert("cross-origin-resource-policy"@.len() != "referrer-policy"@.len());
    assert("cross-origin-resource-policy"@.len() != "strict-transport-security"@.len());
    assert("cross-origin-resource-policy"@.len() != "x-content-type-options"@.len());
    assert("cross-origin-resource-policy"@.len() != "x-dns-prefetch-control"@.len());
    assert("cross-origin-resource-policy"@.len() != "x-download-options"@.len());
    assert("cross-origin-resource-policy"@.len() != "x-frame-options"@.len());
    assert("cross-origin-resource-policy"@.len() != "x-permitted-cross-domain-policies"@.len());
    assert("cross-origin-resource-policy"@.len() != "x-xss-protection"@.len());
    assert("origin-agent-cluster"@.len() != "referrer-policy"@.len());
    assert("origin-agent-cluster"@.len() != "strict-transport-security"@.len());
    assert("origin-agent-cluster"@.len() != "x-content-type-options"@.len());
    assert("origin-agent-cluster"@.len() != "x-dns-prefetch-control"@.len());
    assert("origin-agent-cluster"@.len() != "x-download-options"@.len());
    assert("origin-agent-cluster"@.len() != "x-frame-options"@.len());
    assert("origin-agent-cluster"@.len() != "x-permitted-cross-domain-policies"@.len());
    assert("origin-agent-cluster"@.len() != "x-xss-protection"@.len());
    assert("referrer-policy"@.len() != "strict-transport-security"@.len());
    assert("referrer-policy"@.len() != "x-content-type-options"@.len());
    assert("referrer-policy"@.len() != "x-dns-prefetch-control"@.len());
    assert("referrer-policy"@.len() != "x-download-options"@.len());
    assert("referrer-policy"@[0] != "x-frame-options"@[0]);
    assert("referrer-policy"@.len() != "x-permitted-cross-domain-policies"@.len());
    assert("referrer-policy"@.len() != "x-xss-protection"@.len());
    assert("strict-transport-security"@.len() != "x-content-type-options"@.len());
    assert("strict-transport-security"@.len() != "x-dns-prefetch-control"@.len());
    assert("strict-transport-security"@.len() != "x-download-options"@.len());
    assert("strict-transport-security"@.len() != "x-frame-options"@.len());
    assert("strict-transport-security"@.len() != "x-permitted-cross-domain-policies"@.len());
    assert("strict-transport-security"@.len() != "x-xss-protection"@.len());
    assert("x-content-type-options"@[2] != "x-dns-prefetch-control"@[2]);
    assert("x-content-type-options"@.len() != "x-download-options"@.len());
    assert("x-content-type-options"@.len() != "x-frame-options"@.len());
    assert("x-content-type-options"@.len() != "x-permitted-cross-domain-policies"@.len());
    assert("x-content-type-options"@.len() != "x-xss-protection"@.len());
    assert("x-dns-prefetch-control"@.len() != "x-download-options"@.len());
    assert("x-dns-prefetch-control"@.len() != "x-frame-options"@.len());
    assert("x-dns-prefetch-control"@.len() != "x-permitted-cross-domain-policies"@.len());
    assert("x-dns-prefetch-control"@.len() != "x-xss-protection"@.len());
    assert("x-download-options"@.len() != "x-frame-options"@.len());
    assert("x-download-options"@.len() != "x-permitted-cross-domain-policies"@.len());
    assert("x-download-options"@.len() != "x-xss-protection"@.len());
    assert("x-frame-options"@.len() != "x-permitted-cross-domain-policies"@.len());
    assert("x-frame-options"@.len() != "x-xss-protection"@.len());
    assert("x-permitted-cross-domain-policies"@.len() != "x-xss-protection"@.len());
}

/// Every header the middleware sets ends up on the response exactly once,
/// with the middleware's value, whatever the handler had set under its name.
pub proof fn lemma_headers_replace(
    s: Sombrero,
    csp: Option<http::HeaderValue>,
    csp_report_only: Option<http::HeaderValue>,
    m: Map<Seq<char>, Seq<http::HeaderValue>>,
)
    ensures
        csp matches Some(v) ==> s.attached(csp, csp_report_only, m)["content-security-policy"@] == seq![v],
        csp_report_only matches Some(v) ==> s.attached(csp, csp_report_only, m)["content-security-policy-report-only"@] == seq![v],
        s.cross_origin_embedder_policy_value() matches Some(v) ==> s.attached(csp, csp_report_only, m)["cross-origin-embedder-policy"@] == seq![v],
        s.cross_origin_opener_policy_value() matches Some(v) ==> s.attached(csp, csp_report_only, m)["cross-origin-opener-policy"@] == seq![v],
        s.cross_origin_resource_policy_value() matches Some(v) ==> s.attached(csp, csp_report_only, m)["cross-origin-resource-policy"@] == seq![v],
        s.origin_agent_cluster_value() matches Some(v) ==> s.attached(csp, csp_report_only, m)["origin-agent-cluster"@] == seq![v],
        s.referrer_policy_value() matches Some(v) ==> s.attached(csp, csp_report_only, m)["referrer-policy"@] == seq![v],
        s.strict_transport_security_value() matches Some(v) ==> s.attached(csp, csp_report_only, m)["strict-transport-security"@] == seq![v],
        s.x_content_type_options_value() matches Some(v) ==> s.attached(csp, csp_report_only, m)["x-content-type-options"@] == seq![v],
        s.x_dns_prefetch_control_value() matches Some(v) ==> s.attached(csp, csp_report_only, m)["x-dns-prefetch-control"@] == seq![v],
        s.x_download_options_value() matches Some(v) ==> s.attached(csp, csp_report_only, m)["x-download-options"@] == seq![v],
        s.x_frame_options_value() matches Some(v) ==> s.attached(csp, csp_report_only, m)["x-frame-options"@] == seq![v],
        s.x_permitted_cross_domain_policies_value() matches Some(v) ==> s.attached(csp, csp_report_only, m)["x-permitted-cross-domain-policies"@] == seq![v],
        s.x_xss_protection_value() matches Some(v) ==> s.attached(csp, csp_report_only, m)["x-xss-protection"@] == seq![v],
{
    reveal(put);
    lemma_header_names_distinct();
}

/// A default configuration sets `x-frame-options: SAMEORIGIN`,
/// `x-content-type-options: nosniff` and
/// `strict-transport-security: max-age=15552000;includeSubDomains`.
pub proof fn lemma_default_static_headers(
    s: Sombrero,
    csp: Option<http::HeaderValue>,
    csp_report_only: Option<http::HeaderValue>,
    m: Map<Seq<char>, Seq<http::HeaderValue>>,
)
    requires
        is_default_config(s),
    ensures
        s.attached(csp, csp_report_only, m)["x-frame-options"@] == seq![header_value_of("SAMEORIGIN"@)],
        s.attached(csp, csp_report_only, m)["x-content-type-options"@] == seq![header_value_of("nosniff"@)],
        s.attached(csp, csp_report_only, m)["strict-transport-security"@] == seq![
            header_value_of("max-age=15552000;includeSubDomains"@),
        ],
{
    lemma_headers_replace(s, csp, csp_report_only, m);
    crate::sts::lemma_default_sts_text();
}

/// When both policies take the nonce alone as `script-src`, the two header
/// texts of one request carry the same clause `script-src 'nonce-<nonce>';`,
/// with the nonce that `prepare` stores for handlers.
pub proof fn lemma_one_nonce_per_request(s: Sombrero, nonce: Seq<char>)
    requires
        s.content_security_policy matches Some(p) && p.script_src@ == seq![CspSource::Nonce],
        s.content_security_policy_report_only matches Some(p) && p.script_src@ == seq![
            CspSource::Nonce,
        ],
    ensures
        contains_text(
            policy_text(policy_of(s.content_security_policy), nonce),
            nonce_script_clause(nonce),
        ),
        contains_text(
            policy_text(policy_of(s.content_security_policy_report_only), nonce),
            nonce_script_clause(nonce),
        ),
{
    lemma_nonce_script_clause(policy_of(s.content_security_policy), nonce);
    lemma_nonce_script_clause(policy_of(s.content_security_policy_report_only), nonce);
}

} // verus!
