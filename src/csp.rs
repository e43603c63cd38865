//! A middleware that sets one Content-Security-Policy header, enforcing or
//! report-only, with a fresh nonce for each request.

use std::sync::Arc;

use vstd::prelude::*;

use crate::nonce::{is_alphanumeric, random_string, store_nonce, stored_nonces, NONCE_LENGTH};
use crate::policy::{policy_text, ContentSecurityPolicy};
use crate::sombrero::lemma_policy_header_names;
use crate::wire::{header_entries, header_map_has_room, header_text_ok, header_value_of, insert_header};

verus! {

/// The policy and the header it goes out under.
#[derive(Debug, Clone)]
pub struct CspLayer {
    pub report_only: bool,
    pub csp: Arc<ContentSecurityPolicy>,
}

/// A handler wrapped by a `CspLayer`.
#[derive(Debug, Clone)]
pub struct CspService<S> {
    pub report_only: bool,
    pub csp: Arc<ContentSecurityPolicy>,
    pub inner: S,
}

impl CspLayer {
    /// Enforces `csp`.
    pub fn new(csp: ContentSecurityPolicy) -> (r: Self)
        ensures
            !r.report_only,
            *r.csp == csp,
    {
        Self::new_internal(Arc::new(csp), false)
    }

    /// Reports violations of `csp` without enforcing it.
    pub fn new_report_only(csp: ContentSecurityPolicy) -> (r: Self)
        ensures
            r.report_only,
            *r.csp == csp,
    {
        Self::new_internal(Arc::new(csp), true)
    }

    /// Enforces a shared policy.
    pub fn new_arc(csp: Arc<ContentSecurityPolicy>) -> (r: Self)
        ensures
            !r.report_only,
            r.csp == csp,
    {
        Self::new_internal(csp, false)
    }

    /// Reports violations of a shared policy without enforcing it.
    pub fn new_arc_report_only(csp: Arc<ContentSecurityPolicy>) -> (r: Self)
        ensures
            r.report_only,
            r.csp == csp,
    {
        Self::new_internal(csp, true)
    }

    fn new_internal(csp: Arc<ContentSecurityPolicy>, report_only: bool) -> (r: Self)
        ensures
            r.report_only == report_only,
            r.csp == csp,
    {
        CspLayer { report_only, csp }
    }

    /// Wraps a handler.
    pub fn layer<S>(&self, inner: S) -> (r: CspService<S>)
        ensures
            r.report_only == self.report_only,
            r.csp == self.csp,
            r.inner == inner,
    {
        CspService { report_only: self.report_only, csp: self.csp.clone(), inner }
    }
}

/// The name of the header that a policy goes out under.
pub open spec fn csp_header_name(report_only: bool) -> Seq<char> {
    if report_only {
        "content-security-policy-report-only"@
    } else {
        "content-security-policy"@
    }
}

impl<S> CspService<S> {
    /// The name of the header this service sets.
    pub fn header_name(&self) -> (r: &'static str)
        ensures
            r@ == csp_header_name(self.report_only),
    {
        if self.report_only {
            "content-security-policy-report-only"
        } else {
            "content-security-policy"
        }
    }

    /// Before the request is handed on: renders the policy with `nonce`,
    /// then stores the nonce in the request's extensions. A policy whose
    /// text cannot be a header value is a configuration error; then the
    /// extensions are left as they were.
    pub fn prepare(&self, nonce: String, extensions: &mut http::Extensions) -> (r: Result<
        http::HeaderValue,
        http::header::InvalidHeaderValue,
    >)
        ensures
            r.is_ok() <==> header_text_ok(policy_text(*self.csp, nonce@)),
            r.is_ok() ==> r.unwrap() == header_value_of(policy_text(*self.csp, nonce@)),
            r.is_ok() ==> stored_nonces(*final(extensions)) == seq![nonce@],
            r.is_err() ==> *final(extensions) == *old(extensions),
    {
        let r = self.csp.value(nonce.as_str());
        if r.is_ok() {
            store_nonce(extensions, &nonce);
        }
        r
    }

    /// Before the request is handed on: draws a fresh nonce of
    /// `NONCE_LENGTH` letters and digits and prepares the request with it.
    pub fn begin_request(&self, extensions: &mut http::Extensions) -> (r: Result<
        http::HeaderValue,
        http::header::InvalidHeaderValue,
    >)
        ensures
            r.is_ok() ==> {
                let n = stored_nonces(*final(extensions))[0];
                &&& stored_nonces(*final(extensions)).len() == 1
                &&& n.len() == NONCE_LENGTH
                &&& forall|i: int| 0 <= i < n.len() ==> is_alphanumeric(#[trigger] n[i])
                &&& r.unwrap() == header_value_of(policy_text(*self.csp, n))
            },
            r.is_err() ==> *final(extensions) == *old(extensions) && exists|n: Seq<char>|
                n.len() == NONCE_LENGTH && !header_text_ok(policy_text(*self.csp, n)),
    {
        let nonce = random_string(NONCE_LENGTH);
        self.prepare(nonce, extensions)
    }

    /// On the response: sets the policy's header, replacing what the handler
    /// had set under that name.
    pub fn attach(&self, value: http::HeaderValue, headers: &mut http::HeaderMap)
        requires
            header_map_has_room(*old(headers)),
        ensures
            header_entries(*final(headers)) == header_entries(*old(headers)).insert(
                csp_header_name(self.report_only),
                seq![value],
            ),
    {
        proof {
            lemma_policy_header_names();
        }
        insert_header(headers, self.header_name(), value);
    }
}

} // verus!
