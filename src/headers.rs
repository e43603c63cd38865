//! Headers whose value is fixed by a small choice: each type knows its
//! header name and the text of its value.

use vstd::prelude::*;

use crate::wire::{header_name_ok, header_text_ok};

verus! {

/// The `cross-origin-embedder-policy` header.
#[derive(Debug, Copy, Clone, PartialEq, Eq, Hash, Default)]
pub enum CrossOriginEmbedderPolicy {
    #[default]
    RequireCorp,
    Credentialless,
    UnsafeNone,
}

impl CrossOriginEmbedderPolicy {
    pub open spec fn spec_name(self) -> Seq<char> {
        "cross-origin-embedder-policy"@
    }

    pub open spec fn spec_value(self) -> Seq<char> {
        match self {
            CrossOriginEmbedderPolicy::RequireCorp => "require-corp"@,
            CrossOriginEmbedderPolicy::Credentialless => "credentialless"@,
            CrossOriginEmbedderPolicy::UnsafeNone => "unsafe-none"@,
        }
    }

    /// The header's name, in lower case.
    pub fn name(&self) -> (r: &'static str)
        ensures
            r@ == self.spec_name(),
    {
        "cross-origin-embedder-policy"
    }

    /// The header's value.
    pub fn value(&self) -> (r: &'static str)
        ensures
            r@ == self.spec_value(),
    {
        match self {
            CrossOriginEmbedderPolicy::RequireCorp => "require-corp",
            CrossOriginEmbedderPolicy::Credentialless => "credentialless",
            CrossOriginEmbedderPolicy::UnsafeNone => "unsafe-none",
        }
    }

    /// The header's name and value are well formed for `http`.
    pub proof fn lemma_well_formed(self)
        ensures
            header_name_ok(self.spec_name()),
            header_text_ok(self.spec_value()),
    {
        reveal(header_name_ok);
        reveal(header_text_ok);
        reveal_strlit("credentialless");
        reveal_strlit("cross-origin-embedder-policy");
        reveal_strlit("require-corp");
        reveal_strlit("unsafe-none");
    }
}

/// The `cross-origin-opener-policy` header.
#[derive(Debug, Copy, Clone, PartialEq, Eq, Hash, Default)]
pub enum CrossOriginOpenerPolicy {
    #[default]
    SameOrigin,
    SameOriginAllowPopups,
    UnsafeNone,
}

impl CrossOriginOpenerPolicy {
    pub open spec fn spec_name(self) -> Seq<char> {
        "cross-origin-opener-policy"@
    }

    pub open spec fn spec_value(self) -> Seq<char> {
        match self {
            CrossOriginOpenerPolicy::SameOrigin => "same-origin"@,
            CrossOriginOpenerPolicy::SameOriginAllowPopups => "same-origin-allow-popups"@,
            CrossOriginOpenerPolicy::UnsafeNone => "unsafe-none"@,
        }
    }

    /// The header's name, in lower case.
    pub fn name(&self) -> (r: &'static str)
        ensures
            r@ == self.spec_name(),
    {
        "cross-origin-opener-policy"
    }

    /// The header's value.
    pub fn value(&self) -> (r: &'static str)
        ensures
            r@ == self.spec_value(),
    {
        match self {
            CrossOriginOpenerPolicy::SameOrigin => "same-origin",
            CrossOriginOpenerPolicy::SameOriginAllowPopups => "same-origin-allow-popups",
            CrossOriginOpenerPolicy::UnsafeNone => "unsafe-none",
        }
    }

    /// The header's name and value are well formed for `http`.
    pub proof fn lemma_well_formed(self)
        ensures
            header_name_ok(self.spec_name()),
            header_text_ok(self.spec_value()),
    {
        reveal(header_name_ok);
        reveal(header_text_ok);
        reveal_strlit("cross-origin-opener-policy");
        reveal_strlit("same-origin");
        reveal_strlit("same-origin-allow-popups");
        reveal_strlit("unsafe-none");
    }
}

/// The `cross-origin-resource-policy` header.
#[derive(Debug, Copy, Clone, PartialEq, Eq, Hash, Default)]
pub enum CrossOriginResourcePolicy {
    #[default]
    SameOrigin,
    SameSite,
    CrossOrigin,
}

impl CrossOriginResourcePolicy {
    pub open spec fn spec_name(self) -> Seq<char> {
        "cross-origin-resource-policy"@
    }

    pub open spec fn spec_value(self) -> Seq<char> {
        match self {
            CrossOriginResourcePolicy::SameOrigin => "same-origin"@,
            CrossOriginResourcePolicy::SameSite => "same-site"@,
            CrossOriginResourcePolicy::CrossOrigin => "cross-origin"@,
        }
    }

    /// The header's name, in lower case.
    pub fn name(&self) -> (r: &'static str)
        ensures
            r@ == self.spec_name(),
    {
        "cross-origin-resource-policy"
    }

    /// The header's value.
    pub fn value(&self) -> (r: &'static str)
        ensures
            r@ == self.spec_value(),
    {
        match self {
            CrossOriginResourcePolicy::SameOrigin => "same-origin",
            CrossOriginResourcePolicy::SameSite => "same-site",
            CrossOriginResourcePolicy::CrossOrigin => "cross-origin",
        }
    }

    /// The header's name and value are well formed for `http`.
    pub proof fn lemma_well_formed(self)
        ensures
            header_name_ok(self.spec_name()),
            header_text_ok(self.spec_value()),
    {
        reveal(header_name_ok);
        reveal(header_text_ok);
        reveal_strlit("cross-origin");
        reveal_strlit("cross-origin-resource-policy");
        reveal_strlit("same-origin");
        reveal_strlit("same-site");
    }
}

/// The `origin-agent-cluster` header, always `?1`.
#[derive(Debug, Copy, Clone, PartialEq, Eq, Hash, Default)]
pub struct OriginAgentCluster;

impl OriginAgentCluster {
    pub open spec fn spec_name(self) -> Seq<char> {
        "origin-agent-cluster"@
    }

    pub open spec fn spec_value(self) -> Seq<char> {
        "?1"@
    }

    /// The header's name, in lower case.
    pub fn name(&self) -> (r: &'static str)
        ensures
            r@ == self.spec_name(),
    {
        "origin-agent-cluster"
    }

    /// The header's value.
    pub fn value(&self) -> (r: &'static str)
        ensures
            r@ == self.spec_value(),
    {
        "?1"
    }

    /// The header's name and value are well formed for `http`.
    pub proof fn lemma_well_formed(self)
        ensures
            header_name_ok(self.spec_name()),
            header_text_ok(self.spec_value()),
    {
        reveal(header_name_ok);
        reveal(header_text_ok);
        reveal_strlit("?1");
        reveal_strlit("origin-agent-cluster");
    }
}

/// The `referrer-policy` header.
#[derive(Debug, Copy, Clone, PartialEq, Eq, Hash, Default)]
pub enum ReferrerPolicy {
    #[default]
    NoReferrer,
    NoReferrerWhenDowngrade,
    Origin,
    OriginWhenCrossOrigin,
    SameOrigin,
    StrictOrigin,
    StrictOriginWhenCrossOrigin,
    UnsafeUrl,
}

impl ReferrerPolicy {
    pub open spec fn spec_name(self) -> Seq<char> {
        "referrer-policy"@
    }

    pub open spec fn spec_value(self) -> Seq<char> {
        match self {
            ReferrerPolicy::NoReferrer => "no-referrer"@,
            ReferrerPolicy::NoReferrerWhenDowngrade => "no-referrer-when-downgrade"@,
            ReferrerPolicy::Origin => "origin"@,
            ReferrerPolicy::OriginWhenCrossOrigin => "origin-when-cross-origin"@,
            ReferrerPolicy::SameOrigin => "same-origin"@,
            ReferrerPolicy::StrictOrigin => "strict-origin"@,
            ReferrerPolicy::StrictOriginWhenCrossOrigin => "strict-origin-when-cross-origin"@,
            ReferrerPolicy::UnsafeUrl => "unsafe-url"@,
        }
    }

    /// The header's name, in lower case.
    pub fn name(&self) -> (r: &'static str)
        ensures
            r@ == self.spec_name(),
    {
        "referrer-policy"
    }

    /// The header's value.
    pub fn value(&self) -> (r: &'static str)
        ensures
            r@ == self.spec_value(),
    {
        match self {
            ReferrerPolicy::NoReferrer => "no-referrer",
            ReferrerPolicy::NoReferrerWhenDowngrade => "no-referrer-when-downgrade",
            ReferrerPolicy::Origin => "origin",
            ReferrerPolicy::OriginWhenCrossOrigin => "origin-when-cross-origin",
            ReferrerPolicy::SameOrigin => "same-origin",
            ReferrerPolicy::StrictOrigin => "strict-origin",
            ReferrerPolicy::StrictOriginWhenCrossOrigin => "strict-origin-when-cross-origin",
            ReferrerPolicy::UnsafeUrl => "unsafe-url",
        }
    }

    /// The header's name and value are well formed for `http`.
    pub proof fn lemma_well_formed(self)
        ensures
            header_name_ok(self.spec_name()),
            header_text_ok(self.spec_value()),
    {
        reveal(header_name_ok);
        reveal(header_text_ok);
        reveal_strlit("no-referrer");
        reveal_strlit("no-referrer-when-downgrade");
        reveal_strlit("origin");
        reveal_strlit("origin-when-cross-origin");
        reveal_strlit("referrer-policy");
        reveal_strlit("same-origin");
        reveal_strlit("strict-origin");
        reveal_strlit("strict-origin-when-cross-origin");
        reveal_strlit("unsafe-url");
    }
}

/// The `x-content-type-options` header, always `nosniff`.
#[derive(Debug, Copy, Clone, PartialEq, Eq, Hash, Default)]
pub struct XContentTypeOptions;

impl XContentTypeOptions {
    pub open spec fn spec_name(self) -> Seq<char> {
        "x-content-type-options"@
    }

    pub open spec fn spec_value(self) -> Seq<char> {
        "nosniff"@
    }

    /// The header's name, in lower case.
    pub fn name(&self) -> (r: &'static str)
        ensures
            r@ == self.spec_name(),
    {
        "x-content-type-options"
    }

    /// The header's value.
    pub fn value(&self) -> (r: &'static str)
        ensures
            r@ == self.spec_value(),
    {
        "nosniff"
    }

    /// The header's name and value are well formed for `http`.
    pub proof fn lemma_well_formed(self)
        ensures
            header_name_ok(self.spec_name()),
            header_text_ok(self.spec_value()),
    {
        reveal(header_name_ok);
        reveal(header_text_ok);
        reveal_strlit("nosniff");
        reveal_strlit("x-content-type-options");
    }
}

/// The `x-dns-prefetch-control` header.
#[derive(Debug, Copy, Clone, PartialEq, Eq, Hash, Default)]
pub enum XDnsPrefetchControl {
    On,
    #[default]
    Off,
}

impl XDnsPrefetchControl {
    pub open spec fn spec_name(self) -> Seq<char> {
        "x-dns-prefetch-control"@
    }

    pub open spec fn spec_value(self) -> Seq<char> {
        match self {
            XDnsPrefetchControl::On => "on"@,
            XDnsPrefetchControl::Off => "off"@,
        }
    }

    /// The header's name, in lower case.
    pub fn name(&self) -> (r: &'static str)
        ensures
            r@ == self.spec_name(),
    {
        "x-dns-prefetch-control"
    }

    /// The header's value.
    pub fn value(&self) -> (r: &'static str)
        ensures
            r@ == self.spec_value(),
    {
        match self {
            XDnsPrefetchControl::On => "on",
            XDnsPrefetchControl::Off => "off",
        }
    }

    /// The header's name and value are well formed for `http`.
    pub proof fn lemma_well_formed(self)
        ensures
            header_name_ok(self.spec_name()),
            header_text_ok(self.spec_value()),
    {
        reveal(header_name_ok);
        reveal(header_text_ok);
        reveal_strlit("off");
        reveal_strlit("on");
        reveal_strlit("x-dns-prefetch-control");
    }
}

/// The `x-download-options` header, always `noopen`.
#[derive(Debug, Copy, Clone, PartialEq, Eq, Hash, Default)]
pub struct XDownloadOptions;

impl XDownloadOptions {
    pub open spec fn spec_name(self) -> Seq<char> {
        "x-download-options"@
    }

    pub open spec fn spec_value(self) -> Seq<char> {
        "noopen"@
    }

    /// The header's name, in lower case.
    pub fn name(&self) -> (r: &'static str)
        ensures
            r@ == self.spec_name(),
    {
        "x-download-options"
    }

    /// The header's value.
    pub fn value(&self) -> (r: &'static str)
        ensures
            r@ == self.spec_value(),
    {
        "noopen"
    }

    /// The header's name and value are well formed for `http`.
    pub proof fn lemma_well_formed(self)
        ensures
            header_name_ok(self.spec_name()),
            header_text_ok(self.spec_value()),
    {
        reveal(header_name_ok);
        reveal(header_text_ok);
        reveal_strlit("noopen");
        reveal_strlit("x-download-options");
    }
}

/// The `x-frame-options` header.
#[derive(Debug, Copy, Clone, PartialEq, Eq, Hash, Default)]
pub enum XFrameOptions {
    Deny,
    #[default]
    Sameorigin,
}

impl XFrameOptions {
    pub open spec fn spec_name(self) -> Seq<char> {
        "x-frame-options"@
    }

    pub open spec fn spec_value(self) -> Seq<char> {
        match self {
            XFrameOptions::Deny => "DENY"@,
            XFrameOptions::Sameorigin => "SAMEORIGIN"@,
        }
    }

    /// The header's name, in lower case.
    pub fn name(&self) -> (r: &'static str)
        ensures
            r@ == self.spec_name(),
    {
        "x-frame-options"
    }

    /// The header's value.
    pub fn value(&self) -> (r: &'static str)
        ensures
            r@ == self.spec_value(),
    {
        match self {
            XFrameOptions::Deny => "DENY",
            XFrameOptions::Sameorigin => "SAMEORIGIN",
        }
    }

    /// The header's name and value are well formed for `http`.
    pub proof fn lemma_well_formed(self)
        ensures
            header_name_ok(self.spec_name()),
            header_text_ok(self.spec_value()),
    {
        reveal(header_name_ok);
        reveal(header_text_ok);
        reveal_strlit("DENY");
        reveal_strlit("SAMEORIGIN");
        reveal_strlit("x-frame-options");
    }
}

/// The `x-permitted-cross-domain-policies` header.
#[derive(Debug, Copy, Clone, PartialEq, Eq, Hash, Default)]
pub enum XPermittedCrossDomainPolicies {
    #[default]
    NonePermitted,
    MasterOnly,
    ByContentType,
    All,
}

impl XPermittedCrossDomainPolicies {
    pub open spec fn spec_name(self) -> Seq<char> {
        "x-permitted-cross-domain-policies"@
    }

    pub open spec fn spec_value(self) -> Seq<char> {
        match self {
            XPermittedCrossDomainPolicies::NonePermitted => "none"@,
            XPermittedCrossDomainPolicies::MasterOnly => "master-only"@,
            XPermittedCrossDomainPolicies::ByContentType => "by-content-type"@,
            XPermittedCrossDomainPolicies::All => "all"@,
        }
    }

    /// The header's name, in lower case.
    pub fn name(&self) -> (r: &'static str)
        ensures
            r@ == self.spec_name(),
    {
        "x-permitted-cross-domain-policies"
    }

    /// The header's value.
    pub fn value(&self) -> (r: &'static str)
        ensures
            r@ == self.spec_value(),
    {
        match self {
            XPermittedCrossDomainPolicies::NonePermitted => "none",
            XPermittedCrossDomainPolicies::MasterOnly => "master-only",
            XPermittedCrossDomainPolicies::ByContentType => "by-content-type",
            XPermittedCrossDomainPolicies::All => "all",
        }
    }

    /// The header's name and value are well formed for `http`.
    pub proof fn lemma_well_formed(self)
        ensures
            header_name_ok(self.spec_name()),
            header_text_ok(self.spec_value()),
    {
        reveal(header_name_ok);
        reveal(header_text_ok);
        reveal_strlit("all");
        reveal_strlit("by-content-type");
        reveal_strlit("master-only");
        reveal_strlit("none");
        reveal_strlit("x-permitted-cross-domain-policies");
    }
}

/// The `x-xss-protection` header; `0` turns the browser's filter off.
#[derive(Debug, Copy, Clone, PartialEq, Eq, Hash, Default)]
pub enum XXssProtection {
    #[default]
    False,
    TrueBlock,
    True,
}

impl XXssProtection {
    pub open spec fn spec_name(self) -> Seq<char> {
        "x-xss-protection"@
    }

    pub open spec fn spec_value(self) -> Seq<char> {
        match self {
            XXssProtection::False => "0"@,
            XXssProtection::TrueBlock => "1; mode=block"@,
            XXssProtection::True => "1"@,
        }
    }

    /// The header's name, in lower case.
    pub fn name(&self) -> (r: &'static str)
        ensures
            r@ == self.spec_name(),
    {
        "x-xss-protection"
    }

    /// The header's value.
    pub fn value(&self) -> (r: &'static str)
        ensures
            r@ == self.spec_value(),
    {
        match self {
            XXssProtection::False => "0",
            XXssProtection::TrueBlock => "1; mode=block",
            XXssProtection::True => "1",
        }
    }

    /// The header's name and value are well formed for `http`.
    pub proof fn lemma_well_formed(self)
        ensures
            header_name_ok(self.spec_name()),
            header_text_ok(self.spec_value()),
    {
        reveal(header_name_ok);
        reveal(header_text_ok);
        reveal_strlit("0");
        reveal_strlit("1");
        reveal_strlit("1; mode=block");
        reveal_strlit("x-xss-protection");
    }
}


} // verus!
