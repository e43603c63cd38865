//! The Content-Security-Policy model: source expressions, the policy
//! aggregate and its serialisation into one header value.

use vstd::prelude::*;
use vstd::string::StringExecFns;

use crate::wire::{header_text_ok, header_value_from_str, header_value_of};

verus! {

/// A scheme source: renders as the scheme followed by a colon.
#[derive(Debug, Copy, Clone, PartialEq, Eq, Hash)]
pub enum CspSchemeSource {
    Data,
    Mediastream,
    Blob,
    Filesystem,
    Http,
    Https,
}

impl CspSchemeSource {
    pub open spec fn spec_text(self) -> Seq<char> {
        match self {
            CspSchemeSource::Data => "data:"@,
            CspSchemeSource::Mediastream => "mediastream:"@,
            CspSchemeSource::Blob => "blob:"@,
            CspSchemeSource::Filesystem => "filesystem:"@,
            CspSchemeSource::Http => "http:"@,
            CspSchemeSource::Https => "https:"@,
        }
    }

    /// The wire text of this scheme, such as `https:`.
    pub fn as_str(&self) -> (r: &'static str)
        ensures
            r@ == self.spec_text(),
    {
        match self {
            CspSchemeSource::Data => "data:",
            CspSchemeSource::Mediastream => "mediastream:",
            CspSchemeSource::Blob => "blob:",
            CspSchemeSource::Filesystem => "filesystem:",
            CspSchemeSource::Http => "http:",
            CspSchemeSource::Https => "https:",
        }
    }
}

/// The digest algorithm of a hash source.
#[derive(Debug, Clone, PartialEq, Eq, Hash)]
pub enum CspHashAlgorithm {
    Sha256,
    Sha384,
    Sha512,
    Custom(String),
}

impl CspHashAlgorithm {
    pub open spec fn spec_text(self) -> Seq<char> {
        match self {
            CspHashAlgorithm::Sha256 => "sha256"@,
            CspHashAlgorithm::Sha384 => "sha384"@,
            CspHashAlgorithm::Sha512 => "sha512"@,
            CspHashAlgorithm::Custom(s) => s@,
        }
    }

    /// The algorithm's name as it stands in a hash source.
    pub fn as_str(&self) -> (r: &str)
        ensures
            r@ == self.spec_text(),
    {
        match self {
            CspHashAlgorithm::Sha256 => "sha256",
            CspHashAlgorithm::Sha384 => "sha384",
            CspHashAlgorithm::Sha512 => "sha512",
            CspHashAlgorithm::Custom(s) => s.as_str(),
        }
    }
}

/// One source expression inside a directive.
#[derive(Debug, Clone, PartialEq, Eq, Hash)]
pub enum CspSource {
    Host(String),
    Scheme(CspSchemeSource),
    /// Stands for the nonce of the request being answered.
    Nonce,
    Hash(CspHashAlgorithm, String),
    /// Renders as `'self'`.
    SelfOrigin,
    UnsafeEval,
    WasmUnsafeEval,
    UnsafeHashes,
    UnsafeInline,
    StrictDynamic,
    ReportSample,
    InlineSpeculationRules,
    /// Renders as `'none'`: no source is allowed.
    NoneSource,
}

/// The wire text of a source expression, given the request's nonce.
pub open spec fn source_text(s: CspSource, nonce: Seq<char>) -> Seq<char> {
    match s {
        CspSource::Host(h) => h@,
        CspSource::Scheme(k) => k.spec_text(),
        CspSource::Nonce => "'nonce-"@ + nonce + "'"@,
        CspSource::Hash(a, d) => "'"@ + a.spec_text() + "-"@ + d@ + "'"@,
        CspSource::SelfOrigin => "'self'"@,
        CspSource::UnsafeEval => "'unsafe-eval'"@,
        CspSource::WasmUnsafeEval => "'wasm-unsafe-eval'"@,
        CspSource::UnsafeHashes => "'unsafe-hashes'"@,
        CspSource::UnsafeInline => "'unsafe-inline'"@,
        CspSource::StrictDynamic => "'strict-dynamic'"@,
        CspSource::ReportSample => "'report-sample'"@,
        CspSource::InlineSpeculationRules => "'inline-speculation-rules'"@,
        CspSource::NoneSource => "'none'"@,
    }
}

/// Each source preceded by one space, in order.
pub open spec fn sources_text(srcs: Seq<CspSource>, nonce: Seq<char>) -> Seq<char>
    decreases srcs.len(),
{
    if srcs.len() == 0 {
        Seq::empty()
    } else {
        sources_text(srcs.drop_last(), nonce) + " "@ + source_text(srcs.last(), nonce)
    }
}

/// One directive clause `name src1 src2;`, or nothing for an empty list.
pub open spec fn clause_text(name: Seq<char>, srcs: Seq<CspSource>, nonce: Seq<char>) -> Seq<char> {
    if srcs.len() == 0 {
        Seq::empty()
    } else {
        name + sources_text(srcs, nonce) + ";"@
    }
}

impl CspSource {
    /// Appends this source's wire text to `out`. Keywords and schemes are
    /// appended from static text; only the nonce and hash forms are assembled.
    pub fn push_text(&self, out: &mut String, nonce: &str)
        ensures
            final(out)@ == old(out)@ + source_text(*self, nonce@),
    {
        match self {
            CspSource::Host(h) => out.append(h.as_str()),
            CspSource::Scheme(k) => out.append(k.as_str()),
            CspSource::Nonce => {
                out.append("'nonce-");
                out.append(nonce);
                out.append("'");
                assert(final(out)@ =~= old(out)@ + source_text(*self, nonce@));
            },
            CspSource::Hash(a, d) => {
                out.append("'");
                out.append(a.as_str());
                out.append("-");
                out.append(d.as_str());
                out.append("'");
                assert(final(out)@ =~= old(out)@ + source_text(*self, nonce@));
            },
            CspSource::SelfOrigin => out.append("'self'"),
            CspSource::UnsafeEval => out.append("'unsafe-eval'"),
            CspSource::WasmUnsafeEval => out.append("'wasm-unsafe-eval'"),
            CspSource::UnsafeHashes => out.append("'unsafe-hashes'"),
            CspSource::UnsafeInline => out.append("'unsafe-inline'"),
            CspSource::StrictDynamic => out.append("'strict-dynamic'"),
            CspSource::ReportSample => out.append("'report-sample'"),
            CspSource::InlineSpeculationRules => out.append("'inline-speculation-rules'"),
            CspSource::NoneSource => out.append("'none'"),
        }
    }
}

/// Appends the clause of one directive to `s`; an empty list appends nothing.
pub fn serialize_header(s: &mut String, nonce: &str, name: &str, sources: &[CspSource])
    ensures
        final(s)@ == old(s)@ + clause_text(name@, sources@, nonce@),
{
    if sources.len() == 0 {
        assert(final(s)@ =~= old(s)@ + clause_text(name@, sources@, nonce@));
        return;
    }
    s.append(name);
    let mut i: usize = 0;
    while i < sources.len()
        invariant
            0 <= i <= sources@.len(),
            s@ == old(s)@ + name@ + sources_text(sources@.subrange(0, i as int), nonce@),
        decreases sources@.len() - i,
    {
        s.append(" ");
        sources[i].push_text(s, nonce);
        proof {
            let pre = sources@.subrange(0, i as int);
            let next = sources@.subrange(0, i + 1);
            assert(next.drop_last() =~= pre);
        }
        i = i + 1;
    }
    s.append(";");
    assert(sources@.subrange(0, sources@.len() as int) =~= sources@);
}


/// A policy: one ordered list of sources per directive, and the
/// `upgrade-insecure-requests` flag. An empty list leaves its directive out.
#[derive(Debug, Clone, PartialEq, Eq, Hash)]
pub struct ContentSecurityPolicy {
    pub default_src: Vec<CspSource>,
    pub child_src: Vec<CspSource>,
    pub connect_src: Vec<CspSource>,
    pub font_src: Vec<CspSource>,
    pub frame_src: Vec<CspSource>,
    pub img_src: Vec<CspSource>,
    pub manifest_src: Vec<CspSource>,
    pub media_src: Vec<CspSource>,
    pub object_src: Vec<CspSource>,
    pub script_src: Vec<CspSource>,
    pub script_src_elem: Vec<CspSource>,
    pub script_src_attr: Vec<CspSource>,
    pub style_src: Vec<CspSource>,
    pub style_src_elem: Vec<CspSource>,
    pub style_src_attr: Vec<CspSource>,
    pub worker_src: Vec<CspSource>,
    pub base_uri: Vec<CspSource>,
    pub sandbox: Vec<CspSource>,
    pub form_action: Vec<CspSource>,
    pub frame_ancestors: Vec<CspSource>,
    pub upgrade_insecure_requests: bool,
}

/// The header text of a policy: the clauses of the twenty directives in their
/// fixed order, then `upgrade-insecure-requests;` when the flag is set.
pub open spec fn policy_text(p: ContentSecurityPolicy, nonce: Seq<char>) -> Seq<char> {
    clause_text("default-src"@, p.default_src@, nonce)
        + clause_text("child-src"@, p.child_src@, nonce)
        + clause_text("connect-src"@, p.connect_src@, nonce)
        + clause_text("font-src"@, p.font_src@, nonce)
        + clause_text("frame-src"@, p.frame_src@, nonce)
        + clause_text("img-src"@, p.img_src@, nonce)
        + clause_text("manifest-src"@, p.manifest_src@, nonce)
        + clause_text("media-src"@, p.media_src@, nonce)
        + clause_text("object-src"@, p.object_src@, nonce)
        + clause_text("script-src"@, p.script_src@, nonce)
        + clause_text("script-src-elem"@, p.script_src_elem@, nonce)
        + clause_text("script-src-attr"@, p.script_src_attr@, nonce)
        + clause_text("style-src"@, p.style_src@, nonce)
        + clause_text("style-src-elem"@, p.style_src_elem@, nonce)
        + clause_text("style-src-attr"@, p.style_src_attr@, nonce)
        + clause_text("worker-src"@, p.worker_src@, nonce)
        + clause_text("base-uri"@, p.base_uri@, nonce)
        + clause_text("sandbox"@, p.sandbox@, nonce)
        + clause_text("form-action"@, p.form_action@, nonce)
        + clause_text("frame-ancestors"@, p.frame_ancestors@, nonce)
        + upgrade_text(p.upgrade_insecure_requests)
}

pub open spec fn upgrade_text(flag: bool) -> Seq<char> {
    if flag {
        "upgrade-insecure-requests;"@
    } else {
        Seq::empty()
    }
}

/// A policy whose directives are all empty and whose flag is clear.
pub open spec fn is_empty_policy(p: ContentSecurityPolicy) -> bool {
    p.default_src@.len() == 0
        && p.child_src@.len() == 0
        && p.connect_src@.len() == 0
        && p.font_src@.len() == 0
        && p.frame_src@.len() == 0
        && p.img_src@.len() == 0
        && p.manifest_src@.len() == 0
        && p.media_src@.len() == 0
        && p.object_src@.len() == 0
        && p.script_src@.len() == 0
        && p.script_src_elem@.len() == 0
        && p.script_src_attr@.len() == 0
        && p.style_src@.len() == 0
        && p.style_src_elem@.len() == 0
        && p.style_src_attr@.len() == 0
        && p.worker_src@.len() == 0
        && p.base_uri@.len() == 0
        && p.sandbox@.len() == 0
        && p.form_action@.len() == 0
        && p.frame_ancestors@.len() == 0
        && !p.upgrade_insecure_requests
}

impl ContentSecurityPolicy {
    /// A policy with every directive empty and the flag clear.
    pub fn new() -> (r: Self)
        ensures
            is_empty_policy(r),
    {
        ContentSecurityPolicy {
            default_src: Vec::new(),
            child_src: Vec::new(),
            connect_src: Vec::new(),
            font_src: Vec::new(),
            frame_src: Vec::new(),
            img_src: Vec::new(),
            manifest_src: Vec::new(),
            media_src: Vec::new(),
            object_src: Vec::new(),
            script_src: Vec::new(),
            script_src_elem: Vec::new(),
            script_src_attr: Vec::new(),
            style_src: Vec::new(),
            style_src_elem: Vec::new(),
            style_src_attr: Vec::new(),
            worker_src: Vec::new(),
            base_uri: Vec::new(),
            sandbox: Vec::new(),
            form_action: Vec::new(),
            frame_ancestors: Vec::new(),
            upgrade_insecure_requests: false,
        }
    }

    /// Sets or clears the `upgrade-insecure-requests` flag.
    pub fn upgrade_insecure_requests(self, doit: bool) -> (r: Self)
        ensures
            r == (ContentSecurityPolicy { upgrade_insecure_requests: doit, ..self }),
    {
        ContentSecurityPolicy { upgrade_insecure_requests: doit, ..self }
    }

    /// Serialises the policy with `nonce` standing for every nonce source.
    pub fn render(&self, nonce: &str) -> (r: String)
        ensures
            r@ == policy_text(*self, nonce@),
    {
        let mut output = String::new();
        serialize_header(&mut output, nonce, "default-src", self.default_src.as_slice());
        serialize_header(&mut output, nonce, "child-src", self.child_src.as_slice());
        serialize_header(&mut output, nonce, "connect-src", self.connect_src.as_slice());
        serialize_header(&mut output, nonce, "font-src", self.font_src.as_slice());
        serialize_header(&mut output, nonce, "frame-src", self.frame_src.as_slice());
        serialize_header(&mut output, nonce, "img-src", self.img_src.as_slice());
        serialize_header(&mut output, nonce, "manifest-src", self.manifest_src.as_slice());
        serialize_header(&mut output, nonce, "media-src", self.media_src.as_slice());
        serialize_header(&mut output, nonce, "object-src", self.object_src.as_slice());
        serialize_header(&mut output, nonce, "script-src", self.script_src.as_slice());
        serialize_header(&mut output, nonce, "script-src-elem", self.script_src_elem.as_slice());
        serialize_header(&mut output, nonce, "script-src-attr", self.script_src_attr.as_slice());
        serialize_header(&mut output, nonce, "style-src", self.style_src.as_slice());
        serialize_header(&mut output, nonce, "style-src-elem", self.style_src_elem.as_slice());
        serialize_header(&mut output, nonce, "style-src-attr", self.style_src_attr.as_slice());
        serialize_header(&mut output, nonce, "worker-src", self.worker_src.as_slice());
        serialize_header(&mut output, nonce, "base-uri", self.base_uri.as_slice());
        serialize_header(&mut output, nonce, "sandbox", self.sandbox.as_slice());
        serialize_header(&mut output, nonce, "form-action", self.form_action.as_slice());
        serialize_header(&mut output, nonce, "frame-ancestors", self.frame_ancestors.as_slice());
        if self.upgrade_insecure_requests {
            output.append("upgrade-insecure-requests;");
        }
        assert(output@ =~= policy_text(*self, nonce@));
        output
    }

    /// Replaces the `default-src` sources.
    pub fn default_src(self, new: Vec<CspSource>) -> (r: Self)
        ensures
            r == (ContentSecurityPolicy { default_src: new, ..self }),
    {
        ContentSecurityPolicy { default_src: new, ..self }
    }

    /// Empties the `default-src` sources, which leaves the directive out.
    pub fn remove_default_src(self) -> (r: Self)
        ensures
            r == (ContentSecurityPolicy { default_src: r.default_src, ..self }),
            r.default_src@.len() == 0,
    {
        ContentSecurityPolicy { default_src: Vec::new(), ..self }
    }

    /// Replaces the `child-src` sources.
    pub fn child_src(self, new: Vec<CspSource>) -> (r: Self)
        ensures
            r == (ContentSecurityPolicy { child_src: new, ..self }),
    {
        ContentSecurityPolicy { child_src: new, ..self }
    }

    /// Empties the `child-src` sources, which leaves the directive out.
    pub fn remove_child_src(self) -> (r: Self)
        ensures
            r == (ContentSecurityPolicy { child_src: r.child_src, ..self }),
            r.child_src@.len() == 0,
    {
        ContentSecurityPolicy { child_src: Vec::new(), ..self }
    }

    /// Replaces the `connect-src` sources.
    pub fn connect_src(self, new: Vec<CspSource>) -> (r: Self)
        ensures
            r == (ContentSecurityPolicy { connect_src: new, ..self }),
    {
        ContentSecurityPolicy { connect_src: new, ..self }
    }

    /// Empties the `connect-src` sources, which leaves the directive out.
    pub fn remove_connect_src(self) -> (r: Self)
        ensures
            r == (ContentSecurityPolicy { connect_src: r.connect_src, ..self }),
            r.connect_src@.len() == 0,
    {
        ContentSecurityPolicy { connect_src: Vec::new(), ..self }
    }

    /// Replaces the `font-src` sources.
    pub fn font_src(self, new: Vec<CspSource>) -> (r: Self)
        ensures
            r == (ContentSecurityPolicy { font_src: new, ..self }),
    {
        ContentSecurityPolicy { font_src: new, ..self }
    }

    /// Empties the `font-src` sources, which leaves the directive out.
    pub fn remove_font_src(self) -> (r: Self)
        ensures
            r == (ContentSecurityPolicy { font_src: r.font_src, ..self }),
            r.font_src@.len() == 0,
    {
        ContentSecurityPolicy { font_src: Vec::new(), ..self }
    }

    /// Replaces the `frame-src` sources.
    pub fn frame_src(self, new: Vec<CspSource>) -> (r: Self)
        ensures
            r == (ContentSecurityPolicy { frame_src: new, ..self }),
    {
        ContentSecurityPolicy { frame_src: new, ..self }
    }

    /// Empties the `frame-src` sources, which leaves the directive out.
    pub fn remove_frame_src(self) -> (r: Self)
        ensures
            r == (ContentSecurityPolicy { frame_src: r.frame_src, ..self }),
            r.frame_src@.len() == 0,
    {
        ContentSecurityPolicy { frame_src: Vec::new(), ..self }
    }

    /// Replaces the `img-src` sources.
    pub fn img_src(self, new: Vec<CspSource>) -> (r: Self)
        ensures
            r == (ContentSecurityPolicy { img_src: new, ..self }),
    {
        ContentSecurityPolicy { img_src: new, ..self }
    }

    /// Empties the `img-src` sources, which leaves the directive out.
    pub fn remove_img_src(self) -> (r: Self)
        ensures
            r == (ContentSecurityPolicy { img_src: r.img_src, ..self }),
            r.img_src@.len() == 0,
    {
        ContentSecurityPolicy { img_src: Vec::new(), ..self }
    }

    /// Replaces the `manifest-src` sources.
    pub fn manifest_src(self, new: Vec<CspSource>) -> (r: Self)
        ensures
            r == (ContentSecurityPolicy { manifest_src: new, ..self }),
    {
        ContentSecurityPolicy { manifest_src: new, ..self }
    }

    /// Empties the `manifest-src` sources, which leaves the directive out.
    pub fn remove_manifest_src(self) -> (r: Self)
        ensures
            r == (ContentSecurityPolicy { manifest_src: r.manifest_src, ..self }),
            r.manifest_src@.len() == 0,
    {
        ContentSecurityPolicy { manifest_src: Vec::new(), ..self }
    }

    /// Replaces the `media-src` sources.
    pub fn media_src(self, new: Vec<CspSource>) -> (r: Self)
        ensures
            r == (ContentSecurityPolicy { media_src: new, ..self }),
    {
        ContentSecurityPolicy { media_src: new, ..self }
    }

    /// Empties the `media-src` sources, which leaves the directive out.
    pub fn remove_media_src(self) -> (r: Self)
        ensures
            r == (ContentSecurityPolicy { media_src: r.media_src, ..self }),
            r.media_src@.len() == 0,
    {
        ContentSecurityPolicy { media_src: Vec::new(), ..self }
    }

    /// Replaces the `object-src` sources.
    pub fn object_src(self, new: Vec<CspSource>) -> (r: Self)
        ensures
            r == (ContentSecurityPolicy { object_src: new, ..self }),
    {
        ContentSecurityPolicy { object_src: new, ..self }
    }

    /// Empties the `object-src` sources, which leaves the directive out.
    pub fn remove_object_src(self) -> (r: Self)
        ensures
            r == (ContentSecurityPolicy { object_src: r.object_src, ..self }),
            r.object_src@.len() == 0,
    {
        ContentSecurityPolicy { object_src: Vec::new(), ..self }
    }

    /// Replaces the `script-src` sources.
    pub fn script_src(self, new: Vec<CspSource>) -> (r: Self)
        ensures
            r == (ContentSecurityPolicy { script_src: new, ..self }),
    {
        ContentSecurityPolicy { script_src: new, ..self }
    }

    /// Empties the `script-src` sources, which leaves the directive out.
    pub fn remove_script_src(self) -> (r: Self)
        ensures
            r == (ContentSecurityPolicy { script_src: r.script_src, ..self }),
            r.script_src@.len() == 0,
    {
        ContentSecurityPolicy { script_src: Vec::new(), ..self }
    }

    /// Replaces the `script-src-elem` sources.
    pub fn script_src_elem(self, new: Vec<CspSource>) -> (r: Self)
        ensures
            r == (ContentSecurityPolicy { script_src_elem: new, ..self }),
    {
        ContentSecurityPolicy { script_src_elem: new, ..self }
    }

    /// Empties the `script-src-elem` sources, which leaves the directive out.
    pub fn remove_script_src_elem(self) -> (r: Self)
        ensures
            r == (ContentSecurityPolicy { script_src_elem: r.script_src_elem, ..self }),
            r.script_src_elem@.len() == 0,
    {
        ContentSecurityPolicy { script_src_elem: Vec::new(), ..self }
    }

    /// Replaces the `script-src-attr` sources.
    pub fn script_src_attr(self, new: Vec<CspSource>) -> (r: Self)
        ensures
            r == (ContentSecurityPolicy { script_src_attr: new, ..self }),
    {
        ContentSecurityPolicy { script_src_attr: new, ..self }
    }

    /// Empties the `script-src-attr` sources, which leaves the directive out.
    pub fn remove_script_src_attr(self) -> (r: Self)
        ensures
            r == (ContentSecurityPolicy { script_src_attr: r.script_src_attr, ..self }),
            r.script_src_attr@.len() == 0,
    {
        ContentSecurityPolicy { script_src_attr: Vec::new(), ..self }
    }

    /// Replaces the `style-src` sources.
    pub fn style_src(self, new: Vec<CspSource>) -> (r: Self)
        ensures
            r == (ContentSecurityPolicy { style_src: new, ..self }),
    {
        ContentSecurityPolicy { style_src: new, ..self }
    }

    /// Empties the `style-src` sources, which leaves the directive out.
    pub fn remove_style_src(self) -> (r: Self)
        ensures
            r == (ContentSecurityPolicy { style_src: r.style_src, ..self }),
            r.style_src@.len() == 0,
    {
        ContentSecurityPolicy { style_src: Vec::new(), ..self }
    }

    /// Replaces the `style-src-elem` sources.
    pub fn style_src_elem(self, new: Vec<CspSource>) -> (r: Self)
        ensures
            r == (ContentSecurityPolicy { style_src_elem: new, ..self }),
    {
        ContentSecurityPolicy { style_src_elem: new, ..self }
    }

    /// Empties the `style-src-elem` sources, which leaves the directive out.
    pub fn remove_style_src_elem(self) -> (r: Self)
        ensures
            r == (ContentSecurityPolicy { style_src_elem: r.style_src_elem, ..self }),
            r.style_src_elem@.len() == 0,
    {
        ContentSecurityPolicy { style_src_elem: Vec::new(), ..self }
    }

    /// Replaces the `style-src-attr` sources.
    pub fn style_src_attr(self, new: Vec<CspSource>) -> (r: Self)
        ensures
            r == (ContentSecurityPolicy { style_src_attr: new, ..self }),
    {
        ContentSecurityPolicy { style_src_attr: new, ..self }
    }

    /// Empties the `style-src-attr` sources, which leaves the directive out.
    pub fn remove_style_src_attr(self) -> (r: Self)
        ensures
            r == (ContentSecurityPolicy { style_src_attr: r.style_src_attr, ..self }),
            r.style_src_attr@.len() == 0,
    {
        ContentSecurityPolicy { style_src_attr: Vec::new(), ..self }
    }

    /// Replaces the `worker-src` sources.
    pub fn worker_src(self, new: Vec<CspSource>) -> (r: Self)
        ensures
            r == (ContentSecurityPolicy { worker_src: new, ..self }),
    {
        ContentSecurityPolicy { worker_src: new, ..self }
    }

    /// Empties the `worker-src` sources, which leaves the directive out.
    pub fn remove_worker_src(self) -> (r: Self)
        ensures
            r == (ContentSecurityPolicy { worker_src: r.worker_src, ..self }),
            r.worker_src@.len() == 0,
    {
        ContentSecurityPolicy { worker_src: Vec::new(), ..self }
    }

    /// Replaces the `base-uri` sources.
    pub fn base_uri(self, new: Vec<CspSource>) -> (r: Self)
        ensures
            r == (ContentSecurityPolicy { base_uri: new, ..self }),
    {
        ContentSecurityPolicy { base_uri: new, ..self }
    }

    /// Empties the `base-uri` sources, which leaves the directive out.
    pub fn remove_base_uri(self) -> (r: Self)
        ensures
            r == (ContentSecurityPolicy { base_uri: r.base_uri, ..self }),
            r.base_uri@.len() == 0,
    {
        ContentSecurityPolicy { base_uri: Vec::new(), ..self }
    }

    /// Replaces the `sandbox` sources.
    pub fn sandbox(self, new: Vec<CspSource>) -> (r: Self)
        ensures
            r == (ContentSecurityPolicy { sandbox: new, ..self }),
    {
        ContentSecurityPolicy { sandbox: new, ..self }
    }

    /// Empties the `sandbox` sources, which leaves the directive out.
    pub fn remove_sandbox(self) -> (r: Self)
        ensures
            r == (ContentSecurityPolicy { sandbox: r.sandbox, ..self }),
            r.sandbox@.len() == 0,
    {
        ContentSecurityPolicy { sandbox: Vec::new(), ..self }
    }

    /// Replaces the `form-action` sources.
    pub fn form_action(self, new: Vec<CspSource>) -> (r: Self)
        ensures
            r == (ContentSecurityPolicy { form_action: new, ..self }),
    {
        ContentSecurityPolicy { form_action: new, ..self }
    }

    /// Empties the `form-action` sources, which leaves the directive out.
    pub fn remove_form_action(self) -> (r: Self)
        ensures
            r == (ContentSecurityPolicy { form_action: r.form_action, ..self }),
            r.form_action@.len() == 0,
    {
        ContentSecurityPolicy { form_action: Vec::new(), ..self }
    }

    /// Replaces the `frame-ancestors` sources.
    pub fn frame_ancestors(self, new: Vec<CspSource>) -> (r: Self)
        ensures
            r == (ContentSecurityPolicy { frame_ancestors: new, ..self }),
    {
        ContentSecurityPolicy { frame_ancestors: new, ..self }
    }

    /// Empties the `frame-ancestors` sources, which leaves the directive out.
    pub fn remove_frame_ancestors(self) -> (r: Self)
        ensures
            r == (ContentSecurityPolicy { frame_ancestors: r.frame_ancestors, ..self }),
            r.frame_ancestors@.len() == 0,
    {
        ContentSecurityPolicy { frame_ancestors: Vec::new(), ..self }
    }

}


/// The opinionated secure default policy.
pub open spec fn is_strict_default(p: ContentSecurityPolicy) -> bool {
    &&& p.default_src@ == seq![CspSource::SelfOrigin]
    &&& p.child_src@.len() == 0
    &&& p.connect_src@.len() == 0
    &&& p.font_src@ == seq![
        CspSource::SelfOrigin,
        CspSource::Scheme(CspSchemeSource::Https),
        CspSource::Scheme(CspSchemeSource::Data),
    ]
    &&& p.frame_src@.len() == 0
    &&& p.img_src@ == seq![CspSource::SelfOrigin, CspSource::Scheme(CspSchemeSource::Data)]
    &&& p.manifest_src@.len() == 0
    &&& p.media_src@.len() == 0
    &&& p.object_src@ == seq![CspSource::NoneSource]
    &&& p.script_src@ == seq![CspSource::SelfOrigin]
    &&& p.script_src_elem@.len() == 0
    &&& p.script_src_attr@ == seq![CspSource::NoneSource]
    &&& p.style_src@ == seq![
        CspSource::SelfOrigin,
        CspSource::Scheme(CspSchemeSource::Https),
        CspSource::UnsafeInline,
    ]
    &&& p.style_src_elem@.len() == 0
    &&& p.style_src_attr@.len() == 0
    &&& p.worker_src@.len() == 0
    &&& p.base_uri@ == seq![CspSource::SelfOrigin]
    &&& p.sandbox@.len() == 0
    &&& p.form_action@ == seq![CspSource::SelfOrigin]
    &&& p.frame_ancestors@ == seq![CspSource::SelfOrigin]
    &&& p.upgrade_insecure_requests
}

impl ContentSecurityPolicy {
    /// A restrictive policy: own origin only for most content, no plugins,
    /// no inline script attributes, and insecure requests upgraded.
    pub fn strict_default() -> (r: Self)
        ensures
            is_strict_default(r),
    {
        let base = ContentSecurityPolicy::new();
        let r = ContentSecurityPolicy {
            default_src: vec![CspSource::SelfOrigin],
            base_uri: vec![CspSource::SelfOrigin],
            font_src: vec![
                CspSource::SelfOrigin,
                CspSource::Scheme(CspSchemeSource::Https),
                CspSource::Scheme(CspSchemeSource::Data),
            ],
            form_action: vec![CspSource::SelfOrigin],
            frame_ancestors: vec![CspSource::SelfOrigin],
            img_src: vec![CspSource::SelfOrigin, CspSource::Scheme(CspSchemeSource::Data)],
            object_src: vec![CspSource::NoneSource],
            script_src: vec![CspSource::SelfOrigin],
            script_src_attr: vec![CspSource::NoneSource],
            style_src: vec![
                CspSource::SelfOrigin,
                CspSource::Scheme(CspSchemeSource::Https),
                CspSource::UnsafeInline,
            ],
            upgrade_insecure_requests: true,
            ..base
        };
        assert(r.font_src@ =~= seq![
            CspSource::SelfOrigin,
            CspSource::Scheme(CspSchemeSource::Https),
            CspSource::Scheme(CspSchemeSource::Data),
        ]);
        assert(r.style_src@ =~= seq![
            CspSource::SelfOrigin,
            CspSource::Scheme(CspSchemeSource::Https),
            CspSource::UnsafeInline,
        ]);
        assert(r.img_src@ =~= seq![CspSource::SelfOrigin, CspSource::Scheme(CspSchemeSource::Data)]);
        assert(r.default_src@ =~= seq![CspSource::SelfOrigin]);
        assert(r.base_uri@ =~= seq![CspSource::SelfOrigin]);
        assert(r.form_action@ =~= seq![CspSource::SelfOrigin]);
        assert(r.frame_ancestors@ =~= seq![CspSource::SelfOrigin]);
        assert(r.script_src@ =~= seq![CspSource::SelfOrigin]);
        assert(r.object_src@ =~= seq![CspSource::NoneSource]);
        assert(r.script_src_attr@ =~= seq![CspSource::NoneSource]);
        r
    }
}


impl ContentSecurityPolicy {
    /// The header value of this policy for one request's nonce. It fails only
    /// when a host or hash text holds a byte that a header value cannot hold.
    pub fn value(&self, nonce: &str) -> (r: Result<http::HeaderValue, http::header::InvalidHeaderValue>)
        ensures
            r.is_ok() <==> header_text_ok(policy_text(*self, nonce@)),
            r.is_ok() ==> r.unwrap() == header_value_of(policy_text(*self, nonce@)),
    {
        let text = self.render(nonce);
        header_value_from_str(text.as_str())
    }
}


/// `needle` occurs somewhere in `hay`.
pub open spec fn contains_text(hay: Seq<char>, needle: Seq<char>) -> bool {
    exists|i: int|
        0 <= i && i + needle.len() <= hay.len() && #[trigger] hay.subrange(i, i + needle.len())
            == needle
}

/// `hay` ends with `suffix`.
pub open spec fn ends_with_text(hay: Seq<char>, suffix: Seq<char>) -> bool {
    suffix.len() <= hay.len() && hay.subrange(hay.len() - suffix.len(), hay.len() as int) == suffix
}

/// Rendering depends on nothing but the policy and the nonce: equal policies
/// rendered with equal nonces give the same text and the same header value.
pub proof fn lemma_render_deterministic(
    p: ContentSecurityPolicy,
    q: ContentSecurityPolicy,
    nonce: Seq<char>,
    other_nonce: Seq<char>,
)
    requires
        p == q,
        nonce == other_nonce,
    ensures
        policy_text(p, nonce) == policy_text(q, other_nonce),
        header_value_of(policy_text(p, nonce)) == header_value_of(policy_text(q, other_nonce)),
{
}

/// A policy with no sources and the flag clear renders to the empty text.
pub proof fn lemma_empty_policy_renders_empty(p: ContentSecurityPolicy, nonce: Seq<char>)
    requires
        is_empty_policy(p),
    ensures
        policy_text(p, nonce) == Seq::<char>::empty(),
{
    assert(policy_text(p, nonce) =~= Seq::<char>::empty());
}

/// A directive with the single source `src` renders as `name src;`.
pub proof fn lemma_single_source_clause(name: Seq<char>, srcs: Seq<CspSource>, nonce: Seq<char>)
    requires
        srcs.len() == 1,
    ensures
        clause_text(name, srcs, nonce) == name + " "@ + source_text(srcs[0], nonce) + ";"@,
{
    assert(srcs.drop_last() =~= Seq::<CspSource>::empty());
    assert(sources_text(srcs.drop_last(), nonce) =~= Seq::<char>::empty());
    assert(clause_text(name, srcs, nonce) =~= name + " "@ + source_text(srcs[0], nonce) + ";"@);
}

/// The strict default policy, whatever the nonce, starts with the clause
/// `default-src 'self';`, holds the clause `base-uri 'self';`, and ends with
/// `upgrade-insecure-requests;`.
pub proof fn lemma_strict_default_clauses(p: ContentSecurityPolicy, nonce: Seq<char>)
    requires
        is_strict_default(p),
    ensures
        policy_text(p, nonce).subrange(0, "default-src 'self';"@.len() as int)
            == "default-src 'self';"@,
        contains_text(policy_text(p, nonce), "default-src 'self';"@),
        contains_text(policy_text(p, nonce), "base-uri 'self';"@),
        ends_with_text(policy_text(p, nonce), "upgrade-insecure-requests;"@),
{
    let t = policy_text(p, nonce);
    let d = clause_text("default-src"@, p.default_src@, nonce);
    lemma_single_source_clause("default-src"@, p.default_src@, nonce);
    lemma_single_source_clause("base-uri"@, p.base_uri@, nonce);
    reveal_strlit("default-src");
    reveal_strlit("base-uri");
    reveal_strlit("'self'");
    reveal_strlit(" ");
    reveal_strlit(";");
    reveal_strlit("default-src 'self';");
    reveal_strlit("base-uri 'self';");
    assert(d =~= "default-src 'self';"@);
    let b = clause_text("base-uri"@, p.base_uri@, nonce);
    assert(b =~= "base-uri 'self';"@);
    let pre = clause_text("default-src"@, p.default_src@, nonce)
        + clause_text("child-src"@, p.child_src@, nonce)
        + clause_text("connect-src"@, p.connect_src@, nonce)
        + clause_text("font-src"@, p.font_src@, nonce)
        + clause_text("frame-src"@, p.frame_src@, nonce)
        + clause_text("img-src"@, p.img_src@, nonce)
        + clause_text("manifest-src"@, p.manifest_src@, nonce)
        + clause_text("media-src"@, p.media_src@, nonce)
        + clause_text("object-src"@, p.object_src@, nonce)
        + clause_text("script-src"@, p.script_src@, nonce)
        + clause_text("script-src-elem"@, p.script_src_elem@, nonce)
        + clause_text("script-src-attr"@, p.script_src_attr@, nonce)
        + clause_text("style-src"@, p.style_src@, nonce)
        + clause_text("style-src-elem"@, p.style_src_elem@, nonce)
        + clause_text("style-src-attr"@, p.style_src_attr@, nonce)
        + clause_text("worker-src"@, p.worker_src@, nonce);
    let rest = clause_text("sandbox"@, p.sandbox@, nonce)
        + clause_text("form-action"@, p.form_action@, nonce)
        + clause_text("frame-ancestors"@, p.frame_ancestors@, nonce)
        + upgrade_text(p.upgrade_insecure_requests);
    assert(t =~= pre + b + rest);
    assert(t.subrange(0, d.len() as int) =~= d);
    assert(t.subrange(pre.len() as int, (pre.len() + b.len()) as int) =~= b);
    assert(t.subrange(0, 0 + "default-src 'self';"@.len() as int) == "default-src 'self';"@);
    let i = pre.len() as int;
    assert(t.subrange(i, i + "base-uri 'self';"@.len() as int) == "base-uri 'self';"@);
    assert(t.subrange(t.len() - "upgrade-insecure-requests;"@.len(), t.len() as int)
        =~= "upgrade-insecure-requests;"@);
}


/// The clause that a `script-src` made of the nonce alone renders to.
pub open spec fn nonce_script_clause(nonce: Seq<char>) -> Seq<char> {
    "script-src 'nonce-"@ + nonce + "';"@
}

/// A policy whose only directive is `script-src` with the nonce alone.
pub open spec fn is_nonce_script_policy(p: ContentSecurityPolicy) -> bool {
    &&& p.script_src@ == seq![CspSource::Nonce]
    &&& p.default_src@.len() == 0
    &&& p.child_src@.len() == 0
    &&& p.connect_src@.len() == 0
    &&& p.font_src@.len() == 0
    &&& p.frame_src@.len() == 0
    &&& p.img_src@.len() == 0
    &&& p.manifest_src@.len() == 0
    &&& p.media_src@.len() == 0
    &&& p.object_src@.len() == 0
    &&& p.script_src_elem@.len() == 0
    &&& p.script_src_attr@.len() == 0
    &&& p.style_src@.len() == 0
    &&& p.style_src_elem@.len() == 0
    &&& p.style_src_attr@.len() == 0
    &&& p.worker_src@.len() == 0
    &&& p.base_uri@.len() == 0
    &&& p.sandbox@.len() == 0
    &&& p.form_action@.len() == 0
    &&& p.frame_ancestors@.len() == 0
    &&& !p.upgrade_insecure_requests
}

/// A slice that lies within the first part of a concatenation.
pub proof fn lemma_prefix_subrange(a: Seq<char>, b: Seq<char>, i: int, j: int)
    requires
        0 <= i <= j <= a.len(),
    ensures
        (a + b).subrange(i, j) == a.subrange(i, j),
{
    assert((a + b).subrange(i, j) =~= a.subrange(i, j));
}

/// A policy whose `script-src` is the nonce alone carries the clause
/// `script-src 'nonce-<nonce>';`, whatever its other directives hold.
pub proof fn lemma_nonce_script_clause(p: ContentSecurityPolicy, nonce: Seq<char>)
    requires
        p.script_src@ == seq![CspSource::Nonce],
    ensures
        contains_text(policy_text(p, nonce), nonce_script_clause(nonce)),
{
    lemma_single_source_clause("script-src"@, p.script_src@, nonce);
    reveal_strlit("script-src");
    reveal_strlit(" ");
    reveal_strlit("'nonce-");
    reveal_strlit("'");
    reveal_strlit(";");
    reveal_strlit("script-src 'nonce-");
    reveal_strlit("';");
    let c = clause_text("script-src"@, p.script_src@, nonce);
    assert(c =~= nonce_script_clause(nonce));
    let t = policy_text(p, nonce);
    let pre = clause_text("default-src"@, p.default_src@, nonce)
        + clause_text("child-src"@, p.child_src@, nonce)
        + clause_text("connect-src"@, p.connect_src@, nonce)
        + clause_text("font-src"@, p.font_src@, nonce)
        + clause_text("frame-src"@, p.frame_src@, nonce)
        + clause_text("img-src"@, p.img_src@, nonce)
        + clause_text("manifest-src"@, p.manifest_src@, nonce)
        + clause_text("media-src"@, p.media_src@, nonce)
        + clause_text("object-src"@, p.object_src@, nonce);
    let i = pre.len() as int;
    let j = i + c.len();
    let t9 = pre + c;
    assert(t9.subrange(i, j) =~= c);
    let t10 = t9 + clause_text("script-src-elem"@, p.script_src_elem@, nonce);
    lemma_prefix_subrange(t9, clause_text("script-src-elem"@, p.script_src_elem@, nonce), i, j);
    let t11 = t10 + clause_text("script-src-attr"@, p.script_src_attr@, nonce);
    lemma_prefix_subrange(t10, clause_text("script-src-attr"@, p.script_src_attr@, nonce), i, j);
    let t12 = t11 + clause_text("style-src"@, p.style_src@, nonce);
    lemma_prefix_subrange(t11, clause_text("style-src"@, p.style_src@, nonce), i, j);
    let t13 = t12 + clause_text("style-src-elem"@, p.style_src_elem@, nonce);
    lemma_prefix_subrange(t12, clause_text("style-src-elem"@, p.style_src_elem@, nonce), i, j);
    let t14 = t13 + clause_text("style-src-attr"@, p.style_src_attr@, nonce);
    lemma_prefix_subrange(t13, clause_text("style-src-attr"@, p.style_src_attr@, nonce), i, j);
    let t15 = t14 + clause_text("worker-src"@, p.worker_src@, nonce);
    lemma_prefix_subrange(t14, clause_text("worker-src"@, p.worker_src@, nonce), i, j);
    let t16 = t15 + clause_text("base-uri"@, p.base_uri@, nonce);
    lemma_prefix_subrange(t15, clause_text("base-uri"@, p.base_uri@, nonce), i, j);
    let t17 = t16 + clause_text("sandbox"@, p.sandbox@, nonce);
    lemma_prefix_subrange(t16, clause_text("sandbox"@, p.sandbox@, nonce), i, j);
    let t18 = t17 + clause_text("form-action"@, p.form_action@, nonce);
    lemma_prefix_subrange(t17, clause_text("form-action"@, p.form_action@, nonce), i, j);
    let t19 = t18 + clause_text("frame-ancestors"@, p.frame_ancestors@, nonce);
    lemma_prefix_subrange(t18, clause_text("frame-ancestors"@, p.frame_ancestors@, nonce), i, j);
    lemma_prefix_subrange(t19, upgrade_text(p.upgrade_insecure_requests), i, j);
    assert(t == t19 + upgrade_text(p.upgrade_insecure_requests));
    assert(t.subrange(i, i + nonce_script_clause(nonce).len()) == nonce_script_clause(nonce));
}

/// A policy made of the nonce `script-src` alone renders to exactly that
/// clause, and the text between its fixed prefix and suffix is the nonce.
pub proof fn lemma_nonce_script_round_trip(p: ContentSecurityPolicy, nonce: Seq<char>)
    requires
        is_nonce_script_policy(p),
    ensures
        policy_text(p, nonce) == nonce_script_clause(nonce),
        policy_text(p, nonce).subrange(
            "script-src 'nonce-"@.len() as int,
            policy_text(p, nonce).len() - "';"@.len(),
        ) == nonce,
{
    lemma_single_source_clause("script-src"@, p.script_src@, nonce);
    reveal_strlit("script-src");
    reveal_strlit(" ");
    reveal_strlit("'nonce-");
    reveal_strlit("'");
    reveal_strlit(";");
    reveal_strlit("script-src 'nonce-");
    reveal_strlit("';");
    assert(policy_text(p, nonce) =~= nonce_script_clause(nonce));
    let t = policy_text(p, nonce);
    assert(t.subrange("script-src 'nonce-"@.len() as int, t.len() - "';"@.len()) =~= nonce);
}

} // verus!
