//! Security headers for HTTP services, with a Content-Security-Policy model
//! whose serialisation is proved against a specification of the header text,
//! and a nonce drawn afresh for each request.

pub mod csp;
pub mod headers;
pub mod nonce;
pub mod policy;
pub mod sombrero;
pub mod sts;
pub mod wire;

pub use crate::nonce::{random_string, CspNonce, NonceNotFoundError};
pub use crate::policy::{ContentSecurityPolicy, CspHashAlgorithm, CspSchemeSource, CspSource};
pub use crate::sombrero::{RequestHeaders, Sombrero, SombreroService};
pub use crate::sts::StrictTransportSecurity;

use vstd::prelude::*;

verus! {

/// The library's errors.
#[derive(Debug)]
pub enum Error {
    /// A handler asked for the nonce, but the middleware did not run.
    NonceMiddlewareNotEnabled(NonceNotFoundError),
}

impl Error {
    pub open spec fn spec_message(&self) -> Seq<char> {
        "`Sombrero` middleware (required for `CspNonce` extractor) not enabled!"@
    }

    /// The error's description.
    pub fn message(&self) -> (r: &'static str)
        ensures
            r@ == self.spec_message(),
    {
        "`Sombrero` middleware (required for `CspNonce` extractor) not enabled!"
    }
}

impl From<NonceNotFoundError> for Error {
    fn from(e: NonceNotFoundError) -> (r: Error)
        ensures
            r == Error::NonceMiddlewareNotEnabled(e),
    {
        Error::NonceMiddlewareNotEnabled(e)
    }
}

impl vstd::std_specs::convert::FromSpecImpl<NonceNotFoundError> for Error {
    open spec fn obeys_from_spec() -> bool {
        true
    }

    open spec fn from_spec(v: NonceNotFoundError) -> Error {
        Error::NonceMiddlewareNotEnabled(v)
    }
}

} // verus!
