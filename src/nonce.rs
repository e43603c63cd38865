//! The per-request nonce: how it is drawn, stored in a request's extensions
//! and read back by handlers.

use vstd::prelude::*;

verus! {

/// The length of the nonce drawn for each request.
pub const NONCE_LENGTH: usize = 32;

/// The nonce of the request being handled.
#[derive(Clone, Debug)]
pub struct CspNonce(pub String);

/// A handler asked for the nonce, but no nonce was stored in the request:
/// the middleware is not installed in front of it.
#[derive(Debug)]
pub struct NonceNotFoundError;

impl NonceNotFoundError {
    pub open spec fn spec_message() -> Seq<char> {
        "Nonce not found in extensions!"@
    }

    /// The error's description.
    pub fn message(&self) -> (r: &'static str)
        ensures
            r@ == Self::spec_message(),
    {
        "Nonce not found in extensions!"
    }
}

impl CspNonce {
    /// The nonce's text.
    pub fn as_str(&self) -> (r: &str)
        ensures
            r@ == self.0@,
    {
        self.0.as_str()
    }
}

/// A letter of either case or a decimal digit.
pub open spec fn is_alphanumeric(c: char) -> bool {
    ('A' <= c && c <= 'Z') || ('a' <= c && c <= 'z') || ('0' <= c && c <= '9')
}

/// Relies on `rand`'s `Alphanumeric` distribution drawn from `thread_rng`: it
/// returns one of the 62 ASCII letters and digits.
#[verifier::external_body]
fn draw_alphanumeric() -> (r: u8)
    ensures
        is_alphanumeric(r as char),
{
    rand::Rng::sample(&mut rand::thread_rng(), rand::distributions::Alphanumeric)
}

/// Relies on `String::push`, which appends one character.
#[verifier::external_body]
fn push_char(s: &mut String, c: char)
    ensures
        final(s)@ == old(s)@.push(c),
{
    s.push(c);
}

/// A fresh random text of `length` letters and digits.
pub fn random_string(length: usize) -> (r: String)
    ensures
        r@.len() == length,
        forall|i: int| 0 <= i < r@.len() ==> is_alphanumeric(#[trigger] r@[i]),
{
    let mut out = String::new();
    let mut i: usize = 0;
    while i < length
        invariant
            i <= length,
            out@.len() == i,
            forall|k: int| 0 <= k < out@.len() ==> is_alphanumeric(#[trigger] out@[k]),
        decreases length - i,
    {
        let b = draw_alphanumeric();
        let c = b as char;
        push_char(&mut out, c);
        i = i + 1;
    }
    out
}

#[verifier::external_type_specification]
#[verifier::external_body]
pub struct ExExtensions(http::Extensions);

/// The nonces that a request's extensions hold: none, or the one stored.
pub uninterp spec fn stored_nonces(e: http::Extensions) -> Seq<Seq<char>>;

/// Relies on `http::Extensions::insert`, which replaces any value of the
/// same type.
#[verifier::external_body]
fn insert_nonce(e: &mut http::Extensions, nonce: CspNonce)
    ensures
        stored_nonces(*final(e)) == seq![nonce.0@],
{
    e.insert(nonce);
}

/// Relies on `http::Extensions::get`, which returns the value of that type
/// if one was stored.
#[verifier::external_body]
fn get_nonce(e: &http::Extensions) -> (r: Option<CspNonce>)
    ensures
        r.is_none() <==> stored_nonces(*e).len() == 0,
        r.is_some() ==> r.unwrap().0@ == stored_nonces(*e)[0],
{
    e.get::<CspNonce>().cloned()
}

/// Stores `nonce` in a request's extensions, where handlers find it.
pub fn store_nonce(e: &mut http::Extensions, nonce: &String)
    ensures
        stored_nonces(*final(e)) == seq![nonce@],
{
    insert_nonce(e, CspNonce(nonce.clone()));
}

impl CspNonce {
    /// The nonce stored in a request's extensions, or the error that says
    /// the middleware did not run.
    pub fn from_extensions(e: &http::Extensions) -> (r: Result<CspNonce, NonceNotFoundError>)
        ensures
            r.is_err() <==> stored_nonces(*e).len() == 0,
            r.is_ok() ==> r.unwrap().0@ == stored_nonces(*e)[0],
    {
        match get_nonce(e) {
            Some(n) => Ok(n),
            None => Err(NonceNotFoundError),
        }
    }
}

} // verus!
