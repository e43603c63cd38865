//! The `http` crate's header types, as the library uses them.

use vstd::prelude::*;

verus! {

#[verifier::external_type_specification]
#[verifier::external_body]
pub struct ExHeaderValue(http::HeaderValue);

#[verifier::external_type_specification]
#[verifier::external_body]
pub struct ExInvalidHeaderValue(http::header::InvalidHeaderValue);

/// A character that may stand in a header value: a tab, or any character
/// from the space on except DEL. Characters beyond ASCII are encoded as
/// bytes of 0x80 and above, which are all accepted.
pub open spec fn header_char_ok(c: char) -> bool {
    c == '\t' || (c as u32 >= 32 && c as u32 != 127)
}

/// Text that `http` accepts as a header value.
#[verifier::opaque]
pub open spec fn header_text_ok(s: Seq<char>) -> bool {
    forall|i: int| 0 <= i < s.len() ==> header_char_ok(#[trigger] s[i])
}

/// The header value that holds exactly the bytes of `s`.
pub uninterp spec fn header_value_of(s: Seq<char>) -> http::HeaderValue;

/// Relies on `http::HeaderValue::from_str`: it copies the bytes of `s` and
/// fails exactly when one of them is below 32 (other than a tab) or is 127.
#[verifier::external_body]
pub(crate) fn header_value_from_str(s: &str) -> (r: Result<http::HeaderValue, http::header::InvalidHeaderValue>)
    ensures
        r.is_ok() <==> header_text_ok(s@),
        r.is_ok() ==> r.unwrap() == header_value_of(s@),
{
    http::HeaderValue::from_str(s)
}


#[verifier::external_type_specification]
#[verifier::external_body]
#[verifier::reject_recursive_types(T)]
pub struct ExHeaderMap<T>(http::HeaderMap<T>);

/// What a header map holds: for each header name present, its values in order.
pub uninterp spec fn header_entries(m: http::HeaderMap) -> Map<Seq<char>, Seq<http::HeaderValue>>;

/// A header name made of lower-case letters and dashes, which `http` takes
/// as it stands.
#[verifier::opaque]
pub open spec fn header_name_ok(s: Seq<char>) -> bool {
    &&& 0 < s.len() <= 64
    &&& forall|i: int| 0 <= i < s.len() ==> ('a' <= #[trigger] s[i] && s[i] <= 'z') || s[i] == '-'
}

/// A map small enough that an insertion cannot exceed its capacity bound.
pub open spec fn header_map_has_room(m: http::HeaderMap) -> bool {
    header_entries(m).dom().finite() && header_entries(m).dom().len() < 4096
}

/// Relies on `http::HeaderName::from_static`, which accepts a lower-case
/// name, and on `http::HeaderMap::insert`, which drops every value held
/// under that name and stores the given one. `insert` panics only when the
/// map would outgrow its limit of 2^15 slots, far above 4096 names.
#[verifier::external_body]
pub(crate) fn insert_header(m: &mut http::HeaderMap, name: &'static str, value: http::HeaderValue)
    requires
        header_name_ok(name@),
        header_map_has_room(*old(m)),
    ensures
        header_entries(*final(m)) == header_entries(*old(m)).insert(name@, seq![value]),
{
    m.insert(http::HeaderName::from_static(name), value);
}

} // verus!
