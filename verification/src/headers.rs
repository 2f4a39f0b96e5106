//! The headers of a request, as the HTTP library holds them. Nothing in this
//! file is proved: it says what the library is taken to do.

use axum::http::HeaderMap;
use vstd::prelude::*;

verus! {

/// `http::HeaderMap`, the HTTP library's collection of a request's headers.
/// Its inside is not looked at; what it holds is spoken of through
/// [`first_value`].
#[verifier::external_type_specification]
#[verifier::external_body]
#[verifier::reject_recursive_types(T)]
pub struct ExHeaderMap<T>(axum::http::HeaderMap<T>);

/// `http::HeaderValue`, the bytes of one header as the HTTP library holds
/// them.
#[verifier::external_type_specification]
#[verifier::external_body]
pub struct ExHeaderValue(axum::http::HeaderValue);

/// What `HeaderMap::get` finds in `headers` under `name`, as bytes: the first
/// value held under that header name, or `None` where there is none. How the
/// library matches names (it ignores their case) is its own affair and is not
/// restated here.
pub uninterp spec fn first_value(headers: HeaderMap, name: Seq<char>) -> Option<Seq<u8>>;

/// The bytes of an optional byte string.
pub open spec fn bytes_of(value: Option<Vec<u8>>) -> Option<Seq<u8>> {
    match value {
        Some(bytes) => Some(bytes@),
        None => None,
    }
}

/// Calls `HeaderMap::get` with `name` and copies the bytes of the value it
/// returns (`HeaderValue::as_bytes`). The contract claims only that the
/// result depends on nothing but the headers and the name: it is
/// `first_value` of the two.
#[verifier::external_body]
pub(crate) fn lookup(headers: &HeaderMap, name: &str) -> (value: Option<Vec<u8>>)
    ensures
        bytes_of(value) == first_value(*headers, name@),
{
    headers.get(name).map(|found| found.as_bytes().to_vec())
}

} // verus!
