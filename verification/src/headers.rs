//! What the service reads from the headers of a request.

use vstd::prelude::*;

use crate::bookings_contract::LifecycleError;
use crate::replies::{lifecycle_error, refusal, ApiError};
use crate::text;

verus! {

/// The header map of `http`, as `axum` hands it to the service.
#[verifier::external_type_specification]
#[verifier::external_body]
#[verifier::reject_recursive_types(T)]
pub struct ExHeaderMap<T>(axum::http::HeaderMap<T>);

/// The value of a header in a map of `http`.
#[verifier::external_type_specification]
#[verifier::external_body]
pub struct ExHeaderValue(axum::http::HeaderValue);

/// What a lookup by text finds in a header map: for each header name that can be looked
/// up, in lower case, the bytes of its first value.
pub uninterp spec fn header_fields(headers: axum::http::HeaderMap) -> Map<Seq<char>, Seq<u8>>;

/// Whether a byte of a header value is visible ASCII, a space or a tab.
pub open spec fn is_visible(b: u8) -> bool {
    32 <= b < 127 || b == 9
}

/// The text that the bytes of a header value spell, unless one of them is not
/// visible.
pub open spec fn visible_chars(bytes: Seq<u8>) -> Option<Seq<char>> {
    if forall|i: int| 0 <= i < bytes.len() ==> is_visible(#[trigger] bytes[i]) {
        Some(Seq::new(bytes.len(), |i: int| bytes[i] as char))
    } else {
        None
    }
}

/// The text of the first header of this name, if there is one and it is visible.
pub open spec fn header_chars(headers: axum::http::HeaderMap, name: Seq<char>) -> Option<Seq<char>> {
    let key = text::ascii_lower(name);
    if header_fields(headers).contains_key(key) {
        visible_chars(header_fields(headers)[key])
    } else {
        None
    }
}

/// The text of the first header of this name, trimmed; empty where there is none.
pub open spec fn trimmed_header(headers: axum::http::HeaderMap, name: Seq<char>) -> Seq<char> {
    match header_chars(headers, name) {
        Some(chars) => text::trimmed(chars),
        None => Seq::empty(),
    }
}

/// The token in the text of an authorization header: what follows `Bearer` or
/// `bearer` and a space, trimmed, unless it is empty.
pub open spec fn token_in(raw: Seq<char>) -> Option<Seq<char>> {
    let raw = text::trimmed(raw);
    let rest = if text::after_prefix(raw, "Bearer "@) is Some {
        text::after_prefix(raw, "Bearer "@)
    } else {
        text::after_prefix(raw, "bearer "@)
    };
    if rest is Some && text::trimmed(rest->0).len() > 0 {
        Some(text::trimmed(rest->0))
    } else {
        None
    }
}

/// The token that the headers of a request carry, if they carry one.
pub open spec fn bearer_of(headers: axum::http::HeaderMap) -> Option<Seq<char>> {
    match header_chars(headers, "authorization"@) {
        Some(raw) => token_in(raw),
        None => None,
    }
}

/// `HeaderMap::get` of `http`: the first value under a name, which is looked up
/// without regard to the case of ASCII letters.
#[verifier::external_body]
fn header_bytes(headers: &axum::http::HeaderMap, name: &str) -> (r: Option<Vec<u8>>)
    ensures
        r is Some <==> header_fields(*headers).contains_key(text::ascii_lower(name@)),
        r is Some ==> r->0@ == header_fields(*headers)[text::ascii_lower(name@)],
{
    headers.get(name).map(|value| value.as_bytes().to_vec())
}

/// `HeaderValue::to_str` of `http`, on the value with these bytes: the text that they
/// spell, or nothing where one of them is not visible ASCII.
#[verifier::external_body]
fn visible_text(bytes: &[u8]) -> (r: Option<String>)
    ensures
        r is Some <==> visible_chars(bytes@) is Some,
        r is Some ==> r->0@ == visible_chars(bytes@)->0,
{
    let value = axum::http::HeaderValue::from_bytes(bytes).ok()?;
    let chars = value.to_str().ok()?;
    Some(chars.to_owned())
}

/// The text of the first header of this name, if there is one and it is visible.
fn header_text(headers: &axum::http::HeaderMap, name: &str) -> (r: Option<String>)
    ensures
        r is Some <==> header_chars(*headers, name@) is Some,
        r is Some ==> r->0@ == header_chars(*headers, name@)->0,
{
    match header_bytes(headers, name) {
        Some(bytes) => visible_text(bytes.as_slice()),
        None => None,
    }
}

/// The text of the first header of this name, trimmed; empty where there is none.
pub fn header_value(headers: &axum::http::HeaderMap, name: &str) -> (r: String)
    ensures
        r@ == trimmed_header(*headers, name@),
{
    match header_text(headers, name) {
        Some(chars) => chars.as_str().trim().to_owned(),
        None => String::new(),
    }
}

/// The token in the text of an authorization header.
pub fn bearer_token(raw: &str) -> (r: Option<String>)
    ensures
        r is Some <==> token_in(raw@) is Some,
        r is Some ==> r->0@ == token_in(raw@)->0,
{
    let raw = raw.trim();
    let rest = match text::strip_prefix(raw, "Bearer ") {
        Some(rest) => Some(rest),
        None => text::strip_prefix(raw, "bearer "),
    };
    match rest {
        Some(rest) => {
            let token = rest.trim();
            if token.is_empty() {
                None
            } else {
                Some(token.to_owned())
            }
        },
        None => None,
    }
}

/// The token that the headers of a request carry, if they carry one.
pub fn bearer(headers: &axum::http::HeaderMap) -> (r: Option<String>)
    ensures
        r is Some <==> bearer_of(*headers) is Some,
        r is Some ==> r->0@ == bearer_of(*headers)->0,
{
    match header_text(headers, "authorization") {
        Some(raw) => bearer_token(raw.as_str()),
        None => None,
    }
}

/// The idempotency key that the headers of a request carry. A request without one is
/// refused.
pub fn idempotency_key(headers: &axum::http::HeaderMap) -> (r: Result<String, ApiError>)
    ensures
        trimmed_header(*headers, "idempotency-key"@).len() == 0 ==> {
            &&& r is Err
            &&& r->Err_0@ == refusal(LifecycleError::MissingIdempotencyKey)
        },
        trimmed_header(*headers, "idempotency-key"@).len() > 0 ==> {
            &&& r is Ok
            &&& r->Ok_0@ == trimmed_header(*headers, "idempotency-key"@)
        },
{
    let key = header_value(headers, "idempotency-key");
    if key.as_str().is_empty() {
        return Err(lifecycle_error(LifecycleError::MissingIdempotencyKey));
    }
    Ok(key)
}

} // verus!
