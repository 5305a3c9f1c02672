//! Validity of the wire-level pieces of a response: status codes and header
//! fields, as the `http` types under hyper accept them.
use vstd::prelude::*;

verus! {

/// Whether `code` is a status code that hyper's `StatusCode` can hold.
pub open spec fn valid_status(code: int) -> bool {
    100 <= code < 1000
}

/// A byte allowed in a header value: visible ASCII, space, tab, or any
/// byte of 0x80 and above. In a string, every byte of a multi-byte
/// character is of the last kind, so the test is made per character.
pub open spec fn header_value_char(c: char) -> bool {
    (c as u32 >= 32 && c as u32 != 127) || c as u32 == 9
}

/// Whether every character of `v` may stand in a header value.
pub open spec fn valid_header_value(v: Seq<char>) -> bool {
    forall|i: int| 0 <= i < v.len() ==> header_value_char(#[trigger] v[i])
}

/// Whether hyper accepts `name` as a header name.
pub uninterp spec fn header_name_accepted(name: Seq<char>) -> bool;

/// Relies on `hyper::StatusCode::from_u16`, which accepts exactly the codes
/// from 100 to 999 and gives them back unchanged through `as_u16`.
#[verifier::external_body]
pub(crate) fn status_code(code: u16) -> (r: Option<u16>)
    ensures
        r == (if valid_status(code as int) { Some(code) } else { None::<u16> }),
{
    match hyper::StatusCode::from_u16(code) {
        Ok(s) => Some(s.as_u16()),
        Err(_) => None,
    }
}

/// Relies on `hyper::header::HeaderName::from_bytes`: whether the name is
/// accepted depends on its bytes alone, and an empty name is refused.
#[verifier::external_body]
pub(crate) fn header_name_ok(name: &str) -> (r: bool)
    ensures
        r == header_name_accepted(name@),
        name@.len() == 0 ==> !r,
{
    hyper::header::HeaderName::from_bytes(name.as_bytes()).is_ok()
}

/// Relies on `hyper::header::HeaderValue::from_str`, which refuses a value
/// exactly when one of its bytes is a control byte other than tab.
#[verifier::external_body]
pub(crate) fn header_value_ok(value: &str) -> (r: bool)
    ensures
        r == valid_header_value(value@),
{
    hyper::header::HeaderValue::from_str(value).is_ok()
}

/// Whether every header of `headers` has a name that hyper accepts and a
/// value made of allowed characters.
pub open spec fn valid_headers(headers: Seq<(String, String)>) -> bool {
    forall|i: int|
        0 <= i < headers.len() ==> header_name_accepted((#[trigger] headers[i]).0@)
            && valid_header_value(headers[i].1@)
}

/// Checks every header of `headers` against hyper's rules for names and
/// values.
pub fn headers_ok(headers: &Vec<(String, String)>) -> (r: bool)
    ensures
        r == valid_headers(headers@),
{
    let mut i: usize = 0;
    while i < headers.len()
        invariant
            i <= headers@.len(),
            valid_headers(headers@.subrange(0, i as int)),
        decreases headers@.len() - i,
    {
        let ok_name = header_name_ok(headers[i].0.as_str());
        let ok_value = header_value_ok(headers[i].1.as_str());
        if !(ok_name && ok_value) {
            return false;
        }
        assert(headers@.subrange(0, i as int + 1) =~= headers@.subrange(0, i as int).push(headers@[i as int]));
        i = i + 1;
    }
    assert(headers@.subrange(0, i as int) =~= headers@);
    true
}

} // verus!
