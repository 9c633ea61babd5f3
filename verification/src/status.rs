//! HTTP status codes: which ones count as success, and their standard reason
//! phrases.

use vstd::prelude::*;

verus! {

/// The reason phrase that `http::StatusCode::canonical_reason` gives for the
/// status code with this number, if it knows one.
pub uninterp spec fn canonical_reason(status: u16) -> Option<Seq<char>>;

/// Whether `status` is a number that a status code can have.
pub open spec fn is_status_code(status: u16) -> bool {
    100 <= status <= 999
}

/// Whether `status` reports success: the codes from 200 to 299.
pub open spec fn is_success(status: u16) -> bool {
    200 <= status < 300
}

/// The standard reason phrase for `status`; none for a number that is no
/// status code.
pub open spec fn reason_of(status: u16) -> Option<Seq<char>> {
    if is_status_code(status) {
        canonical_reason(status)
    } else {
        None
    }
}

/// `http::StatusCode::from_u16` followed by `canonical_reason`, for a number
/// that `from_u16` accepts.
#[verifier::external_body]
fn lookup_reason(status: u16) -> (r: Option<String>)
    requires
        is_status_code(status),
    ensures
        match r {
            Some(phrase) => canonical_reason(status) == Some(phrase@),
            None => canonical_reason(status) is None,
        },
{
    match http::StatusCode::from_u16(status) {
        Ok(code) => code.canonical_reason().map(String::from),
        Err(_) => None,
    }
}

/// Tells whether the status reports success.
pub fn succeeded(status: u16) -> (r: bool)
    ensures
        r == is_success(status),
{
    200 <= status && status < 300
}

/// Looks up the standard reason phrase of a status.
pub fn reason_phrase(status: u16) -> (r: Option<String>)
    ensures
        match r {
            Some(phrase) => reason_of(status) == Some(phrase@),
            None => reason_of(status) is None,
        },
{
    if 100 <= status && status <= 999 {
        lookup_reason(status)
    } else {
        None
    }
}

} // verus!
