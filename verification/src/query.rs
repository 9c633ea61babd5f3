//! A query from end to end: where the request goes, and what is made of the
//! answer.

use crate::error::{Failure, QueryError};
use crate::json::parse_outcome;
use crate::decimal::decimal;
use crate::json::Json;
use crate::response::{answer_view, interpret_body, interpreted, CustomResponse, Outcome};
use crate::text::{occurs_at, occurs_in, text_view};
use crate::status::{is_success, reason_of, reason_phrase, succeeded};
use vstd::prelude::*;

verus! {

/// Where every request is posted.
pub const ENDPOINT: &'static str = "https://fatraceschool.k12ea.gov.tw/cateringservice/rest/API/";

/// The failure that a status gives rise to: none for a success, otherwise an
/// HTTP failure with the status and its standard reason phrase.
pub open spec fn status_failure(status: u16) -> Option<Failure> {
    if is_success(status) {
        None
    } else {
        Some(Failure::Http { status, reason: reason_of(status) })
    }
}

/// What is made of an answer with this status whose body parsed to
/// `parsed`. The body counts only where the status reports success.
pub open spec fn answered(
    status: u16,
    parsed: Result<Json, Seq<char>>,
    raw: Seq<char>,
    key: Option<Seq<char>>,
) -> Result<Outcome, Failure> {
    match status_failure(status) {
        Some(failure) => Err(failure),
        None => interpreted(parsed, raw, key),
    }
}

/// Judges the status of an answer. The body is worth reading only after an
/// `Ok`.
pub fn check_status(status: u16) -> (r: Result<(), QueryError>)
    ensures
        match r {
            Ok(_) => status_failure(status) is None,
            Err(error) => status_failure(status) == Some(error@),
        },
{
    if succeeded(status) {
        Ok(())
    } else {
        Err(QueryError::Http { status, reason: reason_phrase(status) })
    }
}

/// Interprets an answer: its status first, then its body.
pub fn interpret_response(status: u16, body: &str, key: Option<String>) -> (r: Result<
    CustomResponse,
    QueryError,
>)
    ensures
        answer_view(r) == answered(status, parse_outcome(body@), body@, text_view(key)),
{
    match check_status(status) {
        Err(error) => Err(error),
        Ok(_) => interpret_body(body, key),
    }
}

/// An answer whose status does not report success fails as an HTTP failure
/// with that status, whatever its body holds, and the failure's message
/// shows the status in decimal notation.
pub proof fn lemma_failed_status_is_reported(
    status: u16,
    parsed: Result<Json, Seq<char>>,
    raw: Seq<char>,
    key: Option<Seq<char>>,
)
    requires
        !is_success(status),
    ensures
        answered(status, parsed, raw, key) == Err::<Outcome, Failure>(
            Failure::Http { status, reason: reason_of(status) },
        ),
        occurs_in(
            Failure::Http { status, reason: reason_of(status) }.message(),
            decimal(status as nat),
        ),
{
    let message = Failure::Http { status, reason: reason_of(status) }.message();
    let number = decimal(status as nat);
    let at = "HTTP error: "@.len() as int;
    assert(message.subrange(at, at + number.len()) =~= number);
    assert(occurs_at(message, number, at));
}

} // verus!
