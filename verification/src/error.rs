//! The ways a query can fail, and the message each failure is reported with.

use crate::decimal::{decimal, to_decimal};
use vstd::prelude::*;

verus! {

/// A failed query.
#[derive(Debug)]
pub enum QueryError {
    /// The server answered with a status that does not report success.
    Http { status: u16, reason: Option<String> },
    /// The body of the answer is not the JSON that was expected.
    Parse { diagnostic: String, raw: String },
    /// No answer arrived.
    Transport { detail: String },
}

/// A failed query as a mathematical object.
pub enum Failure {
    Http { status: u16, reason: Option<Seq<char>> },
    Parse { diagnostic: Seq<char>, raw: Seq<char> },
    Transport { detail: Seq<char> },
}

/// The phrase, or `fallback` where there is none.
pub open spec fn phrase_or(reason: Option<Seq<char>>, fallback: Seq<char>) -> Seq<char> {
    match reason {
        Some(phrase) => phrase,
        None => fallback,
    }
}

/// The status as a status line shows it: the number, a space, the reason
/// phrase.
pub open spec fn status_line(status: u16, reason: Option<Seq<char>>) -> Seq<char> {
    decimal(status as nat) + " "@ + phrase_or(reason, "<unknown status code>"@)
}

impl Failure {
    /// The message the failure is reported with.
    pub open spec fn message(self) -> Seq<char> {
        match self {
            Failure::Http { status, reason } => "HTTP error: "@ + status_line(status, reason)
                + " | Status: "@ + phrase_or(reason, "Unknown"@),
            Failure::Parse { diagnostic, raw } => "Failed to parse response: "@ + diagnostic
                + " | Response: "@ + raw,
            Failure::Transport { detail } => "Request failed: "@ + detail,
        }
    }
}

impl View for QueryError {
    type V = Failure;

    open spec fn view(&self) -> Failure {
        match self {
            QueryError::Http { status, reason } => Failure::Http {
                status: *status,
                reason: match reason {
                    Some(phrase) => Some(phrase@),
                    None => None,
                },
            },
            QueryError::Parse { diagnostic, raw } => Failure::Parse {
                diagnostic: diagnostic@,
                raw: raw@,
            },
            QueryError::Transport { detail } => Failure::Transport { detail: detail@ },
        }
    }
}

impl QueryError {
    /// Renders the failure as the message it is reported with.
    pub fn message(&self) -> (r: String)
        ensures
            r@ == self@.message(),
    {
        match self {
            QueryError::Http { status, reason } => {
                let mut r = "HTTP error: ".to_owned();
                let number = to_decimal(*status as u64);
                r.append(number.as_str());
                r.append(" ");
                match reason {
                    Some(phrase) => {
                        r.append(phrase.as_str());
                        r.append(" | Status: ");
                        r.append(phrase.as_str());
                    },
                    None => {
                        r.append("<unknown status code>");
                        r.append(" | Status: ");
                        r.append("Unknown");
                    },
                }
                r
            },
            QueryError::Parse { diagnostic, raw } => {
                let mut r = "Failed to parse response: ".to_owned();
                r.append(diagnostic.as_str());
                r.append(" | Response: ");
                r.append(raw.as_str());
                r
            },
            QueryError::Transport { detail } => {
                let mut r = "Request failed: ".to_owned();
                r.append(detail.as_str());
                r
            },
        }
    }
}

} // verus!
