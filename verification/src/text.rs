//! Texts that may be absent.

use vstd::prelude::*;

verus! {

/// The view of an optional text.
pub open spec fn text_view(t: Option<String>) -> Option<Seq<char>> {
    match t {
        Some(s) => Some(s@),
        None => None,
    }
}

/// The text, or the empty text where none is given.
pub open spec fn text_or_empty(t: Option<Seq<char>>) -> Seq<char> {
    match t {
        Some(s) => s,
        None => Seq::empty(),
    }
}

/// Whether `part` stands in `text` from the place `at` on.
pub open spec fn occurs_at(text: Seq<char>, part: Seq<char>, at: int) -> bool {
    0 <= at && at + part.len() <= text.len() && text.subrange(at, at + part.len()) == part
}

/// Whether `part` stands somewhere in `text`.
pub open spec fn occurs_in(text: Seq<char>, part: Seq<char>) -> bool {
    exists|at: int| occurs_at(text, part, at)
}

/// Whether `text` ends with `tail`.
pub open spec fn ends_with(text: Seq<char>, tail: Seq<char>) -> bool {
    occurs_at(text, tail, text.len() - tail.len())
}

/// Takes the text, or the empty text where none is given.
pub fn or_empty(t: Option<String>) -> (r: String)
    ensures
        r@ == text_or_empty(text_view(t)),
{
    match t {
        Some(s) => s,
        None => String::new(),
    }
}

} // verus!
