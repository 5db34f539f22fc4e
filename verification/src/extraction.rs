//! From what an expression captured to the value that is reported.

use crate::text::{is_white_space, strip_whitespace, without_whitespace};
use vstd::prelude::*;

verus! {

/// Index of the capture group that isolates the value to report.
pub const DESIGNATED_GROUP: usize = 1;

/// The text of the designated group in what a search captured: `None` where
/// nothing matched, where the expression has no such group, and where the
/// group took no part in the match.
pub open spec fn designated_group(captures: Option<Seq<Option<Seq<char>>>>) -> Option<Seq<char>> {
    match captures {
        Some(groups) => if DESIGNATED_GROUP < groups.len() {
            groups[DESIGNATED_GROUP as int]
        } else {
            None
        },
        None => None,
    }
}

/// The value that is reported for what a search captured: the text of the
/// designated group, without its white space.
pub open spec fn extracted_value(captures: Option<Seq<Option<Seq<char>>>>) -> Option<Seq<char>> {
    match designated_group(captures) {
        Some(text) => Some(without_whitespace(text)),
        None => None,
    }
}

/// The value to report for what a search captured, if it captured one.
pub fn extract(captures: &Option<Vec<Option<String>>>) -> (value: Option<String>)
    ensures
        value.deep_view() == extracted_value(captures.deep_view()),
        value matches Some(v) ==> forall|i: int| 0 <= i < v@.len() ==> !is_white_space(v@[i]),
{
    match captures {
        Some(groups) => {
            if DESIGNATED_GROUP < groups.len() {
                assert(groups.deep_view()[DESIGNATED_GROUP as int]
                    == groups@[DESIGNATED_GROUP as int].deep_view());
                match &groups[DESIGNATED_GROUP] {
                    Some(text) => Some(strip_whitespace(text.as_str())),
                    None => None,
                }
            } else {
                None
            }
        },
        None => None,
    }
}

} // verus!
