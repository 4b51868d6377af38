//! JSON text, as far as the registry looks at it: whether it is any.

use vstd::prelude::*;

verus! {

/// Whether `text` reads as exactly one JSON value.
pub uninterp spec fn json_parses(text: Seq<char>) -> bool;

/// Says whether `text` reads as exactly one JSON value.
///
/// Calls `serde_json::from_str` for a `serde_json::Value` and reports whether
/// it succeeded.  Trusted: the answer is a function of the text alone, the
/// same for the same text every time.  Which texts read as JSON is left to
/// the parser; nothing is claimed about any particular text.
#[verifier::external_body]
pub(crate) fn parses_as_json(text: &str) -> (ok: bool)
    ensures
        ok == json_parses(text@),
{
    serde_json::from_str::<serde_json::Value>(text).is_ok()
}

} // verus!
