//! The one place where the engine reads JSON: the argument lists of the
//! configured agent and verification commands.
use vstd::prelude::*;
use crate::text::strings_view;

verus! {

/// The array of strings that a JSON text denotes, or `None` where the text
/// is not exactly one JSON array of strings, as `serde_json` reads it.
pub uninterp spec fn json_string_array(text: Seq<char>) -> Option<Seq<Seq<char>>>;

/// The message with which `serde_json` refuses a text as an array of
/// strings (what went wrong, and at which line and column).
pub uninterp spec fn json_refusal(text: Seq<char>) -> Seq<char>;

/// `serde_json::from_str::<Vec<String>>`, its error shown by `Display`:
/// succeeds exactly when the text is a JSON array of strings, and then yields
/// those strings; otherwise fails with serde_json's message for the text. The
/// JSON grammar and the messages are not written out here (they are named
/// `json_string_array` and `json_refusal`).
#[verifier::external_body]
pub(crate) fn parse_string_array(text: &str) -> (r: Result<Vec<String>, String>)
    ensures
        r is Ok <==> json_string_array(text@) is Some,
        r matches Ok(v) ==> strings_view(v@) == json_string_array(text@)->0,
        r matches Err(m) ==> m@ == json_refusal(text@),
{
    match serde_json::from_str::<Vec<String>>(text) {
        Ok(v) => Ok(v),
        Err(e) => Err(e.to_string()),
    }
}

} // verus!
