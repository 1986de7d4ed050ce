//! Lists of names written as JSON arrays.
use vstd::prelude::*;

verus! {

/// The names that `serde_json` reads from `text` as a JSON array of strings,
/// or `None` when `text` is not such an array.
pub uninterp spec fn json_string_array(text: Seq<char>) -> Option<Seq<Seq<char>>>;

/// Reads a JSON array of strings.
/// Trusted: calls `serde_json::from_str::<Vec<String>>`; its result is taken
/// to be a function of the text alone, named [`json_string_array`], and
/// nothing more is claimed of it.
#[verifier::external_body]
pub(crate) fn parse_string_array(text: &str) -> (r: Option<Vec<String>>)
    ensures
        match r {
            Some(v) => json_string_array(text@) == Some(v@.map_values(|s: String| s@)),
            None => json_string_array(text@) is None,
        },
{
    serde_json::from_str::<Vec<String>>(text).ok()
}

/// The JSON text that `serde_json` writes for a list of strings, or `None`
/// if it reports an error.
pub uninterp spec fn json_text_of_strings(items: Seq<Seq<char>>) -> Option<Seq<char>>;

/// Writes a list of strings as a JSON array.
/// Trusted: calls `serde_json::to_string` on the list; its result is taken
/// to be a function of the strings alone, named [`json_text_of_strings`].
#[verifier::external_body]
pub(crate) fn string_array_text(items: &Vec<String>) -> (r: Option<String>)
    ensures
        match r {
            Some(t) => json_text_of_strings(items@.map_values(|s: String| s@)) == Some(t@),
            None => json_text_of_strings(items@.map_values(|s: String| s@)) is None,
        },
{
    serde_json::to_string(items).ok()
}

} // verus!
