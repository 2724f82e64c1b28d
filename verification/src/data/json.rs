//! Lists of strings stored as JSON arrays, through `serde_json`.

use vstd::prelude::*;

use crate::text::string_views;

verus! {

/// The JSON text that `serde_json` writes for a list of strings.
pub uninterp spec fn json_text_of_strings(v: Seq<Seq<char>>) -> Seq<char>;

/// The list of strings that `serde_json` reads from a text, or `None` when the
/// text is not a JSON array of strings.
pub uninterp spec fn json_strings_of_text(t: Seq<char>) -> Option<Seq<Seq<char>>>;

/// `serde_json::to_string` on a list of strings.
///
/// Claims that the call succeeds (serde_json documents failure only for a
/// `Serialize` impl that decides to fail and for maps with non-string keys,
/// neither of which a list of strings has), that its text is the named
/// [`json_text_of_strings`] of the list, and that `serde_json` reads that text
/// back as the same list.
#[verifier::external_body]
fn json_encode_strings(v: &[String]) -> (r: Option<String>)
    ensures
        r is Some,
        r.unwrap()@ == json_text_of_strings(string_views(v@)),
        json_strings_of_text(r.unwrap()@) == Some(string_views(v@)),
{
    serde_json::to_string(v).ok()
}

/// `serde_json::from_str` into a list of strings: the list, or `None` when the
/// text is not a JSON array of strings. Claims only that the result is the
/// named [`json_strings_of_text`] of the text.
#[verifier::external_body]
fn json_decode_strings(t: &str) -> (r: Option<Vec<String>>)
    ensures
        r is None <==> json_strings_of_text(t@) is None,
        r is Some ==> json_strings_of_text(t@) == Some(string_views(r.unwrap()@)),
{
    serde_json::from_str::<Vec<String>>(t).ok()
}

/// Serialise a list of strings to a JSON array text; `"[]"` should the
/// serialiser fail.
pub fn to_json_array(v: &[String]) -> (r: String)
    ensures
        r@ == json_text_of_strings(string_views(v@)),
        json_strings_of_text(r@) == Some(string_views(v@)),
{
    match json_encode_strings(v) {
        Some(t) => t,
        None => String::from_str("[]"),
    }
}

/// The list of strings stored as a JSON array in `t`; empty when `t` is not a
/// JSON array of strings.
pub fn from_json_array(t: &str) -> (r: Vec<String>)
    ensures
        string_views(r@) == match json_strings_of_text(t@) {
            Some(l) => l,
            None => Seq::empty(),
        },
{
    match json_decode_strings(t) {
        Some(v) => v,
        None => Vec::new(),
    }
}

} // verus!
