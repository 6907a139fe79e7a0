//! List-valued fields: an ordered sequence of strings kept in one text column
//! as a JSON array.
//!
//! Reading is lenient on purpose: a text that is not a JSON array of strings
//! reads as the empty list, so one damaged column never fails a whole row.
//! The price is that damage of this kind goes unnoticed.

use vstd::prelude::*;

verus! {

/// The JSON text that `serde_json::to_string` writes for a list of strings.
pub uninterp spec fn json_text(list: Seq<Seq<char>>) -> Seq<char>;

/// The list of strings that `serde_json::from_str` reads from a text, or
/// `None` where it reports an error.
pub uninterp spec fn json_list(text: Seq<char>) -> Option<Seq<Seq<char>>>;

/// Writes a list of strings as a JSON array.
///
/// Calls `serde_json::to_string`. Trusted: the text depends on the list
/// alone, and `serde_json::from_str` reads the same list back from it. The
/// call cannot fail for a list of strings: the serializer writes into memory
/// and a string is always a valid element.
#[verifier::external_body]
fn to_json(list: &Vec<String>) -> (text: String)
    ensures
        text@ == json_text(list.deep_view()),
        json_list(text@) == Some(list.deep_view()),
{
    serde_json::to_string(list).unwrap()
}

/// Reads a JSON array of strings.
///
/// Calls `serde_json::from_str`. Trusted: the outcome depends on the text
/// alone. An error of the parser is handed on as `None`.
#[verifier::external_body]
fn from_json(text: &str) -> (list: Option<Vec<String>>)
    ensures
        list.deep_view() == json_list(text@),
{
    serde_json::from_str::<Vec<String>>(text).ok()
}

/// What a list column's text reads as: the parsed list, or the empty list
/// where the text does not parse.
pub open spec fn list_of_text(text: Seq<char>) -> Seq<Seq<char>> {
    list_or_empty(json_list(text))
}

/// The lenient default: a failed parse counts as the empty list.
pub open spec fn list_or_empty(parsed: Option<Seq<Seq<char>>>) -> Seq<Seq<char>> {
    match parsed {
        Some(list) => list,
        None => Seq::empty(),
    }
}

/// Applies the lenient default to the outcome of a parse.
pub fn unwrap_list(parsed: Option<Vec<String>>) -> (list: Vec<String>)
    ensures
        list.deep_view() == list_or_empty(parsed.deep_view()),
{
    match parsed {
        Some(list) => list,
        None => {
            let list: Vec<String> = Vec::new();
            assert(list.deep_view() =~= Seq::<Seq<char>>::empty());
            list
        },
    }
}

/// Encodes a list of strings for its text column.
///
/// Decoding the text gives the list back, in order: nothing is lost on the
/// way through the store.
pub fn encode_list(list: &Vec<String>) -> (text: String)
    ensures
        text@ == json_text(list.deep_view()),
        list_of_text(text@) == list.deep_view(),
{
    to_json(list)
}

/// Decodes the text of a list column, leniently.
pub fn decode_list(text: &str) -> (list: Vec<String>)
    ensures
        list.deep_view() == list_of_text(text@),
{
    unwrap_list(from_json(text))
}

} // verus!
