use vstd::prelude::*;
use vstd::utf8::{decode_utf8, valid_utf8};

verus! {

/// The error type of the JSON codec; nothing is read from it.
#[verifier::external_type_specification]
#[verifier::external_body]
pub struct ExJsonError(serde_json::Error);

/// The list of strings that a JSON text stands for, where it stands for one.
pub uninterp spec fn json_list(text: Seq<char>) -> Option<Seq<Seq<char>>>;

/// The JSON text of a list of strings.
pub uninterp spec fn json_text(list: Seq<Seq<char>>) -> Seq<char>;

/// The records of a log as plain sequences, in order.
pub open spec fn records(log: Seq<String>) -> Seq<Seq<char>> {
    log.map_values(|s: String| s@)
}

/// Reads a text as a JSON array of strings with `serde_json::from_str`. The
/// outcome depends on the text alone; it is named, not described.
#[verifier::external_body]
pub(crate) fn parse_list(text: &str) -> (r: Result<Vec<String>, serde_json::Error>)
    ensures
        r is Ok <==> json_list(text@) is Some,
        r matches Ok(v) ==> records(v@) == json_list(text@).unwrap(),
{
    serde_json::from_str(text)
}

/// Writes a list of strings as JSON with `serde_json::to_string`. The text
/// depends on the list alone; it is named, not described. Writing fails only
/// for a value that refuses to be written or a map whose keys are no
/// strings; a list of strings is neither, so a text always comes back.
#[verifier::external_body]
pub(crate) fn write_list(list: &Vec<String>) -> (r: Result<String, serde_json::Error>)
    ensures
        r is Ok,
        r matches Ok(s) ==> s@ == json_text(records(list@)),
{
    serde_json::to_string(list)
}

/// Turns bytes into text with `String::from_utf8`, which gives a string
/// exactly for well-formed UTF-8 and then the characters the bytes encode.
#[verifier::external_body]
pub(crate) fn text_of(bytes: Vec<u8>) -> (r: Option<String>)
    ensures
        r is Some <==> valid_utf8(bytes@),
        r matches Some(s) ==> s@ == decode_utf8(bytes@),
{
    String::from_utf8(bytes).ok()
}

} // verus!
