//! Lists of record ids stored as JSON arrays of strings (a monitor's
//! notification channels, the monitors of a status page or of a
//! maintenance window).
use vstd::prelude::*;
use crate::text::{owned, texts};

verus! {

/// What `serde_json::from_str::<Vec<String>>` reads from `text`: the
/// strings of the JSON array it holds, or nothing when `text` is not a JSON
/// array of strings.
pub uninterp spec fn json_string_array(text: Seq<char>) -> Option<Seq<Seq<char>>>;

/// What `serde_json::to_string::<Vec<String>>` writes for `items`.
pub uninterp spec fn json_array_text(items: Seq<Seq<char>>) -> Seq<char>;

/// Calls `serde_json::from_str::<Vec<String>>` on `text`, keeping the list
/// or dropping the error. The contract names the result and claims no more
/// of it: JSON's grammar is serde_json's to check.
#[verifier::external_body]
fn parse_string_array(text: &str) -> (r: Option<Vec<String>>)
    ensures
        match r {
            Some(v) => json_string_array(text@) == Some(texts(v@)),
            None => json_string_array(text@) is None,
        },
{
    serde_json::from_str::<Vec<String>>(text).ok()
}

/// Calls `serde_json::to_string` on a list of strings. serde_json writes a
/// list of strings without failing, and reading its text back gives the
/// same strings; the contract claims these two facts and names the text.
#[verifier::external_body]
fn write_string_array(items: &Vec<String>) -> (r: Option<String>)
    ensures
        r is Some,
        r matches Some(t) ==> t@ == json_array_text(texts(items@)) && json_string_array(t@)
            == Some(texts(items@)),
{
    serde_json::to_string(items).ok()
}

/// The ids that a stored list holds; a text that is not a JSON array of
/// strings holds none.
pub open spec fn stored_ids(text: Seq<char>) -> Seq<Seq<char>> {
    match json_string_array(text) {
        Some(v) => v,
        None => Seq::empty(),
    }
}

/// Reads a stored list of ids; an unreadable list reads as empty.
pub fn decode_ids(text: &str) -> (ids: Vec<String>)
    ensures
        texts(ids@) == stored_ids(text@),
{
    match parse_string_array(text) {
        Some(v) => v,
        None => {
            let v: Vec<String> = Vec::new();
            assert(texts(v@) =~= Seq::<Seq<char>>::empty());
            v
        },
    }
}

/// The text under which a list of ids is stored (`[]` should writing fail).
pub fn encode_ids(ids: &Vec<String>) -> (text: String)
    ensures
        text@ == json_array_text(texts(ids@)),
        stored_ids(text@) == texts(ids@),
{
    match write_string_array(ids) {
        Some(t) => t,
        None => owned("[]"),
    }
}

} // verus!
