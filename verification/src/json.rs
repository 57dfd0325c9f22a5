//! Compact JSON text of lists of strings, as `serde_json` writes it.

use vstd::prelude::*;

verus! {

/// The error type of `serde_json`.
#[verifier::external_type_specification]
#[verifier::external_body]
pub struct ExJsonError(serde_json::Error);

/// The compact JSON text that `serde_json` writes for a list of strings: an
/// array of string literals.
pub uninterp spec fn json_names_text(names: Seq<Seq<char>>) -> Seq<char>;

/// The compact JSON text that `serde_json` writes for a list of lists of
/// strings: an array of arrays of string literals.
pub uninterp spec fn json_groups_text(groups: Seq<Seq<Seq<char>>>) -> Seq<char>;

/// The JSON text of the empty array.
pub open spec fn empty_array() -> Seq<char> {
    seq!['[', ']']
}

/// The JSON text of a list of strings. That of the empty list is `[]`.
pub open spec fn json_names(names: Seq<Seq<char>>) -> Seq<char> {
    if names.len() == 0 {
        empty_array()
    } else {
        json_names_text(names)
    }
}

/// The JSON text of a list of lists of strings. That of the empty list is
/// `[]`.
pub open spec fn json_groups(groups: Seq<Seq<Seq<char>>>) -> Seq<char> {
    if groups.len() == 0 {
        empty_array()
    } else {
        json_groups_text(groups)
    }
}

/// Calls `serde_json::to_string` on a list of strings. The text depends on
/// the strings alone, and for the empty list it is `[]`: the serializer
/// opens and closes the array and writes nothing between. The call
/// succeeds: a sequence of strings has no map key and no `Serialize` impl
/// that fails, and the text is written to a vector in memory, which reports
/// no I/O error.
#[verifier::external_body]
pub(crate) fn names_to_json(names: &Vec<&str>) -> (r: Result<String, serde_json::Error>)
    ensures
        r is Ok,
        r matches Ok(text) ==> names@.len() == 0 ==> text@ == empty_array(),
        r matches Ok(text) ==> names@.len() > 0 ==> text@ == json_names_text(names.deep_view()),
{
    serde_json::to_string(names)
}

/// Calls `serde_json::to_string` on a list of lists of strings. The text
/// depends on the strings alone, and for the empty list it is `[]`. The call
/// succeeds, for the reasons given for a plain list.
#[verifier::external_body]
pub(crate) fn groups_to_json(groups: &Vec<Vec<&str>>) -> (r: Result<String, serde_json::Error>)
    ensures
        r is Ok,
        r matches Ok(text) ==> groups@.len() == 0 ==> text@ == empty_array(),
        r matches Ok(text) ==> groups@.len() > 0 ==> text@ == json_groups_text(groups.deep_view()),
{
    serde_json::to_string(groups)
}

} // verus!
