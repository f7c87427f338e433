use vstd::prelude::*;

verus! {

#[verifier::external_type_specification]
#[verifier::external_body]
pub struct ExJsonError(serde_json::Error);

/// The JSON text that `serde_json::to_string` writes for a list of strings.
pub uninterp spec fn json_string_array(items: Seq<Seq<char>>) -> Seq<char>;

/// What `serde_json::from_str::<Vec<String>>` reads from a text: the list
/// of strings, or `None` where the text is not a JSON array of strings.
pub uninterp spec fn json_parsed_string_array(text: Seq<char>) -> Option<Seq<Seq<char>>>;

/// `serde_json::to_string` on a `Vec<String>`. The contract claims that the
/// result is the JSON text named `json_string_array` of the strings, that it
/// starts with the `[` that opens a JSON array, and that
/// `serde_json::from_str::<Vec<String>>` reads that text back as the same
/// strings. Serialising a sequence of strings does not fail, so the
/// body unwraps the result.
#[verifier::external_body]
pub(crate) fn to_json_string_array(items: &Vec<String>) -> (r: String)
    ensures
        r@ == json_string_array(items.deep_view()),
        r@.len() > 0 && r@[0] == '[',
        json_parsed_string_array(r@) == Some(items.deep_view()),
{
    serde_json::to_string(items).unwrap()
}

/// `serde_json::from_str::<Vec<String>>`. The contract claims that the result
/// is the list named `json_parsed_string_array` of the text, and an error
/// exactly where that name gives `None`.
#[verifier::external_body]
pub(crate) fn parse_json_string_array(text: &str) -> (r: Result<Vec<String>, serde_json::Error>)
    ensures
        match r {
            Ok(items) => json_parsed_string_array(text@) == Some(items.deep_view()),
            Err(_) => json_parsed_string_array(text@) is None,
        },
{
    serde_json::from_str::<Vec<String>>(text)
}

} // verus!
