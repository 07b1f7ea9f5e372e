//! JSON values in their compact written form.
use crate::text::opt_text;
use vstd::prelude::*;

verus! {

/// What `serde_json::from_str` makes of a text: the value, in the compact form that its
/// `Display` writes, or the words of the error.
pub uninterp spec fn json_parsed(text: Seq<char>) -> Result<Seq<char>, Seq<char>>;

/// What `serde_json::Value::get` finds under a key of a value, in compact form.
pub uninterp spec fn json_member(json: Seq<char>, key: Seq<char>) -> Option<Seq<char>>;

/// What `serde_json::Value::as_str` finds in a value.
pub uninterp spec fn json_string(json: Seq<char>) -> Option<Seq<char>>;

/// The texts of a result.
pub open spec fn result_texts(r: Result<String, String>) -> Result<Seq<char>, Seq<char>> {
    match r {
        Ok(s) => Ok(s@),
        Err(e) => Err(e@),
    }
}

/// `serde_json::from_str` to a `serde_json::Value`. The value is handed out in the compact form
/// that its `Display` writes, an error in its own words; both depend on the text alone.
#[verifier::external_body]
pub(crate) fn parse_json(text: &str) -> (r: Result<String, String>)
    ensures
        result_texts(r) == json_parsed(text@),
{
    match serde_json::from_str::<serde_json::Value>(text) {
        Ok(value) => Ok(value.to_string()),
        Err(error) => Err(error.to_string()),
    }
}

/// `serde_json::Value::get` by a key, on a value given in compact form. What stands under the key
/// is handed out in compact form and depends on the value and the key alone. A text that is no
/// JSON has no members.
#[verifier::external_body]
pub(crate) fn member_of(json: &str, key: &str) -> (r: Option<String>)
    ensures
        opt_text(r) == json_member(json@, key@),
{
    let value: serde_json::Value = serde_json::from_str(json).ok()?;
    value.get(key).map(|found| found.to_string())
}

/// `serde_json::Value::as_str`, on a value given in compact form: the text of a JSON string, and
/// nothing for a value of another kind. It depends on the value alone.
#[verifier::external_body]
pub(crate) fn string_of(json: &str) -> (r: Option<String>)
    ensures
        opt_text(r) == json_string(json@),
{
    let value: serde_json::Value = serde_json::from_str(json).ok()?;
    value.as_str().map(|found| found.to_string())
}

} // verus!
