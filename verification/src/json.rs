//! JSON payloads whose members are all text.
//!
//! The bodies that this crate writes itself are flat objects of strings.
//! Their text is produced by serde_json, so that quoting and escaping are
//! those of the encoder that reads the answers.

use vstd::prelude::*;
use crate::query::Pairs;

verus! {

/// The `Error` of serde_json, of which only the text is used.
#[verifier::external_type_specification]
#[verifier::external_body]
pub struct ExJsonError(serde_json::Error);

/// The JSON text of the object whose members are `fields`, each value a
/// string, as serde_json writes it in compact form.
pub uninterp spec fn json_object_text(fields: Pairs) -> Seq<char>;

/// `serde_json::to_string` on a `Value::Object` whose members are `fields`
/// as `Value::String`s, gathered in a `serde_json::Map`. The text is a
/// function of the fields alone. The encoder always gives one: it fails
/// only where a `Serialize` impl fails or a map has a key that is no
/// string, and `Value` has no impl that fails on its own while the keys of
/// a `Map` are strings.
#[verifier::external_body]
fn encode_object(fields: &Vec<(String, String)>) -> (out: Result<String, serde_json::Error>)
    ensures
        out is Ok,
        out matches Ok(text) ==> text@ == json_object_text(fields.deep_view()),
{
    let members: serde_json::Map<String, serde_json::Value> = fields.iter().map(
        |field| (field.0.clone(), serde_json::Value::String(field.1.clone())),
    ).collect();
    serde_json::to_string(&serde_json::Value::Object(members))
}

/// The `Display` text of a serde_json `Error`. Nothing is claimed of it.
#[verifier::external_body]
fn json_error_text(error: &serde_json::Error) -> (out: String) {
    format!("{}", error)
}

/// Encodes an object of text members as its JSON text. The result is
/// always `Ok`; it is a `Result` because the encoder's is.
pub fn encode_fields(fields: &Vec<(String, String)>) -> (out: Result<String, String>)
    ensures
        out matches Ok(text) && text@ == json_object_text(fields.deep_view()),
{
    match encode_object(fields) {
        Ok(text) => Ok(text),
        Err(error) => Err(json_error_text(&error)),
    }
}

} // verus!
