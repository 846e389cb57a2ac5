//! The text of a frame, read and written by `serde_json`.
//!
//! Reading and writing JSON text is the work of `serde_json`, and nothing in
//! this library looks into that text. The trusted functions of this module
//! hand a text to `serde_json` and carry the value over into [`Json`], node by
//! node, and back. What `serde_json` makes of a text, and what text it gives a
//! value, is not stated here; both are named, [`parsed`] and [`printed`], so
//! that the contracts of the codec can speak of them. That a frame holds an
//! array is checked here by verified code.

use vstd::prelude::*;
use crate::error::{Error, ErrorView};
use crate::value::{lemma_array_view, Json, JsonView, Number};

verus! {

/// The value type of `serde_json`, which the functions of this module carry
/// over into [`Json`].
#[verifier::external_type_specification]
#[verifier::external_body]
pub struct ExValue(serde_json::Value);

/// The value that `serde_json::from_str` reads from a text, or `None` where it
/// rejects the text.
pub uninterp spec fn parsed(text: Seq<char>) -> Option<JsonView>;

/// The text that `serde_json::to_string` writes for a value, or `None` where
/// it writes none.
pub uninterp spec fn printed(value: JsonView) -> Option<Seq<char>>;

/// Carries a `serde_json::Value` over, node by node. The members of an object
/// come in the order in which `serde_json` keeps them. Nothing is claimed of
/// the result.
#[verifier::external_body]
fn from_serde(value: &serde_json::Value) -> Json {
    match value {
        serde_json::Value::Null => Json::Null,
        serde_json::Value::Bool(b) => Json::Bool(*b),
        serde_json::Value::Number(_) => Json::Number(number_from_serde(value)),
        serde_json::Value::String(s) => Json::String(s.clone()),
        serde_json::Value::Array(a) => Json::Array(a.iter().map(from_serde).collect()),
        serde_json::Value::Object(o) => Json::Object(
            o.iter().map(|(k, v)| (k.clone(), from_serde(v))).collect(),
        ),
    }
}

/// Carries a number of `serde_json` over: by what `serde_json::Value::as_u64`
/// gives for it, else by what `as_i64` gives for it, else by its text. Nothing
/// is claimed of the result.
#[verifier::external_body]
fn number_from_serde(value: &serde_json::Value) -> Number {
    match (value.as_u64(), value.as_i64()) {
        (Some(n), _) => Number::PosInt(n),
        (_, Some(n)) => Number::NegInt(n),
        _ => Number::Float(value.to_string()),
    }
}

/// Carries a number over into a `serde_json::Value`. A number that is held by
/// its text is read back by `serde_json`, and stands as null where
/// `serde_json` does not read the text as a number. Nothing is claimed of the
/// result.
#[verifier::external_body]
fn number_to_serde(number: &Number) -> serde_json::Value {
    match number {
        Number::PosInt(n) => serde_json::Value::from(*n),
        Number::NegInt(n) => serde_json::Value::from(*n),
        Number::Float(text) => text.parse::<serde_json::Number>().map_or(
            serde_json::Value::Null,
            serde_json::Value::Number,
        ),
    }
}

/// Carries a value over into a `serde_json::Value`, node by node. An object
/// is collected from its members in their order into the map of `serde_json`,
/// which keeps one value for each name. Nothing is claimed of the result.
#[verifier::external_body]
fn to_serde(value: &Json) -> serde_json::Value {
    match value {
        Json::Null => serde_json::Value::Null,
        Json::Bool(b) => serde_json::Value::Bool(*b),
        Json::Number(n) => number_to_serde(n),
        Json::String(s) => serde_json::Value::String(s.clone()),
        Json::Array(a) => serde_json::Value::Array(a.iter().map(to_serde).collect()),
        Json::Object(o) => serde_json::Value::Object(
            o.iter().map(|(k, v)| (k.clone(), to_serde(v))).collect(),
        ),
    }
}

/// Reads a text as a value with `serde_json::from_str`. The contract claims
/// only that the result is the one that [`parsed`] names: the call succeeds
/// where `serde_json` reads the text, and then gives the value that it read.
/// An error is given as the text of the error of `serde_json`.
#[verifier::external_body]
pub(crate) fn parse(text: &str) -> (r: Result<Json, String>)
    ensures
        r is Ok <==> parsed(text@) is Some,
        r matches Ok(value) ==> parsed(text@) == Some(value@),
{
    match serde_json::from_str::<serde_json::Value>(text) {
        Ok(value) => Ok(from_serde(&value)),
        Err(e) => Err(e.to_string()),
    }
}

/// Writes a value as text with `serde_json::to_string`. The contract claims
/// only that the result is the one that [`printed`] names. An error is given
/// as the text of the error of `serde_json`.
#[verifier::external_body]
pub(crate) fn print(value: &Json) -> (r: Result<String, String>)
    ensures
        r is Ok <==> printed(value@) is Some,
        r matches Ok(text) ==> printed(value@) == Some(text@),
{
    serde_json::to_string(&to_serde(value)).map_err(|e| e.to_string())
}

/// The sequence that the text of a frame holds: the elements of the array
/// that the text is read as.
pub open spec fn parsed_sequence(text: Seq<char>) -> Option<Seq<JsonView>> {
    match parsed(text) {
        Some(JsonView::Array(components)) => Some(components),
        _ => None,
    }
}

/// The text of the frame that holds a sequence.
pub open spec fn printed_sequence(components: Seq<JsonView>) -> Option<Seq<char>> {
    printed(JsonView::Array(components))
}

/// Reads the text of a frame as a sequence. A text that is no JSON text fails
/// with the words of `serde_json`, and one that holds another value than an
/// array fails as no sequence.
pub fn parse_sequence(text: &str) -> (r: Result<Vec<Json>, Error>)
    ensures
        match parsed(text@) {
            None => r matches Err(e) && e is SerdeJsonError,
            Some(JsonView::Array(components)) => r matches Ok(items) && items.deep_view()
                == components,
            Some(_) => r matches Err(e) && e@ == ErrorView::NotASequence,
        },
{
    match parse(text) {
        Ok(Json::Array(items)) => {
            proof {
                lemma_array_view(items);
            }
            Ok(items)
        },
        Ok(_) => Err(Error::NotASequence),
        Err(reason) => Err(Error::SerdeJsonError(reason)),
    }
}

/// Writes a sequence as the text of a frame. A sequence that `serde_json`
/// writes no text for fails with its words.
pub fn print_sequence(components: Vec<Json>) -> (r: Result<String, Error>)
    ensures
        match printed_sequence(components.deep_view()) {
            Some(text) => r matches Ok(written) && written@ == text,
            None => r matches Err(e) && e is SerdeJsonError,
        },
{
    proof {
        lemma_array_view(components);
    }
    let array = Json::Array(components);
    match print(&array) {
        Ok(text) => Ok(text),
        Err(reason) => Err(Error::SerdeJsonError(reason)),
    }
}

} // verus!
