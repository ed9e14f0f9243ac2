//! The tags of a favorite as the JSON text that is stored in its row.
//!
//! The encoding is `serde_json`'s. Nothing here proves what the text looks
//! like, nor which lists the encoder takes: the contracts name its answer
//! and say what becomes of it.

use vstd::prelude::*;
use crate::error::AppError;

verus! {

/// `serde_json::Error`, the failure of the encoder. It is carried from the
/// encoder to the description of the failure; nothing in it is read.
#[verifier::external_type_specification]
#[verifier::external_body]
pub struct ExJsonError(serde_json::Error);

/// The answer of `serde_json::to_string` for a list of strings: the JSON
/// text, a JSON array whose elements are the strings in their order, or none
/// where the encoder refuses the list.
pub uninterp spec fn tags_json(tags: Seq<Seq<char>>) -> Option<Seq<char>>;

/// Calls `serde_json::to_string` on the list. Trusted: whether the call
/// succeeds, and the text it gives where it does, depend on the strings and
/// their order alone, and are what `tags_json` names. Nothing is claimed
/// about which lists succeed.
#[verifier::external_body]
fn to_json(tags: &Vec<String>) -> (r: Result<String, serde_json::Error>)
    ensures
        match r {
            Ok(text) => tags_json(tags.deep_view()) == Some(text@),
            Err(_) => tags_json(tags.deep_view()) is None,
        },
{
    serde_json::to_string(tags)
}

/// The text in which `serde_json::Error` describes itself (its `Display`).
/// Trusted; nothing is claimed of the text.
#[verifier::external_body]
fn describe(error: &serde_json::Error) -> (text: String) {
    error.to_string()
}

/// Encodes the tags of a favorite for its row.
///
/// The result is the text that the encoder gives for the list, where it
/// gives one. A list that the encoder refuses, and no other, is a malformed
/// request, with the encoder's description as its text.
pub fn encode_tags(tags: &Vec<String>) -> (r: Result<String, AppError>)
    ensures
        match tags_json(tags.deep_view()) {
            Some(text) => r matches Ok(encoded) && encoded@ == text,
            None => r matches Err(e) && e is BadRequest,
        },
{
    match to_json(tags) {
        Ok(text) => Ok(text),
        Err(error) => Err(AppError::BadRequest(describe(&error))),
    }
}

} // verus!
