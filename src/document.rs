//! Asset documents kept directly as JSON files, without the interpreter:
//! the text read from such a file, and the text written to one.
use vstd::prelude::*;
use crate::json::{describe_json_error, json_parse, json_pretty, parse_json, write_json_pretty};

verus! {

/// Why a document could not be decoded or encoded; each carries serde_json's
/// message.
#[derive(Clone, Debug, PartialEq, Eq)]
pub enum DocumentError {
    /// serde_json does not accept the file's text as a JSON document.
    Invalid(String),
    /// The value could not be written as JSON; serde_json never reports
    /// this for a `Value`.
    Unserializable(String),
}

/// The value that a document file holds, from the file's bytes.
pub fn decode_document(text: &[u8]) -> (r: Result<serde_json::Value, DocumentError>)
    ensures
        match r {
            Ok(v) => json_parse(text@) == Some(v),
            Err(e) => json_parse(text@) is None && e is Invalid,
        },
{
    match parse_json(text) {
        Ok(v) => Ok(v),
        Err(e) => Err(DocumentError::Invalid(describe_json_error(&e))),
    }
}

/// The indented JSON text that a document file is written with. Every
/// value can be written, so this always succeeds.
pub fn encode_document(v: &serde_json::Value) -> (r: Result<String, DocumentError>)
    ensures
        r matches Ok(s) && s@ == json_pretty(*v),
{
    match write_json_pretty(v) {
        Ok(s) => Ok(s),
        Err(e) => Err(DocumentError::Unserializable(describe_json_error(&e))),
    }
}

} // verus!
