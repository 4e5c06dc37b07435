//! The wire decoder: from the JSON object that the service answers with to a
//! typed response.

use vstd::prelude::*;
use crate::error::{json_outcome, Error};
use crate::json::{expect_text, member, object_model, parse_object, parsed_object, Json};

verus! {

/// What the service answered.
#[derive(Debug, PartialEq, Eq)]
pub struct Response {
    /// What the program printed, where it ran and printed anything. On the
    /// wire this is the member `program`.
    pub output: Option<String>,
    /// What the compiler said; empty where it said nothing.
    pub rustc: String,
    /// The service's own complaint, where it had one. On the wire this is the
    /// member `error`.
    pub playpen_error: Option<String>,
}

/// A response by the text of its fields.
pub struct ResponseView {
    pub output: Option<Seq<char>>,
    pub rustc: Seq<char>,
    pub playpen_error: Option<Seq<char>>,
}

impl View for Response {
    type V = ResponseView;

    open spec fn view(&self) -> ResponseView {
        ResponseView {
            output: self.output.deep_view(),
            rustc: self.rustc@,
            playpen_error: self.playpen_error.deep_view(),
        }
    }
}

/// Whether the member under `key` can stand for an optional string: it is
/// missing, `null` or a string.
pub open spec fn accepts_optional(members: Map<Seq<char>, Json>, key: Seq<char>) -> bool {
    members.contains_key(key) ==> members[key] is Null || members[key] is Text
}

/// The optional string under `key`: the text of a string member, and nothing
/// for a missing or `null` one.
pub open spec fn optional_text(members: Map<Seq<char>, Json>, key: Seq<char>) -> Option<Seq<char>> {
    if members.contains_key(key) && members[key] is Text {
        Some(members[key]->Text_0)
    } else {
        None
    }
}

/// Whether the member under `key` can stand for a string with a default: it
/// is missing or a string.
pub open spec fn accepts_defaulted(members: Map<Seq<char>, Json>, key: Seq<char>) -> bool {
    members.contains_key(key) ==> members[key] is Text
}

/// The string under `key`: the text of a string member, and the empty string
/// for a missing one.
pub open spec fn defaulted_text(members: Map<Seq<char>, Json>, key: Seq<char>) -> Seq<char> {
    if members.contains_key(key) && members[key] is Text {
        members[key]->Text_0
    } else {
        Seq::empty()
    }
}

/// Whether an object has the shape of a response: `program` and `error` are
/// optional strings, `rustc` is a string or missing. Other members are not
/// looked at.
pub open spec fn is_reply(members: Map<Seq<char>, Json>) -> bool {
    &&& accepts_optional(members, "program"@)
    &&& accepts_defaulted(members, "rustc"@)
    &&& accepts_optional(members, "error"@)
}

/// The response that an object of that shape stands for.
pub open spec fn reply_of(members: Map<Seq<char>, Json>) -> ResponseView {
    ResponseView {
        output: optional_text(members, "program"@),
        rustc: defaulted_text(members, "rustc"@),
        playpen_error: optional_text(members, "error"@),
    }
}

/// An object without the members `program`, `rustc` and `error` is a
/// response: no output, no complaint of the service, and empty compiler text.
pub proof fn lemma_bare_object_is_reply(members: Map<Seq<char>, Json>)
    requires
        !members.contains_key("program"@),
        !members.contains_key("rustc"@),
        !members.contains_key("error"@),
    ensures
        is_reply(members),
        reply_of(members) == (ResponseView {
            output: None,
            rustc: Seq::empty(),
            playpen_error: None,
        }),
{
}

/// A member of the wrong type makes an object no response: `rustc` that is
/// no string, or `program` or `error` that is neither a string nor `null`.
pub proof fn lemma_mistyped_member_is_no_reply(members: Map<Seq<char>, Json>)
    requires
        ({
            ||| members.contains_key("rustc"@) && !(members["rustc"@] is Text)
            ||| members.contains_key("program"@) && !(members["program"@] is Text
                || members["program"@] is Null)
            ||| members.contains_key("error"@) && !(members["error"@] is Text
                || members["error"@] is Null)
        }),
    ensures
        !is_reply(members),
{
}

/// What decoding owes for a body: the response of the object that the body
/// denotes, and [`Error::Json`] where the body is no JSON object or the
/// object has not the shape of a response.
pub open spec fn decodes_to(body: Seq<u8>, outcome: Result<Response, Error>) -> bool {
    match outcome {
        Ok(response) => parsed_object(body) matches Some(members) && is_reply(members)
            && response@ == reply_of(members),
        Err(e) => e is Json && (parsed_object(body) matches Some(members) ==> !is_reply(members)),
    }
}

/// Reads the member under `key` as an optional string.
fn read_optional(object: &serde_json::Map<String, serde_json::Value>, key: &str) -> (outcome: Result<
    Option<String>,
    Error,
>)
    ensures
        match outcome {
            Ok(text) => accepts_optional(object_model(*object), key@) && text.deep_view()
                == optional_text(object_model(*object), key@),
            Err(e) => !accepts_optional(object_model(*object), key@) && e is Json,
        },
{
    match member(object, key) {
        None => Ok(None),
        Some(value) => {
            if value.is_null() {
                Ok(None)
            } else {
                match json_outcome(expect_text(value)) {
                    Ok(text) => Ok(Some(text)),
                    Err(e) => Err(e),
                }
            }
        },
    }
}

/// Reads the member under `key` as a string that is empty where it is missing.
fn read_defaulted(object: &serde_json::Map<String, serde_json::Value>, key: &str) -> (outcome: Result<
    String,
    Error,
>)
    ensures
        match outcome {
            Ok(text) => accepts_defaulted(object_model(*object), key@) && text@ == defaulted_text(
                object_model(*object),
                key@,
            ),
            Err(e) => !accepts_defaulted(object_model(*object), key@) && e is Json,
        },
{
    match member(object, key) {
        None => Ok(String::new()),
        Some(value) => json_outcome(expect_text(value)),
    }
}

/// Decodes a parsed JSON object into a response.
pub fn decode_object(object: &serde_json::Map<String, serde_json::Value>) -> (outcome: Result<
    Response,
    Error,
>)
    ensures
        match outcome {
            Ok(response) => is_reply(object_model(*object)) && response@ == reply_of(
                object_model(*object),
            ),
            Err(e) => !is_reply(object_model(*object)) && e is Json,
        },
{
    let output = match read_optional(object, "program") {
        Ok(text) => text,
        Err(e) => { return Err(e); },
    };
    let rustc = match read_defaulted(object, "rustc") {
        Ok(text) => text,
        Err(e) => { return Err(e); },
    };
    let playpen_error = match read_optional(object, "error") {
        Ok(text) => text,
        Err(e) => { return Err(e); },
    };
    Ok(Response { output, rustc, playpen_error })
}

/// Decodes the body of the service's answer.
pub fn decode(body: &[u8]) -> (outcome: Result<Response, Error>)
    ensures
        decodes_to(body@, outcome),
{
    match json_outcome(parse_object(body)) {
        Ok(object) => decode_object(&object),
        Err(e) => Err(e),
    }
}

} // verus!
