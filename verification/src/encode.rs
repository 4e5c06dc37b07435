//! The wire encoder: from a request to the JSON object that the service
//! accepts.

use vstd::prelude::*;
use vstd::string::StringExecFns;
use crate::config::{backtrace_wire_name, serialize_backtrace, Request};
use crate::error::{json_outcome, Error};
use crate::json::{quote, quoted_text};

verus! {

/// A boolean as JSON writes it: `true` or `false`.
pub open spec fn flag_text(flag: bool) -> Seq<char> {
    if flag {
        "true"@
    } else {
        "false"@
    }
}

/// The JSON object of a request around its source text, which is given as a
/// JSON string already. There are seven members, in this order and without
/// spaces. The options `version`, `optimize` and `backtrace` travel as
/// strings, `color` and `test` as booleans, and `separate_output` is `true`
/// whatever the request holds.
pub open spec fn framed_text(request: Request, quoted_code: Seq<char>) -> Seq<char> {
    "{\"code\":"@ + quoted_code + ",\"version\":\""@ + request.version.wire_name()
        + "\",\"optimize\":\""@ + request.optimize.wire_name() + "\",\"backtrace\":\""@
        + backtrace_wire_name(request.backtrace) + "\",\"color\":"@ + flag_text(request.color)
        + ",\"test\":"@ + flag_text(request.test) + ",\"separate_output\":true}"@
}

/// The JSON text that stands for a request.
pub open spec fn wire_text(request: Request) -> Seq<char> {
    framed_text(request, quoted_text(request.code@))
}

/// Encoding is a function of the request's text and options alone: two
/// requests made of the same source text, each with every option at its
/// default, have the same JSON text.
pub proof fn lemma_encoding_is_stable(first: &str, second: &str)
    requires
        first@ == second@,
    ensures
        wire_text(Request::with_defaults(first)) == wire_text(Request::with_defaults(second)),
{
}

/// The text of a request with every option at its default: the source text as
/// a JSON string, then the options' default names, in one piece.
pub proof fn lemma_default_text(code: &str)
    ensures
        wire_text(Request::with_defaults(code)) == "{\"code\":"@ + quoted_text(code@)
            + ",\"version\":\"nightly\",\"optimize\":\"2\",\"backtrace\":\"1\",\"color\":false,\"test\":false,\"separate_output\":true}"@,
{
    let options = ",\"version\":\""@ + "nightly"@ + "\",\"optimize\":\""@ + "2"@
        + "\",\"backtrace\":\""@ + "1"@ + "\",\"color\":"@ + "false"@ + ",\"test\":"@ + "false"@
        + ",\"separate_output\":true}"@;
    let whole =
        ",\"version\":\"nightly\",\"optimize\":\"2\",\"backtrace\":\"1\",\"color\":false,\"test\":false,\"separate_output\":true}"@;
    assert(options =~= whole) by {
        reveal_strlit(",\"version\":\"");
        reveal_strlit("nightly");
        reveal_strlit("\",\"optimize\":\"");
        reveal_strlit("2");
        reveal_strlit("\",\"backtrace\":\"");
        reveal_strlit("1");
        reveal_strlit("\",\"color\":");
        reveal_strlit("false");
        reveal_strlit(",\"test\":");
        reveal_strlit(",\"separate_output\":true}");
        reveal_strlit(
            ",\"version\":\"nightly\",\"optimize\":\"2\",\"backtrace\":\"1\",\"color\":false,\"test\":false,\"separate_output\":true}",
        );
    }
    let head = "{\"code\":"@ + quoted_text(code@);
    assert(wire_text(Request::with_defaults(code)) =~= head + options);
}

/// Writes a boolean as JSON does.
fn flag_name(flag: bool) -> (name: &'static str)
    ensures
        name@ == flag_text(flag),
{
    if flag {
        "true"
    } else {
        "false"
    }
}

/// Writes the JSON object of a request around its source text, which is
/// given as a JSON string already.
pub fn frame(request: &Request, quoted_code: &str) -> (text: String)
    ensures
        text@ == framed_text(*request, quoted_code@),
{
    let mut text = String::from_str("{\"code\":");
    text.append(quoted_code);
    text.append(",\"version\":\"");
    text.append(request.version.serialize());
    text.append("\",\"optimize\":\"");
    text.append(request.optimize.serialize());
    text.append("\",\"backtrace\":\"");
    text.append(serialize_backtrace(request.backtrace));
    text.append("\",\"color\":");
    text.append(flag_name(request.color));
    text.append(",\"test\":");
    text.append(flag_name(request.test));
    text.append(",\"separate_output\":true}");
    text
}

/// Encodes a request as the JSON text that is sent to the service. It
/// succeeds on every request.
pub fn encode(request: &Request) -> (outcome: Result<String, Error>)
    ensures
        outcome matches Ok(text) && text@ == wire_text(*request),
{
    match json_outcome(quote(request.code)) {
        Ok(quoted_code) => Ok(frame(request, quoted_code.as_str())),
        Err(e) => Err(e),
    }
}

} // verus!
