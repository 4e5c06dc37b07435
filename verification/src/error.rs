//! The one error type of the library: a failed transport, or JSON that could
//! not be written or read.

use vstd::prelude::*;
use vstd::string::StringExecFns;
use crate::json::{describe_json, json_description};
use hyper::Error as TransportFailure;

verus! {

/// `hyper::Error`: why the transport failed.
#[verifier::external_type_specification]
#[verifier::external_body]
pub struct ExTransportFailure(TransportFailure);

/// What a `hyper::Error` gives as its description.
pub uninterp spec fn transport_description(failure: hyper::Error) -> Seq<char>;

/// `hyper::Error`'s `description`, of the standard error trait: a fixed text
/// for a failure without a cause, and else the description of the cause.
#[verifier::external_body]
#[allow(deprecated)]
fn describe_transport<'a>(failure: &'a hyper::Error) -> (text: &'a str)
    ensures
        text@ == transport_description(*failure),
{
    std::error::Error::description(failure)
}

/// Why a submission failed: the stage that failed, and that stage's own error.
#[derive(Debug)]
pub enum Error {
    /// The transport failed: connection, network or HTTP.
    Hyper(hyper::Error),
    /// JSON could not be written or read: malformed text, or a member of the
    /// wrong type.
    Json(serde_json::Error),
}

/// A message under the label of its stage: the label, a colon and a space,
/// then the message.
pub open spec fn labelled_text(stage: Seq<char>, detail: Seq<char>) -> Seq<char> {
    stage + ": "@ + detail
}

/// Puts a message under the label of its stage.
pub fn labelled(stage: &str, detail: &str) -> (message: String)
    ensures
        message@ == labelled_text(stage@, detail@),
{
    let mut message = String::from_str(stage);
    message.append(": ");
    message.append(detail);
    message
}

impl Error {
    /// Whether `message` is what the underlying failure displays: the text
    /// that `to_string` gives for the error of the stage that failed.
    pub open spec fn displays(self, message: String) -> bool {
        match self {
            Error::Hyper(e) => vstd::string::to_string_from_display_ensures::<hyper::Error>(
                &e,
                message,
            ),
            Error::Json(e) => vstd::string::to_string_from_display_ensures::<serde_json::Error>(
                &e,
                message,
            ),
        }
    }

    /// The label of the stage that failed.
    pub open spec fn stage(self) -> Seq<char> {
        match self {
            Error::Hyper(_) => "Hyper"@,
            Error::Json(_) => "JSON"@,
        }
    }

    /// What the underlying failure gives as its description.
    pub open spec fn described(self) -> Seq<char> {
        match self {
            Error::Hyper(e) => transport_description(e),
            Error::Json(e) => json_description(e),
        }
    }

    /// The description of the underlying failure, as that failure's own error
    /// gives it: unchanged, and without the stage.
    pub fn description(&self) -> (text: &str)
        ensures
            text@ == self.described(),
    {
        match self {
            Error::Hyper(e) => describe_transport(e),
            Error::Json(e) => describe_json(e),
        }
    }

    /// The message that the underlying failure displays.
    fn displayed(&self) -> (message: String)
        ensures
            self.displays(message),
    {
        match self {
            Error::Hyper(e) => e.to_string(),
            Error::Json(e) => e.to_string(),
        }
    }

    /// What the error displays: the label of the stage, then the message of
    /// the underlying failure.
    pub fn to_string(&self) -> (message: String)
        ensures
            exists|detail: String| #[trigger]
                self.displays(detail) && message@ == labelled_text(self.stage(), detail@),
    {
        let stage = match self {
            Error::Hyper(_) => "Hyper",
            Error::Json(_) => "JSON",
        };
        let detail = self.displayed();
        let message = labelled(stage, detail.as_str());
        assert(self.displays(detail) && message@ == labelled_text(self.stage(), detail@));
        message
    }
}

/// Lifts the outcome of a JSON step into the library's error type: success
/// passes through, a failure becomes [`Error::Json`].
pub fn json_outcome<T>(outcome: Result<T, serde_json::Error>) -> (lifted: Result<T, Error>)
    ensures
        lifted == match outcome {
            Ok(value) => Ok::<T, Error>(value),
            Err(e) => Err(Error::Json(e)),
        },
{
    match outcome {
        Ok(value) => Ok(value),
        Err(e) => Err(Error::from(e)),
    }
}

impl From<hyper::Error> for Error {
    fn from(err: hyper::Error) -> (error: Error) {
        Error::Hyper(err)
    }
}

impl vstd::std_specs::convert::FromSpecImpl<hyper::Error> for Error {
    open spec fn obeys_from_spec() -> bool {
        true
    }

    open spec fn from_spec(err: hyper::Error) -> Error {
        Error::Hyper(err)
    }
}

impl From<serde_json::Error> for Error {
    fn from(err: serde_json::Error) -> (error: Error) {
        Error::Json(err)
    }
}

impl vstd::std_specs::convert::FromSpecImpl<serde_json::Error> for Error {
    open spec fn obeys_from_spec() -> bool {
        true
    }

    open spec fn from_spec(err: serde_json::Error) -> Error {
        Error::Json(err)
    }
}

} // verus!
