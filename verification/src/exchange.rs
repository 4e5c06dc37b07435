//! The exchange with the service: where a submission is sent, and how what
//! comes back becomes the result of the call.

use vstd::prelude::*;
use crate::decode::{decode, decodes_to, Response};
use crate::error::Error;

verus! {

/// Where submissions are posted, as JSON and with the connection closed after
/// the answer.
pub const ENDPOINT: &'static str = "https://play.rust-lang.org/evaluate.json";

/// Concludes a submission from what the transport brought back: a failed
/// transport is [`Error::Hyper`], a body is decoded.
pub fn receive(reply: Result<Vec<u8>, hyper::Error>) -> (outcome: Result<Response, Error>)
    ensures
        match reply {
            Ok(body) => decodes_to(body@, outcome),
            Err(failure) => outcome == Err::<Response, Error>(Error::Hyper(failure)),
        },
{
    match reply {
        Ok(body) => decode(body.as_slice()),
        Err(failure) => Err(Error::from(failure)),
    }
}

} // verus!
