//! Client-side model of a remote Rust evaluation service: the typed
//! configuration of one submission, its JSON wire form, and the decoding of
//! the service's JSON reply.

pub mod config;
pub mod decode;
pub mod encode;
pub mod error;
pub mod exchange;
pub mod json;

pub use config::{serialize_backtrace, Channel, Optimize, Request};
pub use decode::{decode, decode_object, Response};
pub use encode::{encode, frame};
pub use error::{json_outcome, labelled, Error};
pub use exchange::{receive, ENDPOINT};
