//! Message types of a JSON-RPC based tool and context exchange protocol,
//! with a verified mapping between each type and its JSON wire form.
//!
//! Every message type has a view, a plain mathematical value, and is a
//! [`wire::Message`]: `to_json` is the wire form of such a value, and
//! `from_json` is the value that a piece of JSON denotes, or the reason why
//! it denotes none. `encode` and `decode` are proved to compute the two on
//! `serde_json` values, and beside each type stand the laws that relate them:
//! that decoding undoes encoding, that what is absent is left out and not
//! written as `null`, and that members without a meaning here come back as
//! they were.
//!
//! The modules: [`json`] is the model of JSON and the boundary to
//! `serde_json`; [`wire`] holds the trait, the decode errors and the text
//! functions; [`ident`], [`error`], [`capability`], [`request`] and
//! [`envelope`] hold the message types; [`version`] holds the version
//! strings; [`text`] writes numbers in decimal.

pub mod capability;
pub mod envelope;
pub mod error;
pub mod ident;
pub mod json;
pub mod request;
pub mod text;
pub mod version;
pub mod wire;

pub use crate::error::McpError;

use vstd::prelude::*;

verus! {

/// A typed request: something that names a method and may have parameters.
pub trait Request {
    /// The method to call.
    fn method(&self) -> &str;

    /// The parameters to send, if any.
    fn params(&self) -> Option<serde_json::Value>;
}

/// A typed notification: something that names a method and may have
/// parameters, and expects no answer.
pub trait Notification {
    /// The method that is notified.
    fn method(&self) -> &str;

    /// The parameters to send, if any.
    fn params(&self) -> Option<serde_json::Value>;
}

/// A typed outcome that can be reported as an error.
pub trait Result {
    /// The error to report.
    fn result(&self) -> McpError;
}

} // verus!
