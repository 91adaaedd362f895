//! A typed client library for a home-lighting-bridge HTTP/JSON API.
//!
//! The verified core normalizes heterogeneous bridge responses into a single
//! result type and serializes sparse modifier values into the bridge's flat
//! wire format.

use vstd::prelude::*;

verus! {

/// Errors surfaced by the library.
#[derive(Debug, Clone, PartialEq, Eq)]
pub enum Error {
    /// The bridge explicitly reported an error record for a write operation.
    Response(crate::response::Error),
    /// A payload did not match the expected shape for the requested type.
    Decode,
    /// A resource reference string used an unrecognized resource-kind prefix.
    UnknownLinkKind(String),
    /// A creation response did not carry the new identifier.
    GetCreatedId,
    /// A transport-level failure, carried through from the I/O layer.
    Transport(String),
}

} // verus!

pub mod bridge;
pub mod json;
pub mod resource;
pub mod response;

pub use bridge::Bridge;
pub use response::Response;
