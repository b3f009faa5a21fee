//! The errors of the library.
use crate::stream::types::DecodeError;
use vstd::prelude::*;

verus! {

/// A failure of the connection that carries the frames.
#[derive(Clone, Debug, PartialEq, Eq)]
pub enum TransportError {
    /// The remote end closed the connection.
    Closed,
    /// Any other failure, as the connection reported it.
    Failure(String),
}

#[derive(Clone, Debug, PartialEq, Eq)]
pub enum Error {
    /// The connection failed while a reply or an event was awaited.
    Transport(TransportError),
    /// A frame did not decode.
    Decode(DecodeError),
    /// The session was asked for a subscription before it was streaming.
    UninitializedClient,
    /// The connection ended while a reply or an event was awaited.
    StreamClosed,
    /// The server refused the handshake, or answered it with an unexpected
    /// message; the reason says which.
    ConnectionFailure(String),
}

} // verus!
