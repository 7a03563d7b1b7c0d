//! The ways in which a call or a dispatch can fail.

use vstd::prelude::*;

verus! {

/// The kind of a failure, without its details.
#[derive(Clone, Copy, Debug, PartialEq, Eq, Structural)]
pub enum ErrorKind {
    /// Opening, sending or receiving failed at the transport.
    Transport,
    /// The transport could not encode or decode a value.
    Serialization,
    /// The peer ended the channel before the exchange was complete.
    ConnectionClosed,
    /// A value arrived that does not belong to the service it was mapped to.
    Mapping,
    /// The application's handler failed.
    Handler,
}

/// A failure on one logical channel. `E` is the error type of the transport.
#[derive(Clone, Debug, PartialEq, Eq)]
pub enum RpcError<E> {
    /// Opening, sending or receiving failed at the transport.
    Transport(E),
    /// The transport could not encode or decode a value.
    Serialization(E),
    /// The peer ended the channel before the exchange was complete.
    ConnectionClosed,
    /// A value arrived that does not belong to the service it was mapped to.
    Mapping,
}

impl<E> RpcError<E> {
    /// The kind of this failure.
    pub open spec fn kind_spec(self) -> ErrorKind {
        match self {
            RpcError::Transport(_) => ErrorKind::Transport,
            RpcError::Serialization(_) => ErrorKind::Serialization,
            RpcError::ConnectionClosed => ErrorKind::ConnectionClosed,
            RpcError::Mapping => ErrorKind::Mapping,
        }
    }

    /// The kind of this failure.
    pub fn kind(&self) -> (k: ErrorKind)
        ensures
            k == self.kind_spec(),
    {
        match self {
            RpcError::Transport(_) => ErrorKind::Transport,
            RpcError::Serialization(_) => ErrorKind::Serialization,
            RpcError::ConnectionClosed => ErrorKind::ConnectionClosed,
            RpcError::Mapping => ErrorKind::Mapping,
        }
    }
}

/// The failure of one dispatched request. It is confined to that request:
/// the endpoint and the other requests in flight are not affected.
#[derive(Clone, Debug, PartialEq, Eq)]
pub enum ServerError<E, H> {
    /// The request's channel failed.
    Channel(RpcError<E>),
    /// The handler failed; `H` is what it reported.
    Handler(H),
}

impl<E, H> ServerError<E, H> {
    /// The kind of this failure.
    pub open spec fn kind_spec(self) -> ErrorKind {
        match self {
            ServerError::Channel(e) => e.kind_spec(),
            ServerError::Handler(_) => ErrorKind::Handler,
        }
    }

    /// The kind of this failure.
    pub fn kind(&self) -> (k: ErrorKind)
        ensures
            k == self.kind_spec(),
    {
        match self {
            ServerError::Channel(e) => e.kind(),
            ServerError::Handler(_) => ErrorKind::Handler,
        }
    }
}

} // verus!
