//! The connection and endpoint abstraction, and its two structural adapters.
//!
//! A transport is an outside collaborator. The core sees a connection only
//! through the types that travel over its logical channels, and an adapter
//! only through what it does to one message at a time: an adapter adds a
//! conversion, never a resource of its own.

use vstd::prelude::*;
use crate::message::Service;

pub mod boxed;
pub mod mapped;

verus! {

/// What a logical channel of a connection or an endpoint carries.
pub trait ConnectionCommon {
    /// The type of the messages that arrive.
    type In;

    /// The type of the messages that are sent.
    type Out;

    /// The error type of the transport.
    type Error;

    /// The receiving half of a logical channel.
    type RecvStream;

    /// The sending half of a logical channel.
    type SendSink;
}

/// The client side of a transport session: the capability to open a fresh
/// logical channel to the peer. Channels are independent of each other and
/// carry no explicit address.
pub trait Connection: ConnectionCommon {
}

/// The server side of a transport session: the capability to accept the next
/// logical channel that a peer has opened.
pub trait ServerEndpoint: ConnectionCommon {
}

/// A connection that speaks the service `S`: it sends requests of `S` and
/// receives its responses.
pub trait ServiceConnection<S: Service>: Connection<In = S::Res, Out = S::Req> {
}

impl<S: Service, C: Connection<In = S::Res, Out = S::Req>> ServiceConnection<S> for C {
}

/// An endpoint that speaks the service `S`: it receives requests of `S` and
/// sends its responses.
pub trait ServiceEndpoint<S: Service>: ServerEndpoint<In = S::Req, Out = S::Res> {
}

impl<S: Service, C: ServerEndpoint<In = S::Req, Out = S::Res>> ServiceEndpoint<S> for C {
}

} // verus!
