//! The boxed adapter: a connection whose concrete type is erased, so that
//! connections of different transports fit behind one static type.

use vstd::prelude::*;
use std::sync::Arc;
use crate::transport::{Connection, ConnectionCommon};

verus! {

/// A connection for the messages `In` and `Out` that can be boxed: any such
/// connection that owns its data.
pub trait BoxableConnection<In, Out> {
}

impl<In, Out, C> BoxableConnection<In, Out> for C where
    C: Connection<In = In, Out = Out> + 'static,
 {
}

/// A half of a logical channel that can be boxed: any value that owns its
/// data.
pub trait BoxableHalf<T> {
}

impl<T, H: 'static> BoxableHalf<T> for H {
}

/// A connection for the messages `In` and `Out`, known as that and as
/// nothing more.
#[verifier::reject_recursive_types(In)]
#[verifier::reject_recursive_types(Out)]
pub struct ErasedConnection<In, Out> {
    /// The connection, as a trait object.
    pub handle: Box<dyn BoxableConnection<In, Out>>,
}

/// A half of a channel for the messages `T`, known as that and as nothing
/// more.
#[verifier::reject_recursive_types(T)]
pub struct ErasedHalf<T> {
    /// The half, as a trait object.
    pub handle: Box<dyn BoxableHalf<T>>,
}

/// The connection `connection` with its type erased: the same connection,
/// seen as a connection for the messages `In` and `Out` only.
pub open spec fn erased_connection<In, Out, C: BoxableConnection<In, Out> + 'static>(
    connection: C,
) -> ErasedConnection<In, Out> {
    ErasedConnection { handle: Box::new(connection) }
}

/// The half `half` of a channel with its type erased: the same half, seen
/// as a half for the messages `T` only.
pub open spec fn erased_half<T, H: 'static>(half: H) -> ErasedHalf<T> {
    ErasedHalf { handle: Box::new(half) }
}

/// The error of a boxed connection: the description of the error of the
/// transport underneath, whose type is erased with the connection's.
#[derive(Clone, Debug, PartialEq, Eq)]
pub struct BoxedError {
    /// What the transport underneath said of its error.
    pub description: String,
}

/// A connection for the messages `In` and `Out` of some erased type. Its
/// view is the connection that it holds.
#[verifier::reject_recursive_types(In)]
#[verifier::reject_recursive_types(Out)]
pub struct BoxedConnection<In, Out> {
    inner: Arc<ErasedConnection<In, Out>>,
}

impl<In, Out> View for BoxedConnection<In, Out> {
    type V = ErasedConnection<In, Out>;

    closed spec fn view(&self) -> Self::V {
        *self.inner
    }
}

impl<In, Out> BoxedConnection<In, Out> {
    /// Boxes `connection`: the result holds that connection, and holds it
    /// with its type erased. No channel is opened and nothing is
    /// duplicated.
    pub fn new<C: BoxableConnection<In, Out> + 'static>(connection: C) -> (boxed: Self)
        ensures
            boxed@ == erased_connection::<In, Out, C>(connection),
    {
        BoxedConnection { inner: Arc::new(ErasedConnection { handle: Box::new(connection) }) }
    }
}

impl<In, Out> Clone for BoxedConnection<In, Out> {
    /// Duplicates the handle. Both handles share the one connection in the
    /// box.
    fn clone(&self) -> (copy: Self)
        ensures
            copy@ == self@,
    {
        BoxedConnection { inner: self.inner.clone() }
    }
}

/// The receiving half of a channel of a boxed connection. Its view is the
/// half that it holds.
#[verifier::reject_recursive_types(In)]
pub struct BoxedRecvStream<In> {
    inner: ErasedHalf<In>,
}

impl<In> View for BoxedRecvStream<In> {
    type V = ErasedHalf<In>;

    closed spec fn view(&self) -> Self::V {
        self.inner
    }
}

impl<In> BoxedRecvStream<In> {
    /// Boxes the receiving half `stream`: the result holds that half, and
    /// holds it with its type erased.
    pub fn new<S: 'static>(stream: S) -> (boxed: Self)
        ensures
            boxed@ == erased_half::<In, S>(stream),
    {
        BoxedRecvStream { inner: ErasedHalf { handle: Box::new(stream) } }
    }
}

/// The sending half of a channel of a boxed connection. Its view is the
/// half that it holds.
#[verifier::reject_recursive_types(Out)]
pub struct BoxedSendSink<Out> {
    inner: ErasedHalf<Out>,
}

impl<Out> View for BoxedSendSink<Out> {
    type V = ErasedHalf<Out>;

    closed spec fn view(&self) -> Self::V {
        self.inner
    }
}

impl<Out> BoxedSendSink<Out> {
    /// Boxes the sending half `sink`: the result holds that half, and holds
    /// it with its type erased.
    pub fn new<S: 'static>(sink: S) -> (boxed: Self)
        ensures
            boxed@ == erased_half::<Out, S>(sink),
    {
        BoxedSendSink { inner: ErasedHalf { handle: Box::new(sink) } }
    }
}

impl<In, Out> ConnectionCommon for BoxedConnection<In, Out> {
    type In = In;

    type Out = Out;

    type Error = BoxedError;

    type RecvStream = BoxedRecvStream<In>;

    type SendSink = BoxedSendSink<Out>;
}

impl<In, Out> Connection for BoxedConnection<In, Out> {
}

} // verus!
