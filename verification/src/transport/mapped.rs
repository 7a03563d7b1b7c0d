//! The mapped adapter: a channel of an outer service, seen as a channel of
//! one of its constituent services.

use vstd::prelude::*;
use std::marker::PhantomData;
use crate::error::RpcError;
use crate::message::{belongs, PartOf};
use crate::transport::{Connection, ConnectionCommon, ServerEndpoint};

verus! {

/// A connection for the messages `In` and `Out`, on top of a connection `C`
/// for the unions that they are constituents of.
pub struct MappedConnection<In, Out, C> {
    /// The connection underneath.
    pub inner: C,
    /// Ties the adapter to the types of its messages.
    pub marker: PhantomData<(In, Out)>,
}

impl<In, Out, C> MappedConnection<In, Out, C> {
    /// Wraps `inner`. No channel is opened and nothing is duplicated.
    pub fn new(inner: C) -> (mapped: Self)
        ensures
            mapped.inner == inner,
    {
        MappedConnection { inner, marker: PhantomData }
    }

    /// Gives the connection underneath back.
    pub fn into_inner(self) -> (inner: C)
        ensures
            inner == self.inner,
    {
        self.inner
    }
}

impl<In, Out, C: Clone> Clone for MappedConnection<In, Out, C> {
    /// Duplicates the adapter by duplicating the connection underneath.
    fn clone(&self) -> (copy: Self)
        ensures
            cloned(self.inner, copy.inner),
    {
        MappedConnection { inner: self.inner.clone(), marker: PhantomData }
    }
}

impl<In, Out, C> MappedConnection<In, Out, C> where
    C: ConnectionCommon,
    In: PartOf<C::In>,
    Out: PartOf<C::Out>,
 {
    /// What this connection makes of a channel that the connection
    /// underneath has opened: the same two halves, each behind its
    /// conversion.
    pub fn channel(&self, send: C::SendSink, recv: C::RecvStream) -> (halves: (
        MappedSendSink<C::SendSink, Out, C::Out>,
        MappedRecvStream<C::RecvStream, In>,
    ))
        ensures
            halves.0.inner == send,
            halves.1.inner == recv,
    {
        (MappedSendSink::new(send), MappedRecvStream::new(recv))
    }
}

impl<In, Out, C> ConnectionCommon for MappedConnection<In, Out, C> where
    C: ConnectionCommon,
    In: PartOf<C::In>,
    Out: PartOf<C::Out>,
 {
    type In = In;

    type Out = Out;

    type Error = C::Error;

    type RecvStream = MappedRecvStream<C::RecvStream, In>;

    type SendSink = MappedSendSink<C::SendSink, Out, C::Out>;
}

impl<In, Out, C> Connection for MappedConnection<In, Out, C> where
    C: Connection,
    In: PartOf<C::In>,
    Out: PartOf<C::Out>,
 {
}

/// The types of a server channel for the messages `In` and `Out`, on top of
/// the channel types of the endpoint `C`. It only names types and has no
/// value.
pub struct MappedEndpoint<In, Out, C> {
    /// Ties the marker to the types that it names.
    pub marker: PhantomData<(In, Out, C)>,
}

impl<In, Out, C> ConnectionCommon for MappedEndpoint<In, Out, C> where
    C: ConnectionCommon,
    In: PartOf<C::In>,
    Out: PartOf<C::Out>,
 {
    type In = In;

    type Out = Out;

    type Error = C::Error;

    type RecvStream = MappedRecvStream<C::RecvStream, In>;

    type SendSink = MappedSendSink<C::SendSink, Out, C::Out>;
}

impl<In, Out, C> ServerEndpoint for MappedEndpoint<In, Out, C> where
    C: ServerEndpoint,
    In: PartOf<C::In>,
    Out: PartOf<C::Out>,
 {
}

/// A receiving half that narrows every message of the half underneath to the
/// constituent `In`.
pub struct MappedRecvStream<S, In> {
    /// The receiving half underneath.
    pub inner: S,
    /// Ties the adapter to the type of its messages.
    pub marker: PhantomData<In>,
}

impl<S, In> MappedRecvStream<S, In> {
    /// Wraps `inner`.
    pub fn new(inner: S) -> (mapped: Self)
        ensures
            mapped.inner == inner,
    {
        MappedRecvStream { inner, marker: PhantomData }
    }

    /// Gives the receiving half underneath back.
    pub fn into_inner(self) -> (inner: S)
        ensures
            inner == self.inner,
    {
        self.inner
    }

    /// What this half hands on for one item of the half underneath: a
    /// message is narrowed, and one that does not belong to `In` becomes a
    /// mapping error; a failure passes unchanged.
    pub open spec fn convert_spec<Outer, E>(item: Result<Outer, RpcError<E>>) -> Result<
        In,
        RpcError<E>,
    > where In: PartOf<Outer> {
        match item {
            Ok(whole) => match In::narrow_spec(whole) {
                Some(part) => Ok(part),
                None => Err(RpcError::Mapping),
            },
            Err(e) => Err(e),
        }
    }

    /// Converts one item that the half underneath has delivered.
    pub fn convert<Outer, E>(item: Result<Outer, RpcError<E>>) -> (converted: Result<
        In,
        RpcError<E>,
    >) where In: PartOf<Outer>
        ensures
            converted == Self::convert_spec(item),
    {
        match item {
            Ok(whole) => match In::narrow(whole) {
                Some(part) => Ok(part),
                None => Err(RpcError::Mapping),
            },
            Err(e) => Err(e),
        }
    }
}

/// A sending half that widens every message `Out` to the union `OutS` of the
/// half underneath.
pub struct MappedSendSink<S, Out, OutS> {
    /// The sending half underneath.
    pub inner: S,
    /// Ties the adapter to the types of its messages.
    pub marker: PhantomData<(Out, OutS)>,
}

impl<S, Out, OutS> MappedSendSink<S, Out, OutS> {
    /// Wraps `inner`.
    pub fn new(inner: S) -> (mapped: Self)
        ensures
            mapped.inner == inner,
    {
        MappedSendSink { inner, marker: PhantomData }
    }

    /// Gives the sending half underneath back.
    pub fn into_inner(self) -> (inner: S)
        ensures
            inner == self.inner,
    {
        self.inner
    }
}

impl<S, Out: PartOf<OutS>, OutS> MappedSendSink<S, Out, OutS> {
    /// What this half hands to the half underneath for one message.
    pub open spec fn convert_spec(item: Out) -> OutS {
        item.widen_spec()
    }

    /// Converts one message on its way out. This cannot fail.
    pub fn convert(item: Out) -> (converted: OutS)
        ensures
            converted == Self::convert_spec(item),
    {
        item.widen()
    }
}

/// A value that does not belong to the inner service of a mapped receiving
/// half comes out of it as a mapping error, and as nothing else.
pub proof fn lemma_foreign_value_is_mapping_error<S, In: PartOf<Outer>, Outer, E>(value: Outer)
    requires
        !belongs::<In, Outer>(value),
    ensures
        MappedRecvStream::<S, In>::convert_spec::<Outer, E>(Ok(value)) == Err::<In, RpcError<E>>(
            RpcError::Mapping,
        ),
{
    crate::message::lemma_narrow_decides_belonging::<In, Outer>(value);
}

/// A mapped receiving half reports a mapping error only for a value that
/// does not belong to its inner service, or where the half underneath has
/// reported one already.
pub proof fn lemma_mapping_error_only_for_foreign_value<S, In: PartOf<Outer>, Outer, E>(
    item: Result<Outer, RpcError<E>>,
)
    requires
        MappedRecvStream::<S, In>::convert_spec::<Outer, E>(item) == Err::<In, RpcError<E>>(
            RpcError::Mapping,
        ),
    ensures
        match item {
            Ok(value) => !belongs::<In, Outer>(value),
            Err(e) => e == RpcError::<E>::Mapping,
        },
{
    if let Ok(value) = item {
        crate::message::lemma_narrow_decides_belonging::<In, Outer>(value);
    }
}

/// What a mapped sending half puts on a channel, the mapped receiving half
/// at the other end takes off unchanged.
pub proof fn lemma_mapped_round_trip<K, S, T: PartOf<Outer>, Outer, E>(message: T)
    ensures
        MappedRecvStream::<S, T>::convert_spec::<Outer, E>(
            Ok(MappedSendSink::<K, T, Outer>::convert_spec(message)),
        ) == Ok::<T, RpcError<E>>(message),
{
    message.lemma_widen_narrow();
}

/// The same through two layers of mapping: a message that is widened twice
/// on its way out is recovered by narrowing twice on its way in.
pub proof fn lemma_mapped_twice_round_trip<K, S, T: PartOf<Mid>, Mid: PartOf<Outer>, Outer, E>(
    message: T,
)
    ensures
        MappedRecvStream::<MappedRecvStream<S, Mid>, T>::convert_spec::<Mid, E>(
            MappedRecvStream::<S, Mid>::convert_spec::<Outer, E>(
                Ok(
                    MappedSendSink::<K, Mid, Outer>::convert_spec(
                        MappedSendSink::<MappedSendSink<K, Mid, Outer>, T, Mid>::convert_spec(
                            message,
                        ),
                    ),
                ),
            ),
        ) == Ok::<T, RpcError<E>>(message),
{
    message.lemma_widen_narrow();
    message.widen_spec().lemma_widen_narrow();
}

} // verus!
