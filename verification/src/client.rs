//! The client side: the client handle and the calls that it issues.

use vstd::prelude::*;
use std::marker::PhantomData;
use crate::error::RpcError;
use crate::message::{
    BidiStreamingMsg, ClientStreamingMsg, Msg, PartOf, ServerStreamingMsg, Service, SingleResponse,
    StreamedResponse, UnaryMsg,
};
use crate::stream::TypedStream;
use crate::task::Action;
use crate::transport::boxed::{erased_connection, BoxableConnection, BoxedConnection};
use crate::transport::mapped::MappedConnection;
use crate::transport::{ConnectionCommon, ServiceConnection};

verus! {

/// A boxed connection to the service `S`.
pub type BoxedServiceConnection<S> = BoxedConnection<<S as Service>::Res, <S as Service>::Req>;

/// A client for the service `S` over the connection `C`.
///
/// The handle owns its connection and nothing else. Its view is that
/// connection.
#[derive(Debug)]
pub struct RpcClient<S, C = BoxedServiceConnection<S>> {
    source: C,
    marker: PhantomData<S>,
}

impl<S, C> View for RpcClient<S, C> {
    type V = C;

    closed spec fn view(&self) -> C {
        self.source
    }
}

impl<S, C: Clone> Clone for RpcClient<S, C> {
    /// Duplicates the handle by duplicating its connection, which for a
    /// connection means sharing the transport session underneath.
    fn clone(&self) -> (copy: Self)
        ensures
            cloned(self@, copy@),
    {
        RpcClient { source: self.source.clone(), marker: PhantomData }
    }
}

impl<S: Service, C: ServiceConnection<S>> AsRef<C> for RpcClient<S, C> {
    fn as_ref(&self) -> (source: &C)
        ensures
            *source == self@,
    {
        &self.source
    }
}

impl<S: Service, C: ServiceConnection<S>> RpcClient<S, C> {
    /// Makes a client for the service `S` out of a connection that speaks it.
    pub fn new(source: C) -> (client: Self)
        ensures
            client@ == source,
    {
        RpcClient { source, marker: PhantomData }
    }

    /// Gives the connection back.
    pub fn into_inner(self) -> (source: C)
        ensures
            source == self@,
    {
        self.source
    }

    /// Narrows the client to the constituent service `SNext`: the result
    /// speaks `SNext` through the mapped adapter over this connection. The
    /// result can be mapped again, without limit.
    pub fn map<SNext>(self) -> (client: RpcClient<
        SNext,
        MappedConnection<SNext::Res, SNext::Req, C>,
    >) where SNext: Service, SNext::Req: PartOf<S::Req>, SNext::Res: PartOf<S::Res>
        ensures
            client@.inner == self@,
    {
        RpcClient::new(MappedConnection::new(self.source))
    }

    /// Erases the type of the connection: the result speaks `S` through the
    /// boxed adapter over this connection, which it holds with its type
    /// erased.
    pub fn boxed(self) -> (client: RpcClient<S, BoxedServiceConnection<S>>) where
        C: BoxableConnection<S::Res, S::Req> + 'static,

        ensures
            client@@ == erased_connection::<S::Res, S::Req, C>(self@),
    {
        RpcClient::new(BoxedConnection::new(self.source))
    }

    /// Issues the unary call `request`. The runtime opens a channel and
    /// reports the outcome to [`SingleCall::on_opened`].
    pub fn unary_call<M: UnaryMsg<S>>(&self, request: M) -> (call: SingleCall<S, M>)
        ensures
            call == SingleCall::<S, M>::start_spec(request),
    {
        SingleCall::start(request)
    }

    /// Issues the server-streaming call `request`. The runtime opens a
    /// channel and reports the outcome to [`StreamingCall::on_opened`].
    pub fn server_streaming_call<M: ServerStreamingMsg<S>>(&self, request: M) -> (call:
        StreamingCall<S, M>)
        ensures
            call == StreamingCall::<S, M>::start_spec(request),
    {
        StreamingCall::start(request)
    }

    /// Issues the client-streaming call `request`. The runtime opens a
    /// channel and reports the outcome to [`SingleCall::on_opened`]. Once
    /// the request is sent, the sending half of the channel is the caller's,
    /// as an [`UpdateSink`] for the updates of `M`.
    pub fn client_streaming_call<M: ClientStreamingMsg<S>>(&self, request: M) -> (call: SingleCall<
        S,
        M,
    >)
        ensures
            call == SingleCall::<S, M>::start_spec(request),
    {
        SingleCall::start(request)
    }

    /// Issues the bidirectional-streaming call `request`. The runtime opens
    /// a channel and reports the outcome to [`StreamingCall::on_opened`].
    /// Once the request is sent, the sending half of the channel is the
    /// caller's, as an [`UpdateSink`] for the updates of `M`.
    pub fn bidi_streaming_call<M: BidiStreamingMsg<S>>(&self, request: M) -> (call: StreamingCall<
        S,
        M,
    >)
        ensures
            call == StreamingCall::<S, M>::start_spec(request),
    {
        StreamingCall::start(request)
    }
}

/// The sending half of a channel, for the updates `T` that follow the
/// request of a client-streaming or bidirectional-streaming call.
#[derive(Debug)]
pub struct UpdateSink<C: ConnectionCommon, T>(pub C::SendSink, pub PhantomData<T>);

impl<C: ConnectionCommon, T: PartOf<C::Out>> UpdateSink<C, T> {
    /// Wraps the sending half `sink`.
    pub fn new(sink: C::SendSink) -> (updates: Self)
        ensures
            updates.0 == sink,
    {
        UpdateSink(sink, PhantomData)
    }

    /// Gives the sending half back.
    pub fn into_inner(self) -> (sink: C::SendSink)
        ensures
            sink == self.0,
    {
        self.0
    }

    /// The message that the sending half is given for the update `item`.
    pub fn convert(item: T) -> (message: C::Out)
        ensures
            message == item.widen_spec(),
    {
        item.widen()
    }
}

/// How far a call has come.
#[derive(Clone, Debug, PartialEq, Eq)]
pub enum CallPhase<Req> {
    /// A channel was asked for. The request waits to be sent on it.
    Opening(Req),
    /// The request is being sent.
    Sending,
    /// The request was sent, the response is awaited.
    Receiving,
    /// The call has ended.
    Done,
}

/// The result of a call, or of one item of a streaming call.
pub type CallResult<T, E> = Result<T, RpcError<E>>;

/// A call in progress that is answered by one response: open a channel, send
/// the request, await exactly one response, release the channel.
///
/// This is a unary call. It is also a client-streaming call, in which the
/// caller sends its updates on the channel while the response is awaited.
#[derive(Debug)]
pub struct SingleCall<S: Service, M: Msg<S>> {
    /// How far the call has come.
    pub phase: CallPhase<S::Req>,
    /// Ties the call to its request type.
    pub marker: PhantomData<M>,
}

impl<S: Service, M: Msg<S>> SingleCall<S, M> where M::Pattern: SingleResponse {
    /// The call in the given phase.
    pub open spec fn at(phase: CallPhase<S::Req>) -> Self {
        SingleCall { phase, marker: PhantomData }
    }

    /// A fresh call: the request is widened to the service's union, once.
    pub open spec fn start_spec(request: M) -> Self {
        Self::at(CallPhase::Opening(request.widen_spec()))
    }

    /// What the first message of the response path means for the call.
    pub open spec fn response_spec<E>(first: Option<CallResult<S::Res, E>>) -> CallResult<
        M::Response,
        E,
    > {
        match first {
            None => Err(RpcError::ConnectionClosed),
            Some(Err(e)) => Err(e),
            Some(Ok(message)) => match M::Response::narrow_spec(message) {
                Some(response) => Ok(response),
                None => Err(RpcError::Mapping),
            },
        }
    }

    /// The step after the channel was opened, or was not.
    pub open spec fn on_opened_spec<E>(self, outcome: CallResult<(), E>) -> (
        Self,
        Action<S::Req, CallResult<M::Response, E>>,
    ) {
        match self.phase {
            CallPhase::Opening(request) => match outcome {
                Ok(_) => (Self::at(CallPhase::Sending), Action::Send(request)),
                Err(e) => (Self::at(CallPhase::Done), Action::Finish(Err(e))),
            },
            _ => (self, Action::Wait),
        }
    }

    /// The step after the request was sent, or was not.
    pub open spec fn on_sent_spec<E>(self, outcome: CallResult<(), E>) -> (
        Self,
        Action<S::Req, CallResult<M::Response, E>>,
    ) {
        match self.phase {
            CallPhase::Sending => match outcome {
                Ok(_) => (Self::at(CallPhase::Receiving), Action::Receive),
                Err(e) => (Self::at(CallPhase::Done), Action::Finish(Err(e))),
            },
            _ => (self, Action::Wait),
        }
    }

    /// The step after the response path gave its first item, or ended.
    pub open spec fn on_received_spec<E>(self, first: Option<CallResult<S::Res, E>>) -> (
        Self,
        Action<S::Req, CallResult<M::Response, E>>,
    ) {
        match self.phase {
            CallPhase::Receiving => (
                Self::at(CallPhase::Done),
                Action::Finish(Self::response_spec(first)),
            ),
            _ => (self, Action::Wait),
        }
    }

    /// Starts a call with `request`.
    pub fn start(request: M) -> (call: Self)
        ensures
            call == Self::start_spec(request),
    {
        SingleCall { phase: CallPhase::Opening(request.widen()), marker: PhantomData }
    }

    /// Whether the call has ended.
    pub fn is_done(&self) -> (done: bool)
        ensures
            done == (self.phase is Done),
    {
        match self.phase {
            CallPhase::Done => true,
            _ => false,
        }
    }

    /// Takes the outcome of opening the channel. On success the request is
    /// to be sent; on failure the call ends with that failure. In any other
    /// phase the outcome is ignored.
    pub fn on_opened<E>(self, outcome: CallResult<(), E>) -> (step: (
        Self,
        Action<S::Req, CallResult<M::Response, E>>,
    ))
        ensures
            step == self.on_opened_spec(outcome),
    {
        match self.phase {
            CallPhase::Opening(request) => match outcome {
                Ok(_) => (
                    SingleCall { phase: CallPhase::Sending, marker: PhantomData },
                    Action::Send(request),
                ),
                Err(e) => (
                    SingleCall { phase: CallPhase::Done, marker: PhantomData },
                    Action::Finish(Err(e)),
                ),
            },
            phase => (SingleCall { phase, marker: PhantomData }, Action::Wait),
        }
    }

    /// Takes the outcome of sending the request. On success the response is
    /// to be received; on failure the call ends with that failure. In any
    /// other phase the outcome is ignored.
    pub fn on_sent<E>(self, outcome: CallResult<(), E>) -> (step: (
        Self,
        Action<S::Req, CallResult<M::Response, E>>,
    ))
        ensures
            step == self.on_sent_spec(outcome),
    {
        match self.phase {
            CallPhase::Sending => match outcome {
                Ok(_) => (
                    SingleCall { phase: CallPhase::Receiving, marker: PhantomData },
                    Action::Receive,
                ),
                Err(e) => (
                    SingleCall { phase: CallPhase::Done, marker: PhantomData },
                    Action::Finish(Err(e)),
                ),
            },
            phase => (SingleCall { phase, marker: PhantomData }, Action::Wait),
        }
    }

    /// Takes the first item of the response path and ends the call: with
    /// the response that the message narrows to, with a mapping error where
    /// it narrows to none, with the failure that the transport reported, or
    /// with `ConnectionClosed` where the peer ended the channel first. In
    /// any other phase the item is ignored.
    pub fn on_received<E>(self, first: Option<CallResult<S::Res, E>>) -> (step: (
        Self,
        Action<S::Req, CallResult<M::Response, E>>,
    ))
        ensures
            step == self.on_received_spec(first),
    {
        match self.phase {
            CallPhase::Receiving => {
                let result = match first {
                    None => Err(RpcError::ConnectionClosed),
                    Some(Err(e)) => Err(e),
                    Some(Ok(message)) => match M::Response::narrow(message) {
                        Some(response) => Ok(response),
                        None => Err(RpcError::Mapping),
                    },
                };
                (SingleCall { phase: CallPhase::Done, marker: PhantomData }, Action::Finish(result))
            },
            phase => (SingleCall { phase, marker: PhantomData }, Action::Wait),
        }
    }
}

/// A call in progress that is answered by a sequence of responses: open a
/// channel and send the request. Once that is done the call ends with the
/// [`ResponseStream`] that reads the responses, and the channel stays with
/// that stream.
///
/// This is a server-streaming call. It is also a bidirectional-streaming
/// call, in which the caller sends its updates on the channel while the
/// responses are read.
#[derive(Debug)]
pub struct StreamingCall<S: Service, M: Msg<S>> {
    /// How far the call has come. It is never `Receiving`.
    pub phase: CallPhase<S::Req>,
    /// Ties the call to its request type.
    pub marker: PhantomData<M>,
}

impl<S: Service, M: Msg<S>> StreamingCall<S, M> where M::Pattern: StreamedResponse {
    /// The call in the given phase.
    pub open spec fn at(phase: CallPhase<S::Req>) -> Self {
        StreamingCall { phase, marker: PhantomData }
    }

    /// A fresh call: the request is widened to the service's union, once.
    pub open spec fn start_spec(request: M) -> Self {
        Self::at(CallPhase::Opening(request.widen_spec()))
    }

    /// The step after the channel was opened, or was not.
    pub open spec fn on_opened_spec<E>(self, outcome: CallResult<(), E>) -> (
        Self,
        Action<S::Req, CallResult<ResponseStream<S, M>, E>>,
    ) {
        match self.phase {
            CallPhase::Opening(request) => match outcome {
                Ok(_) => (Self::at(CallPhase::Sending), Action::Send(request)),
                Err(e) => (Self::at(CallPhase::Done), Action::Finish(Err(e))),
            },
            _ => (self, Action::Wait),
        }
    }

    /// The step after the request was sent, or was not.
    pub open spec fn on_sent_spec<E>(self, outcome: CallResult<(), E>) -> (
        Self,
        Action<S::Req, CallResult<ResponseStream<S, M>, E>>,
    ) {
        match self.phase {
            CallPhase::Sending => match outcome {
                Ok(_) => (
                    Self::at(CallPhase::Done),
                    Action::Finish(Ok(ResponseStream::<S, M>::fresh())),
                ),
                Err(e) => (Self::at(CallPhase::Done), Action::Finish(Err(e))),
            },
            _ => (self, Action::Wait),
        }
    }

    /// Starts a call with `request`.
    pub fn start(request: M) -> (call: Self)
        ensures
            call == Self::start_spec(request),
    {
        StreamingCall { phase: CallPhase::Opening(request.widen()), marker: PhantomData }
    }

    /// Whether the call has ended.
    pub fn is_done(&self) -> (done: bool)
        ensures
            done == (self.phase is Done),
    {
        match self.phase {
            CallPhase::Done => true,
            _ => false,
        }
    }

    /// Takes the outcome of opening the channel. On success the request is
    /// to be sent; on failure the call ends with that failure. In any other
    /// phase the outcome is ignored.
    pub fn on_opened<E>(self, outcome: CallResult<(), E>) -> (step: (
        Self,
        Action<S::Req, CallResult<ResponseStream<S, M>, E>>,
    ))
        ensures
            step == self.on_opened_spec(outcome),
    {
        match self.phase {
            CallPhase::Opening(request) => match outcome {
                Ok(_) => (
                    StreamingCall { phase: CallPhase::Sending, marker: PhantomData },
                    Action::Send(request),
                ),
                Err(e) => (
                    StreamingCall { phase: CallPhase::Done, marker: PhantomData },
                    Action::Finish(Err(e)),
                ),
            },
            phase => (StreamingCall { phase, marker: PhantomData }, Action::Wait),
        }
    }

    /// Takes the outcome of sending the request. On success the call ends
    /// with a fresh stream of responses, which keeps the channel; on failure
    /// it ends with that failure. In any other phase the outcome is ignored.
    pub fn on_sent<E>(self, outcome: CallResult<(), E>) -> (step: (
        Self,
        Action<S::Req, CallResult<ResponseStream<S, M>, E>>,
    ))
        ensures
            step == self.on_sent_spec(outcome),
    {
        match self.phase {
            CallPhase::Sending => match outcome {
                Ok(_) => (
                    StreamingCall { phase: CallPhase::Done, marker: PhantomData },
                    Action::Finish(Ok(TypedStream::new())),
                ),
                Err(e) => (
                    StreamingCall { phase: CallPhase::Done, marker: PhantomData },
                    Action::Finish(Err(e)),
                ),
            },
            phase => (StreamingCall { phase, marker: PhantomData }, Action::Wait),
        }
    }
}

/// The sequence of responses of a call with the request type `M`, as its
/// consumer reads it off the channel.
pub type ResponseStream<S, M> = TypedStream<<M as Msg<S>>::Response, <S as Service>::Res>;

} // verus!
