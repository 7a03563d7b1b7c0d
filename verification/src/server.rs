//! The server side: the server handle, the channel of one accepted request,
//! and the dispatch of that request to a handler.

use vstd::prelude::*;
use std::marker::PhantomData;
use crate::error::{RpcError, ServerError};
use crate::message::{
    BidiStreamingMsg, ClientStreamingMsg, Msg, PartOf, ServerStreamingMsg, Service, SingleResponse,
    StreamedResponse, UnaryMsg,
};
use crate::stream::TypedStream;
use crate::task::Action;
use crate::transport::mapped::{MappedEndpoint, MappedRecvStream, MappedSendSink};
use crate::transport::{ConnectionCommon, ServiceEndpoint};

verus! {

/// A server for the service `S` over the endpoint `C`. Its view is that
/// endpoint.
#[derive(Debug)]
pub struct RpcServer<S, C> {
    source: C,
    marker: PhantomData<S>,
}

impl<S, C> View for RpcServer<S, C> {
    type V = C;

    closed spec fn view(&self) -> C {
        self.source
    }
}

impl<S, C: Clone> Clone for RpcServer<S, C> {
    /// Duplicates the handle by duplicating its endpoint.
    fn clone(&self) -> (copy: Self)
        ensures
            cloned(self@, copy@),
    {
        RpcServer { source: self.source.clone(), marker: PhantomData }
    }
}

impl<S: Service, C: ServiceEndpoint<S>> AsRef<C> for RpcServer<S, C> {
    fn as_ref(&self) -> (source: &C)
        ensures
            *source == self@,
    {
        &self.source
    }
}

impl<S: Service, C: ServiceEndpoint<S>> RpcServer<S, C> {
    /// What accepting a channel gives, from the first item of its request
    /// path: the request, or the reason why there is none.
    pub open spec fn accept_spec(first: Option<Result<S::Req, RpcError<C::Error>>>) -> Result<
        S::Req,
        RpcError<C::Error>,
    > {
        match first {
            None => Err(RpcError::ConnectionClosed),
            Some(Err(e)) => Err(e),
            Some(Ok(request)) => Ok(request),
        }
    }

    /// Makes a server for the service `S` out of an endpoint that speaks it.
    pub fn new(source: C) -> (server: Self)
        ensures
            server@ == source,
    {
        RpcServer { source, marker: PhantomData }
    }

    /// Gives the endpoint back.
    pub fn into_inner(self) -> (source: C)
        ensures
            source == self@,
    {
        self.source
    }

    /// Completes the acceptance of a channel whose two halves the endpoint
    /// has handed over, with the first item of its request path.
    ///
    /// A request comes back with the channel that its response is to go
    /// out on. Where the peer ended the channel without a request the
    /// result is `ConnectionClosed`, and where the transport reported a
    /// failure it is that failure; the halves are then dropped, and nothing
    /// else is affected.
    pub fn accept(
        &self,
        send: C::SendSink,
        recv: C::RecvStream,
        first: Option<Result<S::Req, RpcError<C::Error>>>,
    ) -> (accepted: Result<(S::Req, RpcChannel<S, C>), RpcError<C::Error>>)
        ensures
            match Self::accept_spec(first) {
                Ok(request) => accepted == Ok::<_, RpcError<C::Error>>(
                    (request, RpcChannel::<S, C>::of(send, recv)),
                ),
                Err(e) => accepted == Err::<(S::Req, RpcChannel<S, C>), _>(e),
            },
    {
        match first {
            None => Err(RpcError::ConnectionClosed),
            Some(Err(e)) => Err(e),
            Some(Ok(request)) => Ok((request, RpcChannel::new(send, recv))),
        }
    }
}

/// The channel of one accepted request: the path on which its responses go
/// out and, for the patterns with updates, the path on which those come in.
/// The request itself has been taken off the channel already. A channel is
/// dispatched, or mapped and then dispatched, exactly once.
#[derive(Debug)]
pub struct RpcChannel<S: Service, C: ServiceEndpoint<S>> {
    /// The sending half.
    pub send: C::SendSink,
    /// The receiving half.
    pub recv: C::RecvStream,
    /// Ties the channel to its service.
    pub marker: PhantomData<S>,
}

/// An accepted request whose handler has been invoked: the two halves of
/// its channel, for the runtime to act on, the task that decides what the
/// runtime does, and what the task starts with.
#[derive(Debug)]
pub struct Dispatched<C: ConnectionCommon, T, F> {
    /// The sending half of the channel.
    pub send: C::SendSink,
    /// The receiving half of the channel.
    pub recv: C::RecvStream,
    /// The task that takes the outcome of each step.
    pub task: T,
    /// For a unary request the first action; for a server-streaming request
    /// the sequence that the handler returned, whose first item the runtime
    /// is to await.
    pub first: F,
}

/// An accepted request with updates whose handler has been invoked. The
/// receiving half of the channel is the handler's, as the [`UpdateStream`]
/// that it was given; what is left is the sending half, for the runtime to
/// act on, the task that decides what the runtime does, and what the
/// handler returned.
#[derive(Debug)]
pub struct DispatchedWithUpdates<C: ConnectionCommon, T, P> {
    /// The sending half of the channel.
    pub send: C::SendSink,
    /// The task that takes the outcome of each step.
    pub task: T,
    /// For a client-streaming request what will become the handler's one
    /// response, which the runtime is to await; for a
    /// bidirectional-streaming request the sequence that the handler
    /// returned, whose first item the runtime is to await.
    pub pending: P,
}

/// The receiving half of the channel of an accepted request, for the
/// updates `T` that follow it.
#[derive(Debug)]
pub struct UpdateStream<C: ConnectionCommon, T> {
    /// The receiving half.
    pub recv: C::RecvStream,
    /// How the messages of the half are read as updates.
    pub updates: TypedStream<T, C::In>,
}

impl<C: ConnectionCommon, T: PartOf<C::In>> UpdateStream<C, T> {
    /// The update stream over the receiving half `recv`, of which nothing
    /// has been read.
    pub open spec fn of(recv: C::RecvStream) -> Self {
        UpdateStream { recv, updates: TypedStream::<T, C::In>::fresh() }
    }

    /// Wraps the receiving half `recv`.
    pub fn new(recv: C::RecvStream) -> (stream: Self)
        ensures
            stream == Self::of(recv),
    {
        UpdateStream { recv, updates: TypedStream::new() }
    }

    /// Gives the receiving half back.
    pub fn into_inner(self) -> (recv: C::RecvStream)
        ensures
            recv == self.recv,
    {
        self.recv
    }

    /// Whether a further update can arrive.
    pub fn is_live(&self) -> (live: bool)
        ensures
            live == self.updates.live,
    {
        self.updates.is_live()
    }

    /// Takes what the receiving half gave and hands on the handler's next
    /// update, as [`TypedStream::on_received`] does. The half stays as it
    /// is.
    pub fn on_received<E>(self, received: Option<Result<C::In, RpcError<E>>>) -> (step: (
        Self,
        Option<Result<T, RpcError<E>>>,
    ))
        ensures
            step.0.recv == self.recv,
            (step.0.updates, step.1) == self.updates.on_received_spec(received),
    {
        let (updates, item) = self.updates.on_received(received);
        (UpdateStream { recv: self.recv, updates }, item)
    }
}

impl<S: Service, C: ServiceEndpoint<S>> RpcChannel<S, C> {
    /// The channel with the given halves.
    pub open spec fn of(send: C::SendSink, recv: C::RecvStream) -> Self {
        RpcChannel { send, recv, marker: PhantomData }
    }

    /// Makes a channel of the two halves that an endpoint has accepted.
    pub fn new(send: C::SendSink, recv: C::RecvStream) -> (channel: Self)
        ensures
            channel == Self::of(send, recv),
    {
        RpcChannel { send, recv, marker: PhantomData }
    }

    /// Narrows the channel to the constituent service `SNext`, for a handler
    /// that has recognised the request as one of `SNext` and hands it on to
    /// the handler of that service. Responses of `SNext` are widened on
    /// their way out, requests of `S` narrowed on their way in. No half is
    /// opened, closed or duplicated.
    pub fn map<SNext>(self) -> (channel: RpcChannel<
        SNext,
        MappedEndpoint<SNext::Req, SNext::Res, C>,
    >) where SNext: Service, SNext::Req: PartOf<S::Req>, SNext::Res: PartOf<S::Res>
        ensures
            channel.send.inner == self.send,
            channel.recv.inner == self.recv,
    {
        RpcChannel::new(MappedSendSink::new(self.send), MappedRecvStream::new(self.recv))
    }

    /// Dispatches the unary request to `handler`, which is invoked once,
    /// with `state` and `request`.
    ///
    /// Where the handler gives a response, the task goes on by sending it,
    /// widened to the service's union; where the handler fails, the task
    /// ends at once with the handler's error and nothing is sent. Either
    /// way the failure, if any, stays with this one request.
    pub fn dispatch_unary<M, T, H, F>(self, request: M, state: T, handler: F) -> (dispatched:
        Dispatched<C, SingleDispatch<S, M>, Action<S::Res, DispatchResult<C::Error, H>>>) where
        M: UnaryMsg<S>,
        F: FnOnce(T, M) -> Result<M::Response, H>,

        requires
            handler.requires((state, request)),
        ensures
            dispatched.send == self.send,
            dispatched.recv == self.recv,
            exists|handled: Result<M::Response, H>| #[trigger]
                handler.ensures((state, request), handled) && (dispatched.task, dispatched.first)
                    == SingleDispatch::<S, M>::start_spec().on_handled_spec::<C::Error, H>(
                    handled,
                ),
    {
        let handled = handler(state, request);
        let (task, first) = SingleDispatch::start().on_handled(handled);
        Dispatched { send: self.send, recv: self.recv, task, first }
    }

    /// Dispatches the server-streaming request to `handler`, which is
    /// invoked once, with `state` and `request`, and returns the sequence
    /// of responses. The sequence is produced lazily and has no bound. The
    /// task starts by awaiting its first item.
    pub fn dispatch_server_streaming<M, T, P, F>(self, request: M, state: T, handler: F) -> (dispatched:
        Dispatched<C, StreamingDispatch<S, M>, P>) where
        M: ServerStreamingMsg<S>,
        F: FnOnce(T, M) -> P,

        requires
            handler.requires((state, request)),
        ensures
            dispatched.send == self.send,
            dispatched.recv == self.recv,
            handler.ensures((state, request), dispatched.first),
            dispatched.task == StreamingDispatch::<S, M>::start_spec(),
    {
        let producer = handler(state, request);
        Dispatched {
            send: self.send,
            recv: self.recv,
            task: StreamingDispatch::start(),
            first: producer,
        }
    }

    /// Dispatches the client-streaming request to `handler`, which is
    /// invoked once, with `state`, `request` and the stream of the updates
    /// that follow the request. What the handler returns stands for its one
    /// response: the runtime awaits it and reports it to
    /// [`SingleDispatch::on_handled`].
    pub fn dispatch_client_streaming<M, T, P, F>(self, request: M, state: T, handler: F) -> (dispatched:
        DispatchedWithUpdates<C, SingleDispatch<S, M>, P>) where
        M: ClientStreamingMsg<S>,
        F: FnOnce(T, M, UpdateStream<C, M::Update>) -> P,

        requires
            handler.requires((state, request, UpdateStream::<C, M::Update>::of(self.recv))),
        ensures
            dispatched.send == self.send,
            handler.ensures(
                (state, request, UpdateStream::<C, M::Update>::of(self.recv)),
                dispatched.pending,
            ),
            dispatched.task == SingleDispatch::<S, M>::start_spec(),
    {
        let pending = handler(state, request, UpdateStream::new(self.recv));
        DispatchedWithUpdates { send: self.send, task: SingleDispatch::start(), pending }
    }

    /// Dispatches the bidirectional-streaming request to `handler`, which
    /// is invoked once, with `state`, `request` and the stream of the
    /// updates that follow the request, and returns the sequence of
    /// responses. The task starts by awaiting the first item of that
    /// sequence.
    pub fn dispatch_bidi_streaming<M, T, P, F>(self, request: M, state: T, handler: F) -> (dispatched:
        DispatchedWithUpdates<C, StreamingDispatch<S, M>, P>) where
        M: BidiStreamingMsg<S>,
        F: FnOnce(T, M, UpdateStream<C, M::Update>) -> P,

        requires
            handler.requires((state, request, UpdateStream::<C, M::Update>::of(self.recv))),
        ensures
            dispatched.send == self.send,
            handler.ensures(
                (state, request, UpdateStream::<C, M::Update>::of(self.recv)),
                dispatched.pending,
            ),
            dispatched.task == StreamingDispatch::<S, M>::start_spec(),
    {
        let producer = handler(state, request, UpdateStream::new(self.recv));
        DispatchedWithUpdates { send: self.send, task: StreamingDispatch::start(), pending: producer }
    }
}

/// How far the dispatch of a request has come.
#[derive(Clone, Copy, Debug, PartialEq, Eq, Structural)]
pub enum DispatchPhase {
    /// The handler's one response is awaited.
    Handling,
    /// The next item of the handler's sequence is awaited.
    Producing,
    /// A response is being sent.
    Sending,
    /// The dispatch has ended and the channel is closed.
    Done,
}

/// The result of a dispatch with a handler that can fail with `H`.
pub type DispatchResult<E, H> = Result<(), ServerError<E, H>>;

/// The dispatch of a request that is answered by one response: send the
/// handler's response, then close the channel.
///
/// This is the dispatch of a unary request, and of a client-streaming
/// request, whose handler reads the updates before it gives its response.
#[derive(Debug)]
pub struct SingleDispatch<S: Service, M: Msg<S>> {
    /// How far the dispatch has come. It is never `Producing`.
    pub phase: DispatchPhase,
    /// Ties the dispatch to its request type.
    pub marker: PhantomData<(S, M)>,
}

impl<S: Service, M: Msg<S>> SingleDispatch<S, M> where M::Pattern: SingleResponse {
    /// The dispatch in the given phase.
    pub open spec fn at(phase: DispatchPhase) -> Self {
        SingleDispatch { phase, marker: PhantomData }
    }

    /// A fresh dispatch, which awaits what the handler returns.
    pub open spec fn start_spec() -> Self {
        Self::at(DispatchPhase::Handling)
    }

    /// The step after the handler has returned.
    pub open spec fn on_handled_spec<E, H>(self, handled: Result<M::Response, H>) -> (
        Self,
        Action<S::Res, DispatchResult<E, H>>,
    ) {
        match self.phase {
            DispatchPhase::Handling => match handled {
                Ok(response) => (
                    Self::at(DispatchPhase::Sending),
                    Action::Send(response.widen_spec()),
                ),
                Err(fault) => (
                    Self::at(DispatchPhase::Done),
                    Action::Finish(Err(ServerError::Handler(fault))),
                ),
            },
            _ => (self, Action::Wait),
        }
    }

    /// The step after the response was sent, or was not.
    pub open spec fn on_sent_spec<E, H>(self, outcome: Result<(), RpcError<E>>) -> (
        Self,
        Action<S::Res, DispatchResult<E, H>>,
    ) {
        match self.phase {
            DispatchPhase::Sending => match outcome {
                Ok(_) => (Self::at(DispatchPhase::Done), Action::Finish(Ok(()))),
                Err(e) => (
                    Self::at(DispatchPhase::Done),
                    Action::Finish(Err(ServerError::Channel(e))),
                ),
            },
            _ => (self, Action::Wait),
        }
    }

    /// Starts the dispatch. The runtime reports what the handler returns to
    /// [`Self::on_handled`].
    pub fn start() -> (task: Self)
        ensures
            task == Self::start_spec(),
    {
        SingleDispatch { phase: DispatchPhase::Handling, marker: PhantomData }
    }

    /// Whether the dispatch has ended.
    pub fn is_done(&self) -> (done: bool)
        ensures
            done == (self.phase is Done),
    {
        match self.phase {
            DispatchPhase::Done => true,
            _ => false,
        }
    }

    /// Takes what the handler returned: a response is to be sent, widened
    /// to the service's union; a failure ends the dispatch with the
    /// handler's error, and nothing is sent. In any other phase what is
    /// reported is ignored.
    pub fn on_handled<E, H>(self, handled: Result<M::Response, H>) -> (step: (
        Self,
        Action<S::Res, DispatchResult<E, H>>,
    ))
        ensures
            step == self.on_handled_spec::<E, H>(handled),
    {
        match self.phase {
            DispatchPhase::Handling => match handled {
                Ok(response) => (
                    SingleDispatch { phase: DispatchPhase::Sending, marker: PhantomData },
                    Action::Send(response.widen()),
                ),
                Err(fault) => (
                    SingleDispatch { phase: DispatchPhase::Done, marker: PhantomData },
                    Action::Finish(Err(ServerError::Handler(fault))),
                ),
            },
            _ => (self, Action::Wait),
        }
    }

    /// Takes the outcome of sending the response and ends the dispatch,
    /// with success or with the failure of the channel. In any other phase
    /// the outcome is ignored.
    pub fn on_sent<E, H>(self, outcome: Result<(), RpcError<E>>) -> (step: (
        Self,
        Action<S::Res, DispatchResult<E, H>>,
    ))
        ensures
            step == self.on_sent_spec::<E, H>(outcome),
    {
        match self.phase {
            DispatchPhase::Sending => match outcome {
                Ok(_) => (
                    SingleDispatch { phase: DispatchPhase::Done, marker: PhantomData },
                    Action::Finish(Ok(())),
                ),
                Err(e) => (
                    SingleDispatch { phase: DispatchPhase::Done, marker: PhantomData },
                    Action::Finish(Err(ServerError::Channel(e))),
                ),
            },
            _ => (self, Action::Wait),
        }
    }
}

/// The dispatch of a request that is answered by a sequence of responses:
/// forward each item of the handler's sequence onto the channel, one at a
/// time, until the sequence ends or a send fails, then close the channel.
///
/// The next item is asked for only after the last one was accepted, so a
/// slow peer holds the producer back; and a peer that has released the
/// channel makes the next send fail, which ends the dispatch.
///
/// This is the dispatch of a server-streaming request, and of a
/// bidirectional-streaming request, whose handler reads the updates while
/// it produces.
#[derive(Debug)]
pub struct StreamingDispatch<S: Service, M: Msg<S>> {
    /// How far the dispatch has come. It is never `Handling`.
    pub phase: DispatchPhase,
    /// Ties the dispatch to its request type.
    pub marker: PhantomData<(S, M)>,
}

impl<S: Service, M: Msg<S>> StreamingDispatch<S, M> where M::Pattern: StreamedResponse {
    /// The dispatch in the given phase.
    pub open spec fn at(phase: DispatchPhase) -> Self {
        StreamingDispatch { phase, marker: PhantomData }
    }

    /// A fresh dispatch, which awaits the first item.
    pub open spec fn start_spec() -> Self {
        Self::at(DispatchPhase::Producing)
    }

    /// The step after the sequence gave an item, or ended.
    pub open spec fn on_produced_spec<E>(self, item: Option<M::Response>) -> (
        Self,
        Action<S::Res, Result<(), RpcError<E>>>,
    ) {
        match self.phase {
            DispatchPhase::Producing => match item {
                Some(response) => (
                    Self::at(DispatchPhase::Sending),
                    Action::Send(response.widen_spec()),
                ),
                None => (Self::at(DispatchPhase::Done), Action::Finish(Ok(()))),
            },
            _ => (self, Action::Wait),
        }
    }

    /// The step after an item was sent, or was not.
    pub open spec fn on_sent_spec<E>(self, outcome: Result<(), RpcError<E>>) -> (
        Self,
        Action<S::Res, Result<(), RpcError<E>>>,
    ) {
        match self.phase {
            DispatchPhase::Sending => match outcome {
                Ok(_) => (Self::at(DispatchPhase::Producing), Action::Produce),
                Err(e) => (Self::at(DispatchPhase::Done), Action::Finish(Err(e))),
            },
            _ => (self, Action::Wait),
        }
    }

    /// Starts the dispatch. The runtime awaits the first item of the
    /// sequence and reports it to [`Self::on_produced`].
    pub fn start() -> (task: Self)
        ensures
            task == Self::start_spec(),
    {
        StreamingDispatch { phase: DispatchPhase::Producing, marker: PhantomData }
    }

    /// Whether the dispatch has ended.
    pub fn is_done(&self) -> (done: bool)
        ensures
            done == (self.phase is Done),
    {
        match self.phase {
            DispatchPhase::Done => true,
            _ => false,
        }
    }

    /// Takes the next item of the handler's sequence: an item is to be
    /// sent, widened to the service's union; the end of the sequence ends
    /// the dispatch with success. While an item is being sent, or after the
    /// end, what the sequence gives is ignored.
    pub fn on_produced<E>(self, item: Option<M::Response>) -> (step: (
        Self,
        Action<S::Res, Result<(), RpcError<E>>>,
    ))
        ensures
            step == self.on_produced_spec::<E>(item),
    {
        match self.phase {
            DispatchPhase::Producing => match item {
                Some(response) => (
                    StreamingDispatch { phase: DispatchPhase::Sending, marker: PhantomData },
                    Action::Send(response.widen()),
                ),
                None => (
                    StreamingDispatch { phase: DispatchPhase::Done, marker: PhantomData },
                    Action::Finish(Ok(())),
                ),
            },
            _ => (self, Action::Wait),
        }
    }

    /// Takes the outcome of sending an item: after a success the next item
    /// is asked for; a failure ends the dispatch with that failure, and no
    /// further item is asked for. In any other phase the outcome is
    /// ignored.
    pub fn on_sent<E>(self, outcome: Result<(), RpcError<E>>) -> (step: (
        Self,
        Action<S::Res, Result<(), RpcError<E>>>,
    ))
        ensures
            step == self.on_sent_spec(outcome),
    {
        match self.phase {
            DispatchPhase::Sending => match outcome {
                Ok(_) => (
                    StreamingDispatch { phase: DispatchPhase::Producing, marker: PhantomData },
                    Action::Produce,
                ),
                Err(e) => (
                    StreamingDispatch { phase: DispatchPhase::Done, marker: PhantomData },
                    Action::Finish(Err(e)),
                ),
            },
            _ => (self, Action::Wait),
        }
    }
}

} // verus!
