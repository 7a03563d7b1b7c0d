//! Whole exchanges: a call and the dispatch that answers it, joined by a
//! channel that delivers what was sent, in the order in which it was sent.
//!
//! Nothing here runs. The functions describe what the tasks of the client
//! and of the server do when a faithful runtime carries them out, and the
//! theorems state what then holds of every request and every handler.

use vstd::prelude::*;
use crate::client::{CallResult, SingleCall};
use crate::error::{RpcError, ServerError};
use crate::message::{PartOf, ServerStreamingMsg, Service, UnaryMsg};
use crate::server::{DispatchResult, SingleDispatch, StreamingDispatch};
use crate::stream::{arrivals, lemma_stream_reads_what_was_sent, TypedStream};
use crate::task::Action;
use crate::transport::mapped::{MappedRecvStream, MappedSendSink};

verus! {

/// What one unary exchange leaves behind.
pub struct UnaryExchange<Req, Res, T, E, H> {
    /// The messages that the client put on the channel.
    pub requests: Seq<Req>,
    /// The messages that the server put on the channel.
    pub replies: Seq<Res>,
    /// What the call ended with, if it ended.
    pub result: Option<CallResult<T, E>>,
    /// What the dispatch ended with, if it ended.
    pub served: Option<DispatchResult<E, H>>,
}

/// The unary exchange of `request` with a server whose handler returns
/// `handled` for it, over a transport that does not fail.
pub open spec fn unary_exchange<S: Service, M: UnaryMsg<S>, E, H>(
    request: M,
    handled: Result<M::Response, H>,
) -> UnaryExchange<S::Req, S::Res, M::Response, E, H> {
    let call = SingleCall::<S, M>::start_spec(request);
    let (call, asked) = call.on_opened_spec::<E>(Ok(()));
    let (call, _) = call.on_sent_spec::<E>(Ok(()));
    let (task, answered) = SingleDispatch::<S, M>::start_spec().on_handled_spec::<E, H>(
        handled,
    );
    let (_, served) = if answered is Send {
        task.on_sent_spec::<E, H>(Ok(()))
    } else {
        (task, answered)
    };
    let replies = answered.sent();
    let first = if replies.len() > 0 {
        Some(Ok(replies[0]))
    } else {
        None
    };
    let (_, done) = call.on_received_spec::<E>(first);
    UnaryExchange {
        requests: asked.sent(),
        replies,
        result: done.result(),
        served: served.result(),
    }
}

/// A unary call yields exactly what the handler returned for its request,
/// and each direction of the channel carries exactly one message: the
/// request, from which the server recovers the value that the client
/// passed, and the response.
///
/// Where the handler fails instead, nothing is sent back: the dispatch ends
/// with the handler's error and the call with `ConnectionClosed`.
pub proof fn theorem_unary_call_yields_handler_result<S: Service, M: UnaryMsg<S>, E, H>(
    request: M,
    handled: Result<M::Response, H>,
)
    ensures
        ({
            let exchange = unary_exchange::<S, M, E, H>(request, handled);
            &&& exchange.requests == seq![request.widen_spec()]
            &&& M::narrow_spec(exchange.requests[0]) == Some(request)
            &&& match handled {
                Ok(response) => {
                    &&& exchange.replies == seq![response.widen_spec()]
                    &&& exchange.result == Some(Ok::<M::Response, RpcError<E>>(response))
                    &&& exchange.served == Some(Ok::<(), ServerError<E, H>>(()))
                },
                Err(fault) => {
                    &&& exchange.replies == Seq::<S::Res>::empty()
                    &&& exchange.result == Some(
                        Err::<M::Response, RpcError<E>>(RpcError::ConnectionClosed),
                    )
                    &&& exchange.served == Some(
                        Err::<(), ServerError<E, H>>(ServerError::Handler(fault)),
                    )
                },
            }
        }),
{
    request.lemma_widen_narrow();
    if let Ok(response) = handled {
        response.lemma_widen_narrow();
    }
}

/// The unary exchange of `request` where the service `S` of the request is a
/// constituent of the service `Outer` that the transport speaks: the client
/// calls through a mapped connection, and the handler of `Outer`, having
/// recognised the request as one of `S`, hands it on with a mapped channel.
/// The messages on the channel are those of `Outer`.
pub open spec fn routed_unary_exchange<S: Service, Outer: Service, M: UnaryMsg<S>, E, H>(
    request: M,
    handled: Result<M::Response, H>,
) -> UnaryExchange<Outer::Req, Outer::Res, M::Response, E, H> where
    S::Req: PartOf<Outer::Req>,
    S::Res: PartOf<Outer::Res>,
 {
    let call = SingleCall::<S, M>::start_spec(request);
    let (call, asked) = call.on_opened_spec::<E>(Ok(()));
    let (call, _) = call.on_sent_spec::<E>(Ok(()));
    let (task, answered) = SingleDispatch::<S, M>::start_spec().on_handled_spec::<E, H>(
        handled,
    );
    let (_, served) = if answered is Send {
        task.on_sent_spec::<E, H>(Ok(()))
    } else {
        (task, answered)
    };
    let replies = answered.sent().map_values(
        |reply: S::Res| MappedSendSink::<(), S::Res, Outer::Res>::convert_spec(reply),
    );
    let first = if replies.len() > 0 {
        Some(MappedRecvStream::<(), S::Res>::convert_spec::<Outer::Res, E>(Ok(replies[0])))
    } else {
        None
    };
    let (_, done) = call.on_received_spec::<E>(first);
    UnaryExchange {
        requests: asked.sent().map_values(
            |asked: S::Req| MappedSendSink::<(), S::Req, Outer::Req>::convert_spec(asked),
        ),
        replies,
        result: done.result(),
        served: served.result(),
    }
}

/// A call that is routed through a layer of mapping ends as the same call
/// made directly at the constituent service ends, for the client and for
/// the server. Each direction of the channel still carries exactly one
/// message, which is the message of the direct call, widened once; and the
/// mapped channel of the server recovers the request of the direct call
/// from it.
pub proof fn theorem_routed_call_equals_direct_call<
    S: Service,
    Outer: Service,
    M: UnaryMsg<S>,
    E,
    H,
>(request: M, handled: Result<M::Response, H>) where
    S::Req: PartOf<Outer::Req>,
    S::Res: PartOf<Outer::Res>,

    ensures
        ({
            let routed = routed_unary_exchange::<S, Outer, M, E, H>(request, handled);
            let direct = unary_exchange::<S, M, E, H>(request, handled);
            &&& routed.result == direct.result
            &&& routed.served == direct.served
            &&& routed.requests == seq![direct.requests[0].widen_spec()]
            &&& routed.replies == direct.replies.map_values(|reply: S::Res| reply.widen_spec())
            &&& MappedRecvStream::<(), S::Req>::convert_spec::<Outer::Req, E>(
                Ok(routed.requests[0]),
            ) == Ok::<S::Req, RpcError<E>>(direct.requests[0])
        }),
{
    let routed = routed_unary_exchange::<S, Outer, M, E, H>(request, handled);
    let direct = unary_exchange::<S, M, E, H>(request, handled);
    theorem_unary_call_yields_handler_result::<S, M, E, H>(request, handled);
    request.widen_spec().lemma_widen_narrow();
    assert(routed.requests =~= seq![direct.requests[0].widen_spec()]);
    assert(routed.replies =~= direct.replies.map_values(|reply: S::Res| reply.widen_spec()));
    if let Ok(response) = handled {
        response.widen_spec().lemma_widen_narrow();
        response.lemma_widen_narrow();
    }
}

/// What one streaming dispatch leaves behind.
pub struct Forwarded<Res, E> {
    /// The messages that the peer accepted, in the order of their sending.
    pub wire: Seq<Res>,
    /// How often the handler's sequence was asked for an item.
    pub pulls: nat,
    /// What the dispatch ended with, if it ended.
    pub outcome: Option<Result<(), RpcError<E>>>,
}

/// The rest of a streaming dispatch that has come to `task` and now asks
/// for `action`, where the handler's sequence still holds `items` and the
/// peer accepts `accepted` more messages before it releases the channel;
/// every send after that fails with `failure`.
pub open spec fn forward<S: Service, M: ServerStreamingMsg<S>, E>(
    task: StreamingDispatch<S, M>,
    action: Action<S::Res, Result<(), RpcError<E>>>,
    items: Seq<M::Response>,
    accepted: nat,
    failure: RpcError<E>,
) -> Forwarded<S::Res, E>
    decreases 2 * items.len() + (if action is Send {
        1nat
    } else {
        0nat
    }),
{
    match action {
        Action::Produce => {
            if items.len() == 0 {
                let (_, last) = task.on_produced_spec::<E>(None);
                Forwarded { wire: Seq::empty(), pulls: 1, outcome: last.result() }
            } else {
                let (task, next) = task.on_produced_spec::<E>(Some(items[0]));
                let rest = forward(task, next, items.skip(1), accepted, failure);
                Forwarded { wire: rest.wire, pulls: rest.pulls + 1, outcome: rest.outcome }
            }
        },
        Action::Send(message) => {
            if accepted == 0 {
                let (_, last) = task.on_sent_spec(Err(failure));
                Forwarded { wire: Seq::empty(), pulls: 0, outcome: last.result() }
            } else {
                let (task, next) = task.on_sent_spec::<E>(Ok(()));
                let rest = forward(task, next, items, (accepted - 1) as nat, failure);
                Forwarded {
                    wire: seq![message] + rest.wire,
                    pulls: rest.pulls,
                    outcome: rest.outcome,
                }
            }
        },
        Action::Finish(result) => Forwarded {
            wire: Seq::empty(),
            pulls: 0,
            outcome: Some(result),
        },
        _ => Forwarded { wire: Seq::empty(), pulls: 0, outcome: None },
    }
}

/// The whole streaming dispatch of a handler whose sequence is `items`, to
/// a peer that accepts `accepted` messages.
pub open spec fn streaming_dispatch<S: Service, M: ServerStreamingMsg<S>, E>(
    items: Seq<M::Response>,
    accepted: nat,
    failure: RpcError<E>,
) -> Forwarded<S::Res, E> {
    forward::<S, M, E>(
        StreamingDispatch::<S, M>::start_spec(),
        Action::Produce,
        items,
        accepted,
        failure,
    )
}

/// The smaller of two numbers.
pub open spec fn at_most(a: nat, b: nat) -> nat {
    if a <= b {
        a
    } else {
        b
    }
}

/// A streaming dispatch puts the items on the channel in the order in which
/// the handler produced them, each widened, as far as the peer accepts
/// them. It ends with success where the sequence ended, and with the
/// failure of the send where the peer had released the channel; in that
/// case the sequence was asked for one item more than was accepted, and
/// for none after.
pub proof fn lemma_streaming_dispatch<S: Service, M: ServerStreamingMsg<S>, E>(
    items: Seq<M::Response>,
    accepted: nat,
    failure: RpcError<E>,
)
    ensures
        ({
            let run = streaming_dispatch::<S, M, E>(items, accepted, failure);
            let n = at_most(items.len(), accepted);
            &&& run.wire == Seq::new(n, |i: int| items[i].widen_spec())
            &&& run.pulls == n + 1
            &&& run.outcome == Some(
                if items.len() <= accepted {
                    Ok::<(), RpcError<E>>(())
                } else {
                    Err::<(), RpcError<E>>(failure)
                },
            )
        }),
    decreases items.len(),
{
    let run = streaming_dispatch::<S, M, E>(items, accepted, failure);
    let n = at_most(items.len(), accepted);
    let start = StreamingDispatch::<S, M>::start_spec();
    if items.len() == 0 {
        assert(run.wire =~= Seq::new(n, |i: int| items[i].widen_spec()));
    } else {
        let (sending, send) = start.on_produced_spec::<E>(Some(items[0]));
        let first = forward::<S, M, E>(sending, send, items.skip(1), accepted, failure);
        assert(run.wire == first.wire);
        assert(run.pulls == first.pulls + 1);
        if accepted == 0 {
            assert(run.wire =~= Seq::new(n, |i: int| items[i].widen_spec()));
        } else {
            let (producing, produce) = sending.on_sent_spec::<E>(Ok(()));
            assert(producing == start);
            let rest = streaming_dispatch::<S, M, E>(
                items.skip(1),
                (accepted - 1) as nat,
                failure,
            );
            assert(first.wire == seq![items[0].widen_spec()] + rest.wire);
            lemma_streaming_dispatch::<S, M, E>(items.skip(1), (accepted - 1) as nat, failure);
            assert(run.wire =~= Seq::new(n, |i: int| items[i].widen_spec()));
        }
    }
}

/// A server-streaming call preserves the order of production: over a peer
/// that reads `accepted` items and then drops the stream, the client has
/// read exactly the first items of the handler's sequence, in the handler's
/// order; and the handler's sequence is asked for at most one item after
/// the last one that was read.
pub proof fn theorem_streaming_preserves_order<S: Service, M: ServerStreamingMsg<S>, E>(
    items: Seq<M::Response>,
    accepted: nat,
    failure: RpcError<E>,
)
    ensures
        ({
            let run = streaming_dispatch::<S, M, E>(items, accepted, failure);
            let read = TypedStream::<M::Response, S::Res>::fresh().items_spec(
                arrivals::<S::Res, E>(run.wire),
            );
            let n = at_most(items.len(), accepted);
            &&& read == Seq::new(n, |i: int| Ok::<M::Response, RpcError<E>>(items[i]))
            &&& run.pulls <= accepted + 1
        }),
{
    let n = at_most(items.len(), accepted);
    lemma_streaming_dispatch::<S, M, E>(items, accepted, failure);
    let head = items.take(n as int);
    lemma_stream_reads_what_was_sent::<M::Response, S::Res, E>(head);
    let run = streaming_dispatch::<S, M, E>(items, accepted, failure);
    assert(run.wire =~= Seq::new(head.len(), |i: int| head[i].widen_spec()));
    assert(Seq::new(head.len(), |i: int| Ok::<M::Response, RpcError<E>>(head[i])) =~= Seq::new(
        n,
        |i: int| Ok::<M::Response, RpcError<E>>(items[i]),
    ));
}

/// What the client's end of a mapped channel hands on when the server's end
/// was given `wire` and the transport does not fail: each message is widened
/// on its way out and narrowed on its way in.
pub open spec fn routed_arrivals<Part: PartOf<Whole>, Whole, E>(wire: Seq<Part>) -> Seq<
    Option<Result<Part, RpcError<E>>>,
> {
    Seq::new(
        wire.len(),
        |i: int|
            Some(
                MappedRecvStream::<(), Part>::convert_spec::<Whole, E>(
                    Ok(MappedSendSink::<(), Part, Whole>::convert_spec(wire[i])),
                ),
            ),
    )
}

/// A layer of mapping delivers what it was given: the same messages, in the
/// same order.
pub proof fn lemma_routed_arrivals<Part: PartOf<Whole>, Whole, E>(wire: Seq<Part>)
    ensures
        routed_arrivals::<Part, Whole, E>(wire) == arrivals::<Part, E>(wire),
{
    assert forall|i: int| 0 <= i < wire.len() implies (#[trigger] routed_arrivals::<Part, Whole, E>(
        wire,
    )[i]) == arrivals::<Part, E>(wire)[i] by {
        wire[i].lemma_widen_narrow();
    }
    assert(routed_arrivals::<Part, Whole, E>(wire) =~= arrivals::<Part, E>(wire));
}

/// A server-streaming call that is routed through a layer of mapping reads
/// what the same call made directly at the constituent service reads: the
/// first items of the handler's sequence, in the handler's order.
pub proof fn theorem_routed_stream_equals_direct_stream<
    S: Service,
    Outer: Service,
    M: ServerStreamingMsg<S>,
    E,
>(items: Seq<M::Response>, accepted: nat, failure: RpcError<E>) where
    S::Res: PartOf<Outer::Res>,

    ensures
        ({
            let run = streaming_dispatch::<S, M, E>(items, accepted, failure);
            let n = at_most(items.len(), accepted);
            TypedStream::<M::Response, S::Res>::fresh().items_spec(
                routed_arrivals::<S::Res, Outer::Res, E>(run.wire),
            ) == Seq::new(n, |i: int| Ok::<M::Response, RpcError<E>>(items[i]))
        }),
{
    let run = streaming_dispatch::<S, M, E>(items, accepted, failure);
    lemma_routed_arrivals::<S::Res, Outer::Res, E>(run.wire);
    theorem_streaming_preserves_order::<S, M, E>(items, accepted, failure);
}

} // verus!
