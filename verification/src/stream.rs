//! One direction of a logical channel, read as a sequence of typed items.

use vstd::prelude::*;
use std::marker::PhantomData;
use crate::error::RpcError;
use crate::message::PartOf;

verus! {

/// The messages `Whole` of one direction of a channel, read as items `Part`.
///
/// Each message becomes one item. The sequence has no bound of its own: it
/// ends where the peer ends the channel, or with the first failure, which is
/// its last item. A reader that wants no more items drops the stream and its
/// channel; the peer's next send then fails, and that is how the peer learns
/// of it.
#[derive(Debug)]
pub struct TypedStream<Part, Whole> {
    /// Whether the sequence can still give an item.
    pub live: bool,
    /// Ties the stream to the types of its items and messages.
    pub marker: PhantomData<(Part, Whole)>,
}

impl<Part: PartOf<Whole>, Whole> TypedStream<Part, Whole> {
    /// The stream, live or ended.
    pub open spec fn at(live: bool) -> Self {
        TypedStream { live, marker: PhantomData }
    }

    /// The stream of a channel of which nothing has been read.
    pub open spec fn fresh() -> Self {
        Self::at(true)
    }

    /// The stream after the channel gave `received`, and the item that the
    /// reader gets for it, if any.
    pub open spec fn on_received_spec<E>(self, received: Option<Result<Whole, RpcError<E>>>) -> (
        Self,
        Option<Result<Part, RpcError<E>>>,
    ) {
        if !self.live {
            (self, None)
        } else {
            match received {
                None => (Self::at(false), None),
                Some(Err(e)) => (Self::at(false), Some(Err(e))),
                Some(Ok(message)) => match Part::narrow_spec(message) {
                    Some(item) => (self, Some(Ok(item))),
                    None => (Self::at(false), Some(Err(RpcError::Mapping))),
                },
            }
        }
    }

    /// Every item that the reader gets while the channel gives `received`,
    /// one after the other.
    pub open spec fn items_spec<E>(self, received: Seq<Option<Result<Whole, RpcError<E>>>>) -> Seq<
        Result<Part, RpcError<E>>,
    >
        decreases received.len(),
    {
        if received.len() == 0 {
            Seq::empty()
        } else {
            let (next, item) = self.on_received_spec(received[0]);
            let rest = next.items_spec(received.skip(1));
            match item {
                Some(item) => seq![item] + rest,
                None => rest,
            }
        }
    }

    /// The stream of a channel of which nothing has been read.
    pub fn new() -> (stream: Self)
        ensures
            stream == Self::fresh(),
    {
        TypedStream { live: true, marker: PhantomData }
    }

    /// Whether the sequence can still give an item. Once it cannot, the
    /// runtime releases the channel.
    pub fn is_live(&self) -> (live: bool)
        ensures
            live == self.live,
    {
        self.live
    }

    /// Takes what the channel gave and hands on the reader's next item: a
    /// message becomes the item that it narrows to; a failure, or a message
    /// that narrows to nothing, becomes the last item; the end of the
    /// channel, and whatever arrives after the last item, gives nothing.
    pub fn on_received<E>(self, received: Option<Result<Whole, RpcError<E>>>) -> (step: (
        Self,
        Option<Result<Part, RpcError<E>>>,
    ))
        ensures
            step == self.on_received_spec(received),
    {
        if !self.live {
            (self, None)
        } else {
            match received {
                None => (TypedStream { live: false, marker: PhantomData }, None),
                Some(Err(e)) => (TypedStream { live: false, marker: PhantomData }, Some(Err(e))),
                Some(Ok(message)) => match Part::narrow(message) {
                    Some(item) => (self, Some(Ok(item))),
                    None => (
                        TypedStream { live: false, marker: PhantomData },
                        Some(Err(RpcError::Mapping)),
                    ),
                },
            }
        }
    }
}

/// What a channel gives when the peer has put `wire` on it and the transport
/// does not fail: each message, in order.
pub open spec fn arrivals<Whole, E>(wire: Seq<Whole>) -> Seq<Option<Result<Whole, RpcError<E>>>> {
    Seq::new(wire.len(), |i: int| Some(Ok(wire[i])))
}

/// A stream that has ended gives no further item, whatever arrives.
pub proof fn lemma_ended_stream_gives_nothing<Part: PartOf<Whole>, Whole, E>(
    received: Seq<Option<Result<Whole, RpcError<E>>>>,
)
    ensures
        TypedStream::<Part, Whole>::at(false).items_spec(received) == Seq::<
            Result<Part, RpcError<E>>,
        >::empty(),
    decreases received.len(),
{
    if received.len() > 0 {
        lemma_ended_stream_gives_nothing::<Part, Whole, E>(received.skip(1));
    }
}

/// A failure is the last item of a stream: every item before the last is a
/// value.
pub proof fn lemma_failure_ends_stream<Part: PartOf<Whole>, Whole, E>(
    stream: TypedStream<Part, Whole>,
    received: Seq<Option<Result<Whole, RpcError<E>>>>,
)
    ensures
        ({
            let items = stream.items_spec(received);
            forall|i: int| 0 <= i < items.len() - 1 ==> (#[trigger] items[i]) is Ok
        }),
    decreases received.len(),
{
    if received.len() > 0 {
        let (next, item) = stream.on_received_spec(received[0]);
        lemma_failure_ends_stream::<Part, Whole, E>(next, received.skip(1));
        if !next.live {
            assert(next == TypedStream::<Part, Whole>::at(false));
            lemma_ended_stream_gives_nothing::<Part, Whole, E>(received.skip(1));
        }
    }
}

/// A live stream reads the items off the channel as the peer put them on,
/// each widened: the same values, in the same order, none lost and none
/// added.
pub proof fn lemma_stream_reads_what_was_sent<Part: PartOf<Whole>, Whole, E>(sent: Seq<Part>)
    ensures
        TypedStream::<Part, Whole>::fresh().items_spec(
            arrivals::<Whole, E>(Seq::new(sent.len(), |i: int| sent[i].widen_spec())),
        ) == Seq::new(sent.len(), |i: int| Ok::<Part, RpcError<E>>(sent[i])),
    decreases sent.len(),
{
    let wire = Seq::new(sent.len(), |i: int| sent[i].widen_spec());
    let received = arrivals::<Whole, E>(wire);
    let items = TypedStream::<Part, Whole>::fresh().items_spec(received);
    let expected = Seq::new(sent.len(), |i: int| Ok::<Part, RpcError<E>>(sent[i]));
    if sent.len() == 0 {
        assert(items =~= expected);
    } else {
        sent[0].lemma_widen_narrow();
        let tail = sent.skip(1);
        let tail_wire = Seq::new(tail.len(), |i: int| tail[i].widen_spec());
        assert(received.skip(1) =~= arrivals::<Whole, E>(tail_wire));
        lemma_stream_reads_what_was_sent::<Part, Whole, E>(tail);
        assert(items =~= expected);
    }
}

} // verus!
