//! Services, aggregate message unions and interaction patterns.

use vstd::prelude::*;

verus! {

/// A service: the aggregate request type and the aggregate response type of
/// one service layer. It is a compile-time marker and is never instantiated.
pub trait Service {
    /// The union of every request that the service accepts.
    type Req;

    /// The union of every response that the service gives.
    type Res;
}

/// A constituent of the aggregate union `Whole`.
///
/// Widening wraps a constituent into the union and never fails. Narrowing
/// extracts it again and fails exactly for the values of the union that are
/// no widening of a value of this type. The two laws are obligations of every
/// implementation, so generic code may rely on them.
pub trait PartOf<Whole>: Sized {
    /// The value of the union that wraps `self`.
    spec fn widen_spec(self) -> Whole;

    /// The constituent that `whole` wraps, if it wraps one of this type.
    spec fn narrow_spec(whole: Whole) -> Option<Self>;

    /// Widening and then narrowing gives the same value back.
    proof fn lemma_widen_narrow(self)
        ensures
            Self::narrow_spec(self.widen_spec()) == Some(self),
    ;

    /// Narrowing succeeds only on a value that widening produces.
    proof fn lemma_narrow_widen(whole: Whole)
        ensures
            Self::narrow_spec(whole) matches Some(part) ==> part.widen_spec() == whole,
    ;

    /// Wraps `self` into the union.
    fn widen(self) -> (whole: Whole)
        ensures
            whole == self.widen_spec(),
    ;

    /// Extracts the constituent from the union, or `None` where `whole`
    /// belongs to another constituent.
    fn narrow(whole: Whole) -> (part: Option<Self>)
        ensures
            part == Self::narrow_spec(whole),
    ;
}

/// Every type is the single constituent of itself: a service reaches its own
/// messages without any wrapping.
impl<T> PartOf<T> for T {
    open spec fn widen_spec(self) -> T {
        self
    }

    open spec fn narrow_spec(whole: T) -> Option<T> {
        Some(whole)
    }

    proof fn lemma_widen_narrow(self) {
    }

    proof fn lemma_narrow_widen(whole: T) {
    }

    fn widen(self) -> T {
        self
    }

    fn narrow(whole: T) -> Option<T> {
        Some(whole)
    }
}

/// Whether `whole` is the widening of some value of `Part`.
pub open spec fn belongs<Part: PartOf<Whole>, Whole>(whole: Whole) -> bool {
    exists|part: Part| #[trigger] part.widen_spec() == whole
}

/// Round-trip law: wrapping a constituent into its union and narrowing back
/// yields the value that was wrapped, unchanged.
pub proof fn lemma_round_trip<Part: PartOf<Whole>, Whole>(part: Part)
    ensures
        Part::narrow_spec(part.widen_spec()) == Some(part),
        belongs::<Part, Whole>(part.widen_spec()),
{
    part.lemma_widen_narrow();
}

/// Narrowing succeeds exactly on the values that belong to the constituent,
/// and then returns the value that was wrapped.
pub proof fn lemma_narrow_decides_belonging<Part: PartOf<Whole>, Whole>(whole: Whole)
    ensures
        Part::narrow_spec(whole) is Some <==> belongs::<Part, Whole>(whole),
        Part::narrow_spec(whole) matches Some(part) ==> part.widen_spec() == whole,
{
    Part::lemma_narrow_widen(whole);
    if belongs::<Part, Whole>(whole) {
        let part = choose|part: Part| #[trigger] part.widen_spec() == whole;
        part.lemma_widen_narrow();
    }
}

/// Widening is injective: two constituents with the same widening are equal.
pub proof fn lemma_widen_injective<Part: PartOf<Whole>, Whole>(a: Part, b: Part)
    requires
        a.widen_spec() == b.widen_spec(),
    ensures
        a == b,
{
    a.lemma_widen_narrow();
    b.lemma_widen_narrow();
}

/// The shape of one interaction between a client and a server.
#[derive(Clone, Copy, Debug, PartialEq, Eq, Structural)]
pub enum Pattern {
    /// One request, exactly one response.
    Unary,
    /// One request, a lazily produced sequence of responses.
    ServerStreaming,
    /// One request and a sequence of updates, one final response.
    ClientStreaming,
    /// One request, interleaved updates and responses.
    BidiStreaming,
}

impl Pattern {
    /// Whether the client keeps sending updates after the request.
    pub open spec fn carries_updates_spec(self) -> bool {
        self is ClientStreaming || self is BidiStreaming
    }

    /// Whether the server may give more than one response.
    pub open spec fn streams_responses_spec(self) -> bool {
        self is ServerStreaming || self is BidiStreaming
    }

    /// Whether the client keeps sending updates after the request.
    pub fn carries_updates(self) -> (b: bool)
        ensures
            b == self.carries_updates_spec(),
    {
        match self {
            Pattern::ClientStreaming | Pattern::BidiStreaming => true,
            Pattern::Unary | Pattern::ServerStreaming => false,
        }
    }

    /// Whether the server may give more than one response.
    pub fn streams_responses(self) -> (b: bool)
        ensures
            b == self.streams_responses_spec(),
    {
        match self {
            Pattern::ServerStreaming | Pattern::BidiStreaming => true,
            Pattern::Unary | Pattern::ClientStreaming => false,
        }
    }
}

/// A type-level interaction pattern.
pub trait InteractionPattern {
    /// The pattern that the marker stands for.
    spec fn pattern_spec() -> Pattern;

    /// The pattern that the marker stands for.
    fn pattern() -> (p: Pattern)
        ensures
            p == Self::pattern_spec(),
    ;
}

/// Marker of the unary pattern.
#[derive(Clone, Copy, Debug)]
pub struct Unary;

/// Marker of the server-streaming pattern.
#[derive(Clone, Copy, Debug)]
pub struct ServerStreaming;

/// Marker of the client-streaming pattern.
#[derive(Clone, Copy, Debug)]
pub struct ClientStreaming;

/// Marker of the bidirectional-streaming pattern.
#[derive(Clone, Copy, Debug)]
pub struct BidiStreaming;

impl InteractionPattern for Unary {
    open spec fn pattern_spec() -> Pattern {
        Pattern::Unary
    }

    fn pattern() -> Pattern {
        Pattern::Unary
    }
}

impl InteractionPattern for ServerStreaming {
    open spec fn pattern_spec() -> Pattern {
        Pattern::ServerStreaming
    }

    fn pattern() -> Pattern {
        Pattern::ServerStreaming
    }
}

impl InteractionPattern for ClientStreaming {
    open spec fn pattern_spec() -> Pattern {
        Pattern::ClientStreaming
    }

    fn pattern() -> Pattern {
        Pattern::ClientStreaming
    }
}

impl InteractionPattern for BidiStreaming {
    open spec fn pattern_spec() -> Pattern {
        Pattern::BidiStreaming
    }

    fn pattern() -> Pattern {
        Pattern::BidiStreaming
    }
}

/// A pattern in which the server gives exactly one response.
pub trait SingleResponse: InteractionPattern {
    /// Such a pattern does not stream its responses.
    proof fn lemma_single_response()
        ensures
            !Self::pattern_spec().streams_responses_spec(),
    ;
}

impl SingleResponse for Unary {
    proof fn lemma_single_response() {
    }
}

impl SingleResponse for ClientStreaming {
    proof fn lemma_single_response() {
    }
}

/// A pattern in which the server gives a sequence of responses.
pub trait StreamedResponse: InteractionPattern {
    /// Such a pattern streams its responses.
    proof fn lemma_streamed_response()
        ensures
            Self::pattern_spec().streams_responses_spec(),
    ;
}

impl StreamedResponse for ServerStreaming {
    proof fn lemma_streamed_response() {
    }
}

impl StreamedResponse for BidiStreaming {
    proof fn lemma_streamed_response() {
    }
}

/// A request of the service `S`. The request type fixes its service, its
/// interaction pattern and its response type here, once, for every use.
pub trait Msg<S: Service>: PartOf<S::Req> {
    /// The interaction pattern of this request.
    type Pattern: InteractionPattern;

    /// The response to this request, or one item of the sequence of
    /// responses.
    type Response: PartOf<S::Res>;
}

/// A unary request: answered by exactly one response.
pub trait UnaryMsg<S: Service>: Msg<S, Pattern = Unary> {
}

impl<S: Service, M: Msg<S, Pattern = Unary>> UnaryMsg<S> for M {
}

/// A server-streaming request: answered by a sequence of responses.
pub trait ServerStreamingMsg<S: Service>: Msg<S, Pattern = ServerStreaming> {
}

impl<S: Service, M: Msg<S, Pattern = ServerStreaming>> ServerStreamingMsg<S> for M {
}

/// A client-streaming request: followed by updates, answered by one response.
pub trait ClientStreamingMsg<S: Service>: Msg<S, Pattern = ClientStreaming> {
    /// One update that follows the request.
    type Update: PartOf<S::Req>;
}

/// A bidirectional-streaming request: updates and responses interleave.
pub trait BidiStreamingMsg<S: Service>: Msg<S, Pattern = BidiStreaming> {
    /// One update that follows the request.
    type Update: PartOf<S::Req>;
}

/// The interaction pattern that the request type `M` is bound to.
pub fn pattern_of<S: Service, M: Msg<S>>() -> (p: Pattern)
    ensures
        p == <M::Pattern as InteractionPattern>::pattern_spec(),
{
    <M::Pattern as InteractionPattern>::pattern()
}

} // verus!
