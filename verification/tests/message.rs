use quic_rpc::message::{
    pattern_of, BidiStreaming, BidiStreamingMsg, ClientStreaming, ClientStreamingMsg,
    InteractionPattern, Msg, PartOf, Pattern, ServerStreaming, Service, Unary,
};

#[derive(Debug, Clone, PartialEq)]
struct Get(u32);

#[derive(Debug, Clone, PartialEq)]
struct Watch(u32);

#[derive(Debug, Clone, PartialEq)]
struct Fill;

#[derive(Debug, Clone, PartialEq)]
struct Chunk(Vec<u8>);

#[derive(Debug, Clone, PartialEq)]
struct Talk;

#[derive(Debug, Clone, PartialEq)]
struct Value(String);

#[derive(Debug, Clone, PartialEq)]
enum StoreRequest {
    Get(Get),
    Watch(Watch),
    Fill(Fill),
    Chunk(Chunk),
    Talk(Talk),
}

#[derive(Debug, Clone, PartialEq)]
enum StoreResponse {
    Value(Value),
    Done,
}

struct Store;

impl Service for Store {
    type Req = StoreRequest;
    type Res = StoreResponse;
}

impl PartOf<StoreRequest> for Get {
    fn widen_spec(self) -> StoreRequest {
        StoreRequest::Get(self)
    }

    fn narrow_spec(whole: StoreRequest) -> Option<Self> {
        Self::narrow(whole)
    }

    fn lemma_widen_narrow(self) {
    }

    fn lemma_narrow_widen(_whole: StoreRequest) {
    }

    fn widen(self) -> StoreRequest {
        StoreRequest::Get(self)
    }

    fn narrow(whole: StoreRequest) -> Option<Self> {
        match whole {
            StoreRequest::Get(part) => Some(part),
            _ => None,
        }
    }
}

impl PartOf<StoreRequest> for Watch {
    fn widen_spec(self) -> StoreRequest {
        StoreRequest::Watch(self)
    }

    fn narrow_spec(whole: StoreRequest) -> Option<Self> {
        Self::narrow(whole)
    }

    fn lemma_widen_narrow(self) {
    }

    fn lemma_narrow_widen(_whole: StoreRequest) {
    }

    fn widen(self) -> StoreRequest {
        StoreRequest::Watch(self)
    }

    fn narrow(whole: StoreRequest) -> Option<Self> {
        match whole {
            StoreRequest::Watch(part) => Some(part),
            _ => None,
        }
    }
}

impl PartOf<StoreRequest> for Fill {
    fn widen_spec(self) -> StoreRequest {
        StoreRequest::Fill(self)
    }

    fn narrow_spec(whole: StoreRequest) -> Option<Self> {
        Self::narrow(whole)
    }

    fn lemma_widen_narrow(self) {
    }

    fn lemma_narrow_widen(_whole: StoreRequest) {
    }

    fn widen(self) -> StoreRequest {
        StoreRequest::Fill(self)
    }

    fn narrow(whole: StoreRequest) -> Option<Self> {
        match whole {
            StoreRequest::Fill(part) => Some(part),
            _ => None,
        }
    }
}

impl PartOf<StoreRequest> for Chunk {
    fn widen_spec(self) -> StoreRequest {
        StoreRequest::Chunk(self)
    }

    fn narrow_spec(whole: StoreRequest) -> Option<Self> {
        Self::narrow(whole)
    }

    fn lemma_widen_narrow(self) {
    }

    fn lemma_narrow_widen(_whole: StoreRequest) {
    }

    fn widen(self) -> StoreRequest {
        StoreRequest::Chunk(self)
    }

    fn narrow(whole: StoreRequest) -> Option<Self> {
        match whole {
            StoreRequest::Chunk(part) => Some(part),
            _ => None,
        }
    }
}

impl PartOf<StoreRequest> for Talk {
    fn widen_spec(self) -> StoreRequest {
        StoreRequest::Talk(self)
    }

    fn narrow_spec(whole: StoreRequest) -> Option<Self> {
        Self::narrow(whole)
    }

    fn lemma_widen_narrow(self) {
    }

    fn lemma_narrow_widen(_whole: StoreRequest) {
    }

    fn widen(self) -> StoreRequest {
        StoreRequest::Talk(self)
    }

    fn narrow(whole: StoreRequest) -> Option<Self> {
        match whole {
            StoreRequest::Talk(part) => Some(part),
            _ => None,
        }
    }
}

impl PartOf<StoreResponse> for Value {
    fn widen_spec(self) -> StoreResponse {
        StoreResponse::Value(self)
    }

    fn narrow_spec(whole: StoreResponse) -> Option<Self> {
        Self::narrow(whole)
    }

    fn lemma_widen_narrow(self) {
    }

    fn lemma_narrow_widen(_whole: StoreResponse) {
    }

    fn widen(self) -> StoreResponse {
        StoreResponse::Value(self)
    }

    fn narrow(whole: StoreResponse) -> Option<Self> {
        match whole {
            StoreResponse::Value(part) => Some(part),
            _ => None,
        }
    }
}

impl Msg<Store> for Get {
    type Pattern = Unary;
    type Response = Value;
}

impl Msg<Store> for Watch {
    type Pattern = ServerStreaming;
    type Response = Value;
}

impl Msg<Store> for Fill {
    type Pattern = ClientStreaming;
    type Response = Value;
}

impl ClientStreamingMsg<Store> for Fill {
    type Update = Chunk;
}

impl Msg<Store> for Talk {
    type Pattern = BidiStreaming;
    type Response = Value;
}

impl BidiStreamingMsg<Store> for Talk {
    type Update = Chunk;
}

fn there_and_back<Part: PartOf<Whole>, Whole>(part: Part) -> Option<Part> {
    Part::narrow(part.widen())
}

#[test]
fn widening_then_narrowing_gives_the_value_back() {
    assert_eq!(there_and_back::<Get, StoreRequest>(Get(7)), Some(Get(7)));
    assert_eq!(there_and_back::<Watch, StoreRequest>(Watch(0)), Some(Watch(0)));
    assert_eq!(there_and_back::<Fill, StoreRequest>(Fill), Some(Fill));
    assert_eq!(
        there_and_back::<Chunk, StoreRequest>(Chunk(vec![1, 2, 3])),
        Some(Chunk(vec![1, 2, 3]))
    );
    assert_eq!(there_and_back::<Talk, StoreRequest>(Talk), Some(Talk));
    assert_eq!(
        there_and_back::<Value, StoreResponse>(Value(String::from("v"))),
        Some(Value(String::from("v")))
    );
}

#[test]
fn widening_wraps_into_the_variant_of_the_constituent() {
    let request: StoreRequest = Get(7).widen();
    assert_eq!(request, StoreRequest::Get(Get(7)));
    let response: StoreResponse = Value(String::from("v")).widen();
    assert_eq!(response, StoreResponse::Value(Value(String::from("v"))));
}

#[test]
fn narrowing_fails_for_the_variant_of_another_constituent() {
    assert_eq!(<Get as PartOf<StoreRequest>>::narrow(StoreRequest::Watch(Watch(7))), None);
    assert_eq!(<Watch as PartOf<StoreRequest>>::narrow(StoreRequest::Get(Get(7))), None);
    assert_eq!(<Value as PartOf<StoreResponse>>::narrow(StoreResponse::Done), None);
}

#[test]
fn a_type_is_the_single_constituent_of_itself() {
    let whole: StoreRequest = <StoreRequest as PartOf<StoreRequest>>::widen(StoreRequest::Get(Get(1)));
    assert_eq!(whole, StoreRequest::Get(Get(1)));
    let part = <StoreRequest as PartOf<StoreRequest>>::narrow(StoreRequest::Talk(Talk));
    assert_eq!(part, Some(StoreRequest::Talk(Talk)));
    assert_eq!(there_and_back::<u64, u64>(42), Some(42));
}

#[test]
fn each_marker_stands_for_its_pattern() {
    assert_eq!(Unary::pattern(), Pattern::Unary);
    assert_eq!(ServerStreaming::pattern(), Pattern::ServerStreaming);
    assert_eq!(ClientStreaming::pattern(), Pattern::ClientStreaming);
    assert_eq!(BidiStreaming::pattern(), Pattern::BidiStreaming);
}

#[test]
fn a_request_type_is_bound_to_one_pattern() {
    assert_eq!(pattern_of::<Store, Get>(), Pattern::Unary);
    assert_eq!(pattern_of::<Store, Watch>(), Pattern::ServerStreaming);
    assert_eq!(pattern_of::<Store, Fill>(), Pattern::ClientStreaming);
    assert_eq!(pattern_of::<Store, Talk>(), Pattern::BidiStreaming);
}

#[test]
fn only_the_client_streaming_patterns_carry_updates() {
    assert!(!Pattern::Unary.carries_updates());
    assert!(!Pattern::ServerStreaming.carries_updates());
    assert!(Pattern::ClientStreaming.carries_updates());
    assert!(Pattern::BidiStreaming.carries_updates());
}

#[test]
fn only_the_server_streaming_patterns_stream_responses() {
    assert!(!Pattern::Unary.streams_responses());
    assert!(Pattern::ServerStreaming.streams_responses());
    assert!(!Pattern::ClientStreaming.streams_responses());
    assert!(Pattern::BidiStreaming.streams_responses());
}
