//! Decisions of the Aster Futures WebSocket stream handler: how a raw frame is
//! classified, which subscription requests are outstanding, and what an answer
//! to one of them does to the streams it named.
//!
//! The handler's I/O (channels, the socket, JSON decoding) runs around these
//! functions: it hands them the frame as plain values and carries out what
//! they decide.

use ahash::AHashMap;

use vstd::prelude::*;
use vstd::string::StringSliceAdditionalSpecFns;

use crate::enums::{ws_event_type_of_wire, AsterWsEventType, AsterWsMethod};

verus! {

/// The text the network layer delivers on a socket after it reconnected.
pub const RECONNECTED: &'static str = "__RECONNECTED__";

/// Returns true when a raw frame is the reconnection signal, that is, when its
/// bytes are the UTF-8 text of [`RECONNECTED`].
pub fn is_reconnected_signal(raw: &[u8]) -> (b: bool)
    ensures
        b == (raw@ == RECONNECTED.spec_bytes()),
{
    let expected = RECONNECTED.as_bytes();
    if raw.len() != expected.len() {
        return false;
    }
    let mut i: usize = 0;
    while i < raw.len()
        invariant
            raw@.len() == expected@.len(),
            expected@ == RECONNECTED.spec_bytes(),
            i <= raw@.len(),
            forall|k: int| 0 <= k < i ==> raw@[k] == expected@[k],
        decreases raw@.len() - i,
    {
        if raw[i] != expected[i] {
            return false;
        }
        i = i + 1;
    }
    assert(raw@ =~= expected@);
    true
}

/// An answer to a subscription request, as decoded from a frame.
#[derive(Clone, Debug, PartialEq, Eq)]
pub enum SubscriptionReply {
    /// A subscribe answer: the ID of the request it answers, and whether its
    /// result was empty, which means the subscription succeeded.
    Answer { id: u64, succeeded: bool },
    /// An error answer, with the ID of the request it answers when it names one.
    Error { id: Option<u64>, code: i64, msg: String },
    /// A frame of neither shape.
    Unrecognized,
}

/// What the handler reads of a JSON frame.
#[derive(Clone, Debug)]
pub struct WsJsonFrame {
    /// Whether the frame has a `result` field.
    pub has_result: bool,
    /// Whether the frame has an `id` field.
    pub has_id: bool,
    /// The `code` field, when it is an integer.
    pub code: Option<i64>,
    /// The `msg` field, when it is a string.
    pub msg: Option<String>,
    /// The event type field `e`, when it is a string.
    pub event_type: Option<String>,
    /// The frame read as an answer to a subscription request.
    pub reply: SubscriptionReply,
}

/// A subscribe or unsubscribe request sent on the socket.
#[derive(Clone, Debug)]
pub struct AsterFuturesWsSubscribeRequest {
    /// Subscribe or unsubscribe.
    pub method: AsterWsMethod,
    /// The stream names.
    pub params: Vec<String>,
    /// The request ID that the answer carries back.
    pub id: u64,
}

/// A message the handler emits to its consumer.
#[derive(Clone, Debug, PartialEq, Eq)]
pub enum HandlerOutput {
    /// The socket reconnected.
    Reconnected,
    /// The venue sent an error frame.
    Error { code: i64, msg: String },
    /// A stream event of this type, to be decoded into its typed message (an
    /// event that does not decode is dropped).
    Event(AsterWsEventType),
    /// The listen key expired (emitted whether or not the frame decodes).
    ListenKeyExpired,
}

/// What an answer to a subscription request does to the streams it named.
#[derive(Clone, Debug)]
pub struct SubscriptionUpdate {
    /// The streams of the answered request.
    pub streams: Vec<String>,
    /// True when they are confirmed, false when they failed.
    pub confirmed: bool,
}

/// The output, if any, for a stream frame whose event type field reads as
/// `event_type`: frames without one, mini-ticker frames and frames of unknown
/// type are dropped.
pub open spec fn stream_output(event_type: Option<AsterWsEventType>) -> Option<HandlerOutput> {
    match event_type {
        None => None,
        Some(e) => match e {
            AsterWsEventType::MiniTicker24Hr | AsterWsEventType::Unknown => None,
            AsterWsEventType::ListenKeyExpired => Some(HandlerOutput::ListenKeyExpired),
            _ => Some(HandlerOutput::Event(e)),
        },
    }
}

/// The event type of a frame.
pub open spec fn frame_event_type(frame: WsJsonFrame) -> Option<AsterWsEventType> {
    match frame.event_type {
        Some(s) => Some(ws_event_type_of_wire(s@)),
        None => None,
    }
}

/// The message for an error frame: its `msg`, or `Unknown error` without one.
pub open spec fn error_message(frame: WsJsonFrame) -> Seq<char> {
    match frame.msg {
        Some(m) => m@,
        None => "Unknown error"@,
    }
}

/// The ID of the request an answer names, if it names one.
pub open spec fn reply_request_id(reply: SubscriptionReply) -> Option<u64> {
    match reply {
        SubscriptionReply::Answer { id, .. } => Some(id),
        SubscriptionReply::Error { id, .. } => id,
        SubscriptionReply::Unrecognized => None,
    }
}

/// Whether an answer confirms the request it names.
pub open spec fn reply_confirms(reply: SubscriptionReply) -> bool {
    match reply {
        SubscriptionReply::Answer { succeeded, .. } => succeeded,
        _ => false,
    }
}

/// Whether a frame is an answer to a subscription request.
pub open spec fn is_reply_frame(frame: WsJsonFrame) -> bool {
    frame.has_result || frame.has_id
}

/// Returns the output for a stream frame of the given event type.
pub fn stream_frame_output(event_type: Option<AsterWsEventType>) -> (r: Option<HandlerOutput>)
    ensures
        r == stream_output(event_type),
        event_type matches Some(e) ==> (e != AsterWsEventType::MiniTicker24Hr && e
            != AsterWsEventType::Unknown && e != AsterWsEventType::ListenKeyExpired ==> r == Some(
            HandlerOutput::Event(e),
        )),
        r is None <==> (event_type is None || event_type == Some(AsterWsEventType::MiniTicker24Hr)
            || event_type == Some(AsterWsEventType::Unknown)),
        event_type == Some(AsterWsEventType::ListenKeyExpired) ==> r == Some(
            HandlerOutput::ListenKeyExpired,
        ),
{
    match event_type {
        None => None,
        Some(e) => match e {
            AsterWsEventType::MiniTicker24Hr | AsterWsEventType::Unknown => None,
            AsterWsEventType::ListenKeyExpired => Some(HandlerOutput::ListenKeyExpired),
            _ => Some(HandlerOutput::Event(e)),
        },
    }
}

/// Every stream frame with an event type is passed on as an event of that type,
/// except that a listen-key expiry is reported as such and only mini-ticker
/// frames and frames of unknown type are dropped; a frame without an event type
/// is dropped too.
pub proof fn stream_frames_pass_on_their_event(e: AsterWsEventType)
    ensures
        e != AsterWsEventType::MiniTicker24Hr && e != AsterWsEventType::Unknown && e
            != AsterWsEventType::ListenKeyExpired ==> stream_output(Some(e)) == Some(
            HandlerOutput::Event(e),
        ),
        e == AsterWsEventType::ListenKeyExpired ==> stream_output(Some(e)) == Some(
            HandlerOutput::ListenKeyExpired,
        ),
        stream_output(Some(e)) is None <==> (e == AsterWsEventType::MiniTicker24Hr || e
            == AsterWsEventType::Unknown),
        stream_output(None) is None,
{
}

/// Builds the request that unsubscribes from `streams`.
pub fn unsubscribe_request(request_id: u64, streams: Vec<String>) -> (r:
    AsterFuturesWsSubscribeRequest)
    ensures
        r.method == AsterWsMethod::Unsubscribe,
        r.params@ == streams@,
        r.id == request_id,
{
    AsterFuturesWsSubscribeRequest { method: AsterWsMethod::Unsubscribe, params: streams, id: request_id }
}

#[verifier::external_type_specification]
#[verifier::external_body]
#[verifier::reject_recursive_types(K)]
#[verifier::reject_recursive_types(V)]
#[verifier::reject_recursive_types(S)]
pub struct ExAHashMap<K, V, S>(AHashMap<K, V, S>);

#[verifier::external_type_specification]
#[verifier::external_body]
pub struct ExAHashRandomState(ahash::RandomState);

/// The names of a list of streams.
pub open spec fn names_view(streams: Seq<String>) -> Seq<Seq<char>> {
    streams.map_values(|s: String| s@)
}

/// What a map of pending subscribe requests holds: the names of the streams of
/// each request, by request ID.
pub uninterp spec fn pending_streams(m: AHashMap<u64, Vec<String>>) -> Map<u64, Seq<Seq<char>>>;

/// Calls `ahash::AHashMap::new`, which makes an empty map.
#[verifier::external_body]
fn pending_map_new() -> (map: AHashMap<u64, Vec<String>>)
    ensures
        pending_streams(map).dom() == Set::<u64>::empty(),
{
    AHashMap::new()
}

/// Calls `ahash::AHashMap::insert` (the inner `HashMap::insert`): afterwards
/// the ID maps to the streams, replacing what it mapped to, and every other ID
/// keeps its entry.
#[verifier::external_body]
fn pending_map_insert(m: &mut AHashMap<u64, Vec<String>>, id: u64, streams: Vec<String>)
    ensures
        pending_streams(*final(m)) == pending_streams(*old(m)).insert(id, names_view(streams@)),
{
    m.insert(id, streams);
}

/// Calls `ahash::AHashMap::remove` (the inner `HashMap::remove`): the entry of
/// the ID, if any, is removed and returned.
#[verifier::external_body]
fn pending_map_remove(m: &mut AHashMap<u64, Vec<String>>, id: u64) -> (r: Option<Vec<String>>)
    ensures
        pending_streams(*final(m)) == pending_streams(*old(m)).remove(id),
        match r {
            Some(v) => pending_streams(*old(m)).contains_key(id) && names_view(v@) == pending_streams(
                *old(m),
            )[id],
            None => !pending_streams(*old(m)).contains_key(id),
        },
{
    m.remove(&id)
}

/// Calls `len` on the map (through `Deref` to `HashMap::len`): the number of
/// entries.
#[verifier::external_body]
fn pending_map_len(m: &AHashMap<u64, Vec<String>>) -> (n: usize)
    ensures
        n == pending_streams(*m).dom().len(),
{
    m.len()
}

/// The decision state of the Aster Futures stream handler: the subscribe
/// requests that await an answer, by request ID.
pub struct AsterFuturesDataWsFeedHandler {
    pending_requests: AHashMap<u64, Vec<String>>,
}

impl AsterFuturesDataWsFeedHandler {
    /// The stream names of each outstanding subscribe request, by request ID.
    pub closed spec fn pending(&self) -> Map<u64, Seq<Seq<char>>> {
        pending_streams(self.pending_requests)
    }

    /// Creates a handler with no outstanding request.
    pub fn new() -> (h: Self)
        ensures
            h.pending() == Map::<u64, Seq<Seq<char>>>::empty(),
    {
        let h = AsterFuturesDataWsFeedHandler { pending_requests: pending_map_new() };
        assert(h.pending() =~= Map::<u64, Seq<Seq<char>>>::empty());
        h
    }

    /// The number of subscribe requests awaiting an answer.
    pub fn pending_count(&self) -> (n: usize)
        ensures
            n == self.pending().dom().len(),
    {
        pending_map_len(&self.pending_requests)
    }

    /// Records a subscribe request for `streams` under `request_id` and
    /// returns the request to send.
    pub fn register_subscribe(&mut self, request_id: u64, streams: Vec<String>) -> (r:
        AsterFuturesWsSubscribeRequest)
        ensures
            final(self).pending() == old(self).pending().insert(request_id, names_view(streams@)),
            r.method == AsterWsMethod::Subscribe,
            r.params@ == streams@,
            r.id == request_id,
    {
        let params = streams.clone();
        proof {
            assert(params@ =~= streams@);
        }
        pending_map_insert(&mut self.pending_requests, request_id, streams);
        AsterFuturesWsSubscribeRequest { method: AsterWsMethod::Subscribe, params, id: request_id }
    }

    /// Applies an answer to a subscription request: when it names an
    /// outstanding request, that request is settled and its streams are
    /// confirmed (a successful subscribe answer) or failed (any other answer);
    /// otherwise nothing changes.
    pub fn handle_subscription_reply(&mut self, reply: &SubscriptionReply) -> (u: Option<
        SubscriptionUpdate,
    >)
        ensures
            match reply_request_id(*reply) {
                Some(id) if old(self).pending().contains_key(id) => {
                    &&& final(self).pending() == old(self).pending().remove(id)
                    &&& u is Some
                    &&& names_view(u->Some_0.streams@) == old(self).pending()[id]
                    &&& u->Some_0.confirmed == reply_confirms(*reply)
                },
                _ => final(self).pending() == old(self).pending() && u is None,
            },
    {
        let (id, confirmed) = match reply {
            SubscriptionReply::Answer { id, succeeded } => (*id, *succeeded),
            SubscriptionReply::Error { id, .. } => match id {
                Some(i) => (*i, false),
                None => {
                    return None;
                },
            },
            SubscriptionReply::Unrecognized => {
                return None;
            },
        };
        match pending_map_remove(&mut self.pending_requests, id) {
            Some(streams) => Some(SubscriptionUpdate { streams, confirmed }),
            None => {
                proof {
                    assert(self.pending() =~= old(self).pending());
                }
                None
            },
        }
    }

    /// Handles a raw frame from the socket. `frame` is the frame read as JSON,
    /// or `None` when it is not JSON.
    ///
    /// The reconnection signal is reported as such; a frame that is not JSON is
    /// dropped; an answer to a subscription request settles that request and
    /// emits nothing; a frame with an integer `code` is an error; any other
    /// frame is a stream event, emitted by its event type.
    pub fn handle_raw_message(&mut self, raw: &[u8], frame: Option<&WsJsonFrame>) -> (r: (
        Option<HandlerOutput>,
        Option<SubscriptionUpdate>,
    ))
        ensures
            raw@ == RECONNECTED.spec_bytes() ==> r.0 == Some(HandlerOutput::Reconnected) && r.1 is None
                && final(self).pending() == old(self).pending(),
            raw@ != RECONNECTED.spec_bytes() ==> match frame {
                None => r.0 is None && r.1 is None && final(self).pending() == old(self).pending(),
                Some(f) => if is_reply_frame(*f) {
                    &&& r.0 is None
                    &&& match reply_request_id(f.reply) {
                        Some(id) if old(self).pending().contains_key(id) => {
                            &&& final(self).pending() == old(self).pending().remove(id)
                            &&& r.1 is Some
                            &&& names_view(r.1->Some_0.streams@) == old(self).pending()[id]
                            &&& r.1->Some_0.confirmed == reply_confirms(f.reply)
                        },
                        _ => final(self).pending() == old(self).pending() && r.1 is None,
                    }
                } else {
                    &&& r.1 is None
                    &&& final(self).pending() == old(self).pending()
                    &&& match f.code {
                        Some(c) => r.0 is Some && r.0->Some_0 is Error && r.0->Some_0->code == c
                            && r.0->Some_0->msg@ == error_message(*f),
                        None => r.0 == stream_output(frame_event_type(*f)),
                    }
                },
            },
    {
        if is_reconnected_signal(raw) {
            return (Some(HandlerOutput::Reconnected), None);
        }
        let f = match frame {
            Some(f) => f,
            None => {
                return (None, None);
            },
        };
        if f.has_result || f.has_id {
            let update = self.handle_subscription_reply(&f.reply);
            return (None, update);
        }
        match f.code {
            Some(code) => {
                let msg = match &f.msg {
                    Some(m) => m.clone(),
                    None => "Unknown error".to_owned(),
                };
                (Some(HandlerOutput::Error { code, msg }), None)
            },
            None => {
                let event_type = match &f.event_type {
                    Some(s) => Some(AsterWsEventType::from_wire(s.as_str())),
                    None => None,
                };
                (stream_frame_output(event_type), None)
            },
        }
    }
}

/// A subscribe request registered under an ID and then answered: the answer
/// settles exactly the registered streams, after which nothing is outstanding
/// under that ID (a repeated answer changes nothing) and every other
/// outstanding request is as it was.
pub proof fn subscribe_then_answer(pending: Map<u64, Seq<Seq<char>>>, id: u64, streams: Seq<Seq<char>>)
    ensures
        pending.insert(id, streams).contains_key(id),
        pending.insert(id, streams)[id] == streams,
        !pending.insert(id, streams).remove(id).contains_key(id),
        forall|other: u64|
            other != id ==> (#[trigger] pending.insert(id, streams).remove(id).contains_key(other)
                <==> pending.contains_key(other)) && (pending.contains_key(other) ==> pending.insert(
                id,
                streams,
            ).remove(id)[other] == pending[other]),
{
}

} // verus!
