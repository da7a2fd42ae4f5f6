//! The coordinator link: route registration, outbound framing and queueing,
//! inbound dispatch, and the reconnect policy. The socket itself is driven
//! by the caller, which performs each returned action and reports each event.
use vstd::prelude::*;
use std::collections::VecDeque;
use crate::framing::{encode_frame, extend_bytes, frame_of, hex_digit};
use vstd::utf8::encode_utf8;
use crate::routes::RouteTable;

verus! {

/// Delay between a close event and the reconnect attempt it schedules.
pub const RECONNECT_DELAY_MS: u32 = 3000;

/// The bytes that stand for one character inside a JSON string literal:
/// `\"`, `\\`, the short escapes of backspace, tab, line feed, form feed
/// and carriage return, `\u00xx` (lowercase hex) for the other control
/// characters below 0x20, and the character's UTF-8 bytes otherwise.
pub open spec fn json_char_escape(c: char) -> Seq<u8> {
    let n = c as u32;
    if n == 34 {
        seq![92u8, 34u8]
    } else if n == 92 {
        seq![92u8, 92u8]
    } else if n == 8 {
        seq![92u8, 98u8]
    } else if n == 9 {
        seq![92u8, 116u8]
    } else if n == 10 {
        seq![92u8, 110u8]
    } else if n == 12 {
        seq![92u8, 102u8]
    } else if n == 13 {
        seq![92u8, 114u8]
    } else if n < 32 {
        seq![92u8, 117u8, 48u8, 48u8, hex_digit((n / 16) as nat), hex_digit((n % 16) as nat)]
    } else {
        encode_utf8(seq![c])
    }
}

/// The escaped characters of a text, in order.
pub open spec fn json_escaped(s: Seq<char>) -> Seq<u8>
    decreases s.len(),
{
    if s.len() == 0 {
        seq![]
    } else {
        json_escaped(s.drop_last()) + json_char_escape(s.last())
    }
}

/// The JSON string literal of a text: a quote, the escaped characters, a
/// quote.
pub open spec fn json_string_of(s: Seq<char>) -> Seq<u8> {
    seq![34u8] + json_escaped(s) + seq![34u8]
}

/// Relies on serde_json::to_vec on a `str`: it writes a quote, each byte of
/// the text escaped by its table (quote, backslash, the short escapes and
/// `\u00xx` for the control bytes below 0x20; every other byte, hence every
/// character from 0x20 up, as it is), then a quote. Serializing a `str` into
/// a `Vec` cannot fail.
#[verifier::external_body]
pub(crate) fn json_string(s: &str) -> (r: Vec<u8>)
    ensures
        r@ == json_string_of(s@),
{
    serde_json::to_vec(s).unwrap_or_default()
}

/// The bytes `{"k":` (or `,"k":` after the first key) that open a JSON
/// object member with the one-letter key `k`.
pub open spec fn member_key(k: u8, first: bool) -> Seq<u8> {
    seq![if first { 123u8 } else { 44u8 }, 34u8, k, 34u8, 58u8]
}

/// The JSON header `{"t":uid,"r":route,"p":payload}` assembled from the
/// three members' JSON string literals.
pub open spec fn header_of_quoted(uid: Seq<u8>, route: Seq<u8>, payload: Seq<u8>) -> Seq<u8> {
    member_key(116u8, true) + uid + member_key(114u8, false) + route + member_key(112u8, false)
        + payload + seq![125u8]
}

/// The JSON header of an outbound frame.
pub open spec fn request_header(uid: Seq<char>, route: Seq<char>, payload: Seq<char>) -> Seq<u8> {
    header_of_quoted(json_string_of(uid), json_string_of(route), json_string_of(payload))
}

fn push_member_key(out: &mut Vec<u8>, k: u8, first: bool)
    ensures
        final(out)@ == old(out)@ + member_key(k, first),
{
    out.push(if first { 123u8 } else { 44u8 });
    out.push(34u8);
    out.push(k);
    out.push(34u8);
    out.push(58u8);
}

/// Assembles the JSON header of an outbound frame from the JSON string
/// literals of its three members.
pub fn header_from_quoted(uid: &[u8], route: &[u8], payload: &[u8]) -> (r: Vec<u8>)
    ensures
        r@ == header_of_quoted(uid@, route@, payload@),
{
    let mut out: Vec<u8> = Vec::new();
    push_member_key(&mut out, 116u8, true);
    extend_bytes(&mut out, uid);
    push_member_key(&mut out, 114u8, false);
    extend_bytes(&mut out, route);
    push_member_key(&mut out, 112u8, false);
    extend_bytes(&mut out, payload);
    out.push(125u8);
    assert(out@ =~= header_of_quoted(uid@, route@, payload@));
    out
}

/// Builds the JSON header of an outbound frame.
pub fn build_request_header(uid: &str, route: &str, payload: &str) -> (r: Vec<u8>)
    ensures
        r@ == request_header(uid@, route@, payload@),
{
    let u = json_string(uid);
    let r = json_string(route);
    let p = json_string(payload);
    header_from_quoted(u.as_slice(), r.as_slice(), p.as_slice())
}

/// A receiver recovers from an outbound frame exactly the JSON header built
/// for its uid, route and short payload, and its large payload, whenever that
/// header is shorter than 65536 bytes.
pub proof fn request_frame_round_trip(uid: Seq<char>, route: Seq<char>, payload: Seq<char>, big_payload: Seq<u8>)
    requires
        request_header(uid, route, payload).len() < 65536,
    ensures
        crate::framing::frame_split(frame_of(request_header(uid, route, payload), big_payload)) == Some(
            (request_header(uid, route, payload), big_payload),
        ),
{
    crate::framing::frame_round_trip(request_header(uid, route, payload), big_payload);
}

/// What the socket reports.
pub enum LinkEvent {
    /// The connection closed, for whatever cause.
    Closed,
    /// The connection reported an error.
    Failed,
    /// The delay scheduled after a close has elapsed.
    ReconnectDue,
}

/// What the caller is to do with the socket.
#[derive(PartialEq, Eq, Structural)]
pub enum LinkAction {
    /// Open a new connection to the client's url and arm its message,
    /// close and error handlers.
    Connect,
    /// Wait `delay_ms`, then report `ReconnectDue`.
    ScheduleReconnect { delay_ms: u32 },
    /// Log the error; nothing else.
    LogError,
}

/// The action that answers each event.
pub open spec fn link_action(e: LinkEvent) -> LinkAction {
    match e {
        LinkEvent::Closed => LinkAction::ScheduleReconnect { delay_ms: RECONNECT_DELAY_MS },
        LinkEvent::Failed => LinkAction::LogError,
        LinkEvent::ReconnectDue => LinkAction::Connect,
    }
}

/// Number of close events in a sequence of events.
pub open spec fn count_closes(s: Seq<LinkEvent>) -> nat
    decreases s.len(),
{
    if s.len() == 0 {
        0
    } else {
        count_closes(s.drop_last()) + if s.last() is Closed { 1nat } else { 0nat }
    }
}

/// Number of scheduled reconnects in a sequence of actions.
pub open spec fn count_scheduled(s: Seq<LinkAction>) -> nat
    decreases s.len(),
{
    if s.len() == 0 {
        0
    } else {
        count_scheduled(s.drop_last()) + if s.last() is ScheduleReconnect { 1nat } else { 0nat }
    }
}

/// For any run of events, the actions taken schedule exactly one reconnect
/// per close event, each after the fixed delay, whatever caused the close;
/// an error event schedules none.
pub proof fn reconnect_once_per_close(events: Seq<LinkEvent>)
    ensures
        count_scheduled(events.map_values(|e: LinkEvent| link_action(e))) == count_closes(events),
        forall|i: int|
            0 <= i < events.len() && (#[trigger] link_action(events[i])) is ScheduleReconnect
                ==> events[i] is Closed && link_action(events[i])
                == (LinkAction::ScheduleReconnect { delay_ms: RECONNECT_DELAY_MS }),
    decreases events.len(),
{
    if events.len() > 0 {
        reconnect_once_per_close(events.drop_last());
        assert(events.map_values(|e: LinkEvent| link_action(e)).drop_last() =~= events.drop_last().map_values(
            |e: LinkEvent| link_action(e),
        ));
    }
}

/// Which handler an inbound message goes to.
#[derive(PartialEq, Eq, Structural)]
pub enum Dispatch {
    /// The plain handler, called with the status and the short payload.
    Plain(u64),
    /// The large-payload handler, called with the status, the short payload
    /// and the large payload.
    BigPayload(u64),
}

/// A client of the coordinator: its identity, its two route tables, and the
/// queue of frames that the single sender writes to the socket in order.
pub struct WsClient {
    uid: String,
    url: String,
    routes: RouteTable,
    routes_big_payload: RouteTable,
    outbound: Option<VecDeque<Vec<u8>>>,
}

impl WsClient {
    pub closed spec fn uid(&self) -> Seq<char> {
        self.uid@
    }

    pub closed spec fn url(&self) -> Seq<char> {
        self.url@
    }

    pub closed spec fn routes(&self) -> Map<Seq<char>, u64> {
        self.routes@
    }

    pub closed spec fn routes_big_payload(&self) -> Map<Seq<char>, u64> {
        self.routes_big_payload@
    }

    /// The frames waiting for the sender, oldest first; `None` before the
    /// first connection, when there is no sender to take them.
    pub closed spec fn outbound(&self) -> Option<Seq<Seq<u8>>> {
        match &self.outbound {
            Some(q) => Some(q@.map_values(|f: Vec<u8>| f@)),
            None => None,
        }
    }

    pub fn new(uid: String, url: String) -> (r: WsClient)
        ensures
            r.uid() == uid@,
            r.url() == url@,
            r.routes() == Map::<Seq<char>, u64>::empty(),
            r.routes_big_payload() == Map::<Seq<char>, u64>::empty(),
            r.outbound() is None,
    {
        WsClient {
            uid,
            url,
            routes: RouteTable::new(),
            routes_big_payload: RouteTable::new(),
            outbound: None,
        }
    }

    /// The url that `Connect` opens.
    pub fn url_str(&self) -> (r: &str)
        ensures
            r@ == self.url(),
    {
        self.url.as_str()
    }

    /// Registers the plain handler of route `api`, replacing any earlier one.
    pub fn route_ws(&mut self, api: &str, handler: u64)
        ensures
            final(self).routes() == old(self).routes().insert(api@, handler),
            final(self).routes_big_payload() == old(self).routes_big_payload(),
            final(self).uid() == old(self).uid(),
            final(self).url() == old(self).url(),
            final(self).outbound() == old(self).outbound(),
    {
        self.routes.register(api, handler);
    }

    /// Registers the large-payload handler of route `api`, replacing any
    /// earlier one.
    pub fn route_ws_big_payload(&mut self, api: &str, handler: u64)
        ensures
            final(self).routes_big_payload() == old(self).routes_big_payload().insert(api@, handler),
            final(self).routes() == old(self).routes(),
            final(self).uid() == old(self).uid(),
            final(self).url() == old(self).url(),
            final(self).outbound() == old(self).outbound(),
    {
        self.routes_big_payload.register(api, handler);
    }

    /// Starts a connection: a fresh, empty outbound queue replaces the old
    /// one, and the caller is to open the socket.
    pub fn start_ws(&mut self) -> (r: LinkAction)
        ensures
            r == LinkAction::Connect,
            final(self).outbound() == Some(Seq::<Seq<u8>>::empty()),
            final(self).routes() == old(self).routes(),
            final(self).routes_big_payload() == old(self).routes_big_payload(),
            final(self).uid() == old(self).uid(),
            final(self).url() == old(self).url(),
    {
        self.outbound = Some(VecDeque::new());
        assert(self.outbound() =~= Some(Seq::<Seq<u8>>::empty()));
        LinkAction::Connect
    }

    /// Answers a socket event: a close schedules one reconnect after the
    /// fixed delay, an error is only logged, and a due reconnect starts a
    /// new connection.
    pub fn handle_link_event(&mut self, event: LinkEvent) -> (r: LinkAction)
        ensures
            r == link_action(event),
            event is ReconnectDue ==> final(self).outbound() == Some(Seq::<Seq<u8>>::empty()),
            !(event is ReconnectDue) ==> final(self).outbound() == old(self).outbound(),
            final(self).routes() == old(self).routes(),
            final(self).routes_big_payload() == old(self).routes_big_payload(),
            final(self).uid() == old(self).uid(),
            final(self).url() == old(self).url(),
    {
        match event {
            LinkEvent::Closed => LinkAction::ScheduleReconnect { delay_ms: RECONNECT_DELAY_MS },
            LinkEvent::Failed => LinkAction::LogError,
            LinkEvent::ReconnectDue => self.start_ws(),
        }
    }

    /// Sends a message without a large payload.
    pub fn send(&mut self, route: String, payload: String)
        ensures
            final(self).outbound() == (match old(self).outbound() {
                Some(q) => Some(q.push(frame_of(request_header(old(self).uid(), route@, payload@), seq![]))),
                None => None,
            }),
            final(self).routes() == old(self).routes(),
            final(self).routes_big_payload() == old(self).routes_big_payload(),
            final(self).uid() == old(self).uid(),
            final(self).url() == old(self).url(),
    {
        self.send_big_payload(route, payload, String::new());
    }

    /// Frames a message and queues it for the sender; before the first
    /// connection there is no sender and the message is dropped.
    pub fn send_big_payload(&mut self, route: String, payload: String, big_payload: String)
        ensures
            final(self).outbound() == (match old(self).outbound() {
                Some(q) => Some(q.push(frame_of(request_header(old(self).uid(), route@, payload@), encode_utf8(big_payload@)))),
                None => None,
            }),
            final(self).routes() == old(self).routes(),
            final(self).routes_big_payload() == old(self).routes_big_payload(),
            final(self).uid() == old(self).uid(),
            final(self).url() == old(self).url(),
    {
        let header = build_request_header(self.uid.as_str(), route.as_str(), payload.as_str());
        let frame = encode_frame(header.as_slice(), big_payload.as_str().as_bytes());
        match &mut self.outbound {
            Some(q) => {
                let ghost before = q@;
                q.push_back(frame);
                assert(q@.map_values(|f: Vec<u8>| f@) =~= before.map_values(|f: Vec<u8>| f@).push(frame@));
            },
            None => {},
        }
    }

    /// Takes the oldest queued frame for the sender to write.
    pub fn next_outbound(&mut self) -> (r: Option<Vec<u8>>)
        ensures
            match old(self).outbound() {
                Some(q) => if q.len() > 0 {
                    r matches Some(f) && f@ == q[0] && final(self).outbound() == Some(q.drop_first())
                } else {
                    r is None && final(self).outbound() == old(self).outbound()
                },
                None => r is None && final(self).outbound() is None,
            },
            final(self).routes() == old(self).routes(),
            final(self).routes_big_payload() == old(self).routes_big_payload(),
            final(self).uid() == old(self).uid(),
            final(self).url() == old(self).url(),
    {
        match &mut self.outbound {
            Some(q) => {
                let ghost before = q@;
                let r = q.pop_front();
                if r.is_some() {
                    assert(q@.map_values(|f: Vec<u8>| f@) =~= before.map_values(|f: Vec<u8>| f@).drop_first());
                }
                r
            },
            None => None,
        }
    }

    /// Chooses the handler of an inbound message by its route: the
    /// large-payload handler when the large payload is non-empty, the plain
    /// one otherwise; `None` when the route has no handler of that kind.
    pub fn select_handler(&self, route: &str, big_payload: &[u8]) -> (r: Option<Dispatch>)
        ensures
            big_payload@.len() > 0 ==> r == (if self.routes_big_payload().contains_key(route@) {
                Some(Dispatch::BigPayload(self.routes_big_payload()[route@]))
            } else {
                None::<Dispatch>
            }),
            big_payload@.len() == 0 ==> r == (if self.routes().contains_key(route@) {
                Some(Dispatch::Plain(self.routes()[route@]))
            } else {
                None::<Dispatch>
            }),
    {
        if big_payload.len() > 0 {
            match self.routes_big_payload.lookup(route) {
                Some(h) => Some(Dispatch::BigPayload(h)),
                None => None,
            }
        } else {
            match self.routes.lookup(route) {
                Some(h) => Some(Dispatch::Plain(h)),
                None => None,
            }
        }
    }
}

} // verus!
