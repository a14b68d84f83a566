//! Flow control for transports whose physical medium is a separate
//! request per message: the bounded admission window, and the decisions a
//! stream-fed transport takes — which inbound unit to deliver, skip or
//! end the stream on, and how the endpoint handshake concludes.

use vstd::prelude::*;

use crate::codec_wire::{dec_server, ServerJsonRpcMessageV};
use crate::json::{jv, JsonValue};
use crate::model::{ServerNotification, ServerRequest, ServerResult};
use crate::rpc::JsonRpcMessage;

verus! {

/// How many admitted units may be outstanding at once.
pub const WINDOW_SIZE: usize = 16;

/// The admission window of a per-message transport: the completion
/// handles of admitted units whose delivery has not finished, oldest
/// first. Admission is refused while the window is full; the caller
/// retries once a delivery completes.
#[derive(Debug)]
pub struct SendWindow {
    pub in_flight: Vec<u64>,
}

impl SendWindow {
    /// An empty window: everything admitted so far has been delivered.
    pub fn new() -> (w: SendWindow)
        ensures
            w.in_flight@.len() == 0,
    {
        SendWindow { in_flight: Vec::new() }
    }

    /// Whether one more unit may be admitted now.
    pub open spec fn spec_has_room(self) -> bool {
        self.in_flight@.len() < WINDOW_SIZE
    }

    /// Whether one more unit may be admitted now: false exactly when the
    /// window holds its full count of outstanding deliveries.
    pub fn has_room(&self) -> (r: bool)
        ensures
            r == self.spec_has_room(),
            r == (self.in_flight@.len() < WINDOW_SIZE),
    {
        self.in_flight.len() < WINDOW_SIZE
    }

    /// Accepts one unit into the window. Callers must hold off while the window is full —
    /// that refusal, never a failure, is the backpressure.
    pub fn accept(&mut self, handle: u64)
        requires
            old(self).spec_has_room(),
        ensures
            final(self).in_flight@ == old(self).in_flight@.push(handle),
    {
        self.in_flight.push(handle);
    }

    /// One delivery finished: the oldest outstanding unit leaves the
    /// window and its handle is reported, so its waiter can be resolved.
    pub fn complete_oldest(&mut self) -> (r: Option<u64>)
        ensures
            old(self).in_flight@.len() == 0 ==> r is None && final(self).in_flight@ == old(self).in_flight@,
            old(self).in_flight@.len() > 0 ==> r == Some(old(self).in_flight@[0])
                && final(self).in_flight@ == old(self).in_flight@.drop_first(),
            old(self).in_flight@.len() > 0 ==> final(self).in_flight@.len() == old(self).in_flight@.len() - 1,
    {
        if self.in_flight.len() == 0 {
            return None;
        }
        let h = self.in_flight.remove(0);
        proof {
            assert(self.in_flight@ =~= old(self).in_flight@.drop_first());
        }
        Some(h)
    }

    /// Whether a flush may return: only once every admitted unit's
    /// delivery has completed or failed.
    pub fn is_flushed(&self) -> (r: bool)
        ensures
            r == (self.in_flight@.len() == 0),
    {
        self.in_flight.len() == 0
    }
}

/// Backpressure: a window that has admitted its full count refuses the
/// next unit, and admits again exactly when some outstanding delivery has
/// completed.
pub proof fn lemma_backpressure(w: SendWindow)
    ensures
        w.in_flight@.len() >= WINDOW_SIZE ==> !w.spec_has_room(),
        w.in_flight@.len() == WINDOW_SIZE ==> !w.spec_has_room() && (SendWindow {
            in_flight: w.in_flight,
        }).in_flight@.drop_first().len() < WINDOW_SIZE,
{
}

/// One unit of a server-sent event stream, after the transport adapter
/// framed it and parsed its data as JSON: connection chatter, a comment,
/// a well-formed JSON event, or an event whose data was not JSON.
#[derive(Debug)]
pub enum InboundUnit {
    Connected,
    Comment,
    Event(JsonValue),
    Malformed,
}

/// What the inbound duty does with one unit of the stream.
#[derive(Debug)]
pub enum InboundAction {
    Deliver(JsonRpcMessage<ServerRequest, ServerResult, ServerNotification>),
    Skip,
    Terminate,
}

/// Mirror of [`InboundAction`].
pub ghost enum InboundActionV {
    Deliver(ServerJsonRpcMessageV),
    Skip,
    Terminate,
}

impl DeepView for InboundAction {
    type V = InboundActionV;

    open spec fn deep_view(&self) -> InboundActionV {
        match self {
            InboundAction::Deliver(m) => InboundActionV::Deliver(m.deep_view()),
            InboundAction::Skip => InboundActionV::Skip,
            InboundAction::Terminate => InboundActionV::Terminate,
        }
    }
}

/// What the inbound duty decides for one unit of the stream.
pub open spec fn spec_next_inbound(u: Option<InboundUnit>) -> InboundActionV {
    match u {
        None => InboundActionV::Terminate,
        Some(InboundUnit::Event(v)) => match dec_server(jv(v)) {
            Some(m) => InboundActionV::Deliver(m),
            None => InboundActionV::Skip,
        },
        Some(InboundUnit::Malformed) => InboundActionV::Skip,
        Some(InboundUnit::Connected) => InboundActionV::Skip,
        Some(InboundUnit::Comment) => InboundActionV::Skip,
    }
}

/// Decides what to do with one unit of the inbound stream: a well-formed
/// server unit is delivered; chatter, comments and malformed units are
/// skipped without ending the stream; the stream's end — or a fatal
/// transport error, which the adapter reports the same way — terminates
/// the inbound duty.
pub fn next_inbound(u: Option<InboundUnit>) -> (r: InboundAction)
    ensures
        r.deep_view() == spec_next_inbound(u),
{
    match u {
        None => InboundAction::Terminate,
        Some(InboundUnit::Event(v)) => match JsonRpcMessage::<
            ServerRequest,
            ServerResult,
            ServerNotification,
        >::from_json(&v) {
            Some(m) => InboundAction::Deliver(m),
            None => InboundAction::Skip,
        },
        Some(InboundUnit::Malformed) => InboundAction::Skip,
        Some(InboundUnit::Connected) => InboundAction::Skip,
        Some(InboundUnit::Comment) => InboundAction::Skip,
    }
}

/// One unit of the endpoint handshake, before any data event arrives.
#[derive(Debug, Clone, PartialEq, Eq, Structural)]
pub enum HandshakeUnit {
    Connected,
    Comment,
    Event,
}

/// The position of the first data event, if any: the unit whose data
/// names the endpoint every outbound unit must be posted to.
pub open spec fn spec_first_event(s: Seq<HandshakeUnit>) -> Option<int>
    decreases s.len(),
{
    if s.len() == 0 {
        None
    } else if s[0] == HandshakeUnit::Event {
        Some(0)
    } else {
        match spec_first_event(s.drop_first()) {
            Some(i) => Some(i + 1),
            None => None,
        }
    }
}

/// Scans the opening of the event stream for the first data event, whose
/// data names the endpoint to post to. `None` — the stream ended with no
/// such event — fails the transport's construction: there is nowhere to
/// send anything.
pub fn find_endpoint_event(units: &Vec<HandshakeUnit>) -> (r: Option<usize>)
    ensures
        match r {
            Some(i) => spec_first_event(units@) == Some(i as int) && i < units@.len()
                && units@[i as int] == HandshakeUnit::Event,
            None => spec_first_event(units@) is None,
        },
{
    proof {
        assert(units@.skip(0) =~= units@);
    }
    let mut i: usize = 0;
    while i < units.len()
        invariant
            i <= units@.len(),
            forall|j: int| 0 <= j < i ==> units@[j] != HandshakeUnit::Event,
            spec_first_event(units@) == match spec_first_event(units@.skip(i as int)) {
                Some(k) => Some(k + i),
                None => None::<int>,
            },
        decreases units@.len() - i,
    {
        proof {
            lemma_first_event_skip(units@, i as int);
        }
        match units[i] {
            HandshakeUnit::Event => {
                return Some(i);
            },
            _ => {},
        }
        i = i + 1;
    }
    proof {
        assert(units@.skip(i as int).len() == 0);
    }
    None
}

/// Unfolds the scan at position `i`.
proof fn lemma_first_event_skip(s: Seq<HandshakeUnit>, i: int)
    requires
        0 <= i < s.len(),
    ensures
        spec_first_event(s.skip(i)) == if s[i] == HandshakeUnit::Event {
            Some(0int)
        } else {
            match spec_first_event(s.skip(i + 1)) {
                Some(k) => Some(k + 1),
                None => None::<int>,
            }
        },
{
    let sub = s.skip(i);
    assert(sub.len() > 0);
    assert(sub[0] == s[i]);
    assert(sub.drop_first() =~= s.skip(i + 1));
}

} // verus!
