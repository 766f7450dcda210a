//! The tunnel orchestrator: a two-state machine that the session's single
//! forwarding loop drives. Every loop wake-up is one event; each step says
//! what to report, what to write where, and whether the session is over.
//! Every failure path is terminal — there is no retry transition.

use vstd::prelude::*;
use vstd::string::StringExecFns;
use crate::events::{EventView, ProxyEvent, events_view};
use crate::frame::{encode_frame, u32_be};
use crate::sink::EventSink;
use crate::sniffer::{json_records, sniff_chunk, spec_forward, spec_rooms, strings_view};

verus! {

/// The two states of a session: the loop runs only while `Active`, and every
/// exit path leads irreversibly to `Terminated`.
pub enum TunnelState {
    Active,
    Terminated,
}

/// One wake-up of the forwarding loop: a message or chunk arrived, a
/// transport failed, or the stream peer closed. Error events carry the
/// failure's display text.
pub enum TunnelEvent {
    /// The payload of one message received from the message transport.
    Message(Vec<u8>),
    /// The message transport failed on receive.
    MessageReadError(String),
    /// The message transport failed on send, while forwarding a chunk.
    MessageSendError(String),
    /// A non-empty chunk read from the stream transport.
    Chunk(Vec<u8>),
    /// A zero-byte read: the stream peer closed the connection.
    StreamClosed,
    /// The stream transport failed on read.
    StreamReadError(String),
    /// The stream transport failed while writing a frame's length header.
    HeaderWriteError(String),
    /// The stream transport failed while writing a frame's payload.
    PayloadWriteError(String),
}

/// Specification-level image of a loop event.
pub enum TunnelEventView {
    Message(Seq<u8>),
    MessageReadError(Seq<char>),
    MessageSendError(Seq<char>),
    Chunk(Seq<u8>),
    StreamClosed,
    StreamReadError(Seq<char>),
    HeaderWriteError(Seq<char>),
    PayloadWriteError(Seq<char>),
}

impl View for TunnelEvent {
    type V = TunnelEventView;

    open spec fn view(&self) -> TunnelEventView {
        match self {
            TunnelEvent::Message(d) => TunnelEventView::Message(d@),
            TunnelEvent::MessageReadError(e) => TunnelEventView::MessageReadError(e@),
            TunnelEvent::MessageSendError(e) => TunnelEventView::MessageSendError(e@),
            TunnelEvent::Chunk(d) => TunnelEventView::Chunk(d@),
            TunnelEvent::StreamClosed => TunnelEventView::StreamClosed,
            TunnelEvent::StreamReadError(e) => TunnelEventView::StreamReadError(e@),
            TunnelEvent::HeaderWriteError(e) => TunnelEventView::HeaderWriteError(e@),
            TunnelEvent::PayloadWriteError(e) => TunnelEventView::PayloadWriteError(e@),
        }
    }
}

/// The I/O one step asks the loop to perform.
#[derive(Debug, PartialEq, Eq)]
pub enum IoAction {
    /// Write the header, then the payload, to the stream transport, as two
    /// consecutive writes, then flush.
    WriteFrame { header: Vec<u8>, payload: Vec<u8> },
    /// Send these bytes as one whole message on the message transport.
    ForwardChunk(Vec<u8>),
}

/// Specification-level image of an I/O request.
pub enum IoView {
    WriteFrame(Seq<u8>, Seq<u8>),
    ForwardChunk(Seq<u8>),
}

impl View for IoAction {
    type V = IoView;

    open spec fn view(&self) -> IoView {
        match self {
            IoAction::WriteFrame { header, payload } => IoView::WriteFrame(header@, payload@),
            IoAction::ForwardChunk(d) => IoView::ForwardChunk(d@),
        }
    }
}

/// The view of one step's optional I/O request.
pub open spec fn io_view(o: Option<IoAction>) -> Option<IoView> {
    match o {
        Some(a) => Some(a@),
        None => None,
    }
}

/// What one step hands back to the loop: events to report, and at most one
/// I/O request.
pub struct StepResult {
    pub events: Vec<ProxyEvent>,
    pub io: Option<IoAction>,
}

/// The events a step reports for the room codes found in one chunk: for
/// each code, in order, the code itself and a log line.
pub open spec fn room_events(rooms: Seq<Seq<char>>) -> Seq<EventView>
    decreases rooms.len(),
{
    if rooms.len() == 0 {
        Seq::empty()
    } else {
        room_events(rooms.drop_last()) + seq![
            EventView::RoomCode(rooms.last()),
            EventView::Log("Room ID reçue: "@ + rooms.last()),
        ]
    }
}

/// The records scanned out of one chunk, under the control-record schema.
pub open spec fn chunk_records(data: Seq<u8>) -> Seq<(bool, Option<Seq<char>>)> {
    json_records(data, "internal"@, "room"@)
}

/// The state a step leaves the session in.
pub open spec fn step_state(ev: TunnelEventView) -> TunnelState {
    match ev {
        TunnelEventView::Message(_) => TunnelState::Active,
        TunnelEventView::Chunk(_) => TunnelState::Active,
        _ => TunnelState::Terminated,
    }
}

/// The events a step reports.
pub open spec fn step_events(ev: TunnelEventView) -> Seq<EventView> {
    match ev {
        TunnelEventView::Message(_) => Seq::empty(),
        TunnelEventView::MessageReadError(e) => seq![
            EventView::Log("WebSocket read error: "@ + e),
        ],
        TunnelEventView::MessageSendError(e) => seq![EventView::Log("WebSocket send error: "@ + e)],
        TunnelEventView::Chunk(d) => room_events(spec_rooms(chunk_records(d))),
        TunnelEventView::StreamClosed => seq![EventView::Log("TCP server closed connection"@)],
        TunnelEventView::StreamReadError(e) => seq![EventView::Log("TCP read error: "@ + e)],
        TunnelEventView::HeaderWriteError(e) => seq![EventView::Log("TCP write len error: "@ + e)],
        TunnelEventView::PayloadWriteError(e) => seq![
            EventView::Log("TCP write data error: "@ + e),
        ],
    }
}

/// The I/O a step requests: an incoming message becomes one frame unless
/// empty; a chunk is forwarded whole exactly when it holds no control
/// record; nothing else writes.
pub open spec fn step_io(ev: TunnelEventView) -> Option<IoView> {
    match ev {
        TunnelEventView::Message(d) => if d.len() == 0 {
            None
        } else {
            Some(IoView::WriteFrame(u32_be(d.len() as u32), d))
        },
        TunnelEventView::Chunk(d) => if spec_forward(chunk_records(d)) {
            Some(IoView::ForwardChunk(d))
        } else {
            None
        },
        _ => None,
    }
}

/// The tunnel session's orchestrator state. `stop_reported` guards the
/// terminal event: it can be reported only once, and only after the session
/// has terminated.
pub struct Tunnel {
    state: TunnelState,
    stop_reported: bool,
}

impl Tunnel {
    /// The session's state.
    pub closed spec fn spec_state(self) -> TunnelState {
        self.state
    }

    /// Whether the terminal event has already been reported.
    pub closed spec fn stop_reported(self) -> bool {
        self.stop_reported
    }

    /// The session invariant: the terminal event is never reported while
    /// the session is live.
    pub open spec fn wf(self) -> bool {
        self.stop_reported() ==> self.spec_state() is Terminated
    }

    /// Whether the session is still live: the loop runs only while it is.
    pub fn is_active(&self) -> (b: bool)
        ensures
            b == (self.spec_state() is Active),
    {
        match self.state {
            TunnelState::Active => true,
            TunnelState::Terminated => false,
        }
    }

    /// A fresh session, as entered when the handshake succeeds.
    pub fn new() -> (t: Tunnel)
        ensures
            t.spec_state() is Active,
            !t.stop_reported(),
            t.wf(),
    {
        Tunnel { state: TunnelState::Active, stop_reported: false }
    }

    /// One step of the forwarding loop. Exactly per event: a non-empty
    /// message becomes one frame; an empty one nothing. A chunk is either
    /// forwarded whole or suppressed whole, its room codes reported. A
    /// failure or peer close terminates the session with one log line. No
    /// step reports the terminal event.
    pub fn step(&mut self, ev: TunnelEvent) -> (r: StepResult)
        requires
            old(self).spec_state() is Active,
            old(self).wf(),
            ev matches TunnelEvent::Message(d) ==> d@.len() <= u32::MAX,
        ensures
            final(self).spec_state() == step_state(ev@),
            !final(self).stop_reported(),
            final(self).wf(),
            events_view(r.events@) == step_events(ev@),
            io_view(r.io) == step_io(ev@),
    {
        match ev {
            TunnelEvent::Message(data) => {
                let io = match encode_frame(data) {
                    Some((header, payload)) => Some(IoAction::WriteFrame { header, payload }),
                    None => None,
                };
                StepResult { events: Vec::new(), io }
            },
            TunnelEvent::MessageReadError(e) => {
                self.state = TunnelState::Terminated;
                StepResult { events: log_one("WebSocket read error: ", e), io: None }
            },
            TunnelEvent::MessageSendError(e) => {
                self.state = TunnelState::Terminated;
                StepResult { events: log_one("WebSocket send error: ", e), io: None }
            },
            TunnelEvent::Chunk(data) => {
                let decision = sniff_chunk(&data);
                let ghost rv = strings_view(decision.rooms@);
                let mut events: Vec<ProxyEvent> = Vec::new();
                let mut i: usize = 0;
                while i < decision.rooms.len()
                    invariant
                        0 <= i <= decision.rooms@.len(),
                        rv == strings_view(decision.rooms@),
                        rv.len() == decision.rooms@.len(),
                        events_view(events@) == room_events(rv.take(i as int)),
                    decreases decision.rooms@.len() - i,
                {
                    let code = decision.rooms[i].clone();
                    let mut msg = "Room ID reçue: ".to_owned();
                    msg.append(code.as_str());
                    events.push(ProxyEvent::RoomCode(code));
                    events.push(ProxyEvent::Log(msg));
                    proof {
                        assert(rv.take(i + 1).drop_last() =~= rv.take(i as int));
                        assert(rv.take(i + 1).last() == decision.rooms@[i as int]@);
                        assert(events_view(events@) =~= room_events(rv.take(i + 1)));
                    }
                    i += 1;
                }
                proof {
                    assert(rv.take(rv.len() as int) =~= rv);
                }
                let io = if decision.forward {
                    Some(IoAction::ForwardChunk(data))
                } else {
                    None
                };
                StepResult { events, io }
            },
            TunnelEvent::StreamClosed => {
                self.state = TunnelState::Terminated;
                let mut events: Vec<ProxyEvent> = Vec::new();
                events.push(ProxyEvent::Log("TCP server closed connection".to_owned()));
                proof {
                    assert(events_view(events@) =~= seq![
                        EventView::Log("TCP server closed connection"@),
                    ]);
                }
                StepResult { events, io: None }
            },
            TunnelEvent::StreamReadError(e) => {
                self.state = TunnelState::Terminated;
                StepResult { events: log_one("TCP read error: ", e), io: None }
            },
            TunnelEvent::HeaderWriteError(e) => {
                self.state = TunnelState::Terminated;
                StepResult { events: log_one("TCP write len error: ", e), io: None }
            },
            TunnelEvent::PayloadWriteError(e) => {
                self.state = TunnelState::Terminated;
                StepResult { events: log_one("TCP write data error: ", e), io: None }
            },
        }
    }

    /// One step, with its events reported through the sink at once; the
    /// loop gets back only the I/O to perform.
    pub fn step_and_report(&mut self, sink: &EventSink, ev: TunnelEvent) -> (io: Option<IoAction>)
        requires
            old(self).spec_state() is Active,
            old(self).wf(),
            ev matches TunnelEvent::Message(d) ==> d@.len() <= u32::MAX,
        ensures
            final(self).spec_state() == step_state(ev@),
            !final(self).stop_reported(),
            final(self).wf(),
            io_view(io) == step_io(ev@),
    {
        let r = self.step(ev);
        sink.emit_all(r.events);
        r.io
    }

    /// The terminal event, handed out exactly once, by the owning caller
    /// after the loop has exited. Its contract makes a second report, or a
    /// report from a live session, impossible.
    pub fn finish(&mut self) -> (e: ProxyEvent)
        requires
            old(self).spec_state() is Terminated,
            !old(self).stop_reported(),
        ensures
            final(self).spec_state() is Terminated,
            final(self).stop_reported(),
            final(self).wf(),
            e == ProxyEvent::Stopped,
    {
        self.stop_reported = true;
        ProxyEvent::Stopped
    }
}

/// One log event whose text is a fixed prefix followed by a failure's text.
fn log_one(prefix: &str, detail: String) -> (r: Vec<ProxyEvent>)
    ensures
        events_view(r@) == seq![EventView::Log(prefix@ + detail@)],
{
    let mut msg = prefix.to_owned();
    msg.append(detail.as_str());
    let mut events: Vec<ProxyEvent> = Vec::new();
    events.push(ProxyEvent::Log(msg));
    proof {
        assert(events_view(events@) =~= seq![EventView::Log(prefix@ + detail@)]);
    }
    events
}

proof fn lemma_room_events_benign(rooms: Seq<Seq<char>>)
    ensures
        forall|i: int|
            0 <= i < room_events(rooms).len() ==> !(#[trigger] room_events(rooms)[i]
                is Stopped),
    decreases rooms.len(),
{
    if rooms.len() > 0 {
        lemma_room_events_benign(rooms.drop_last());
    }
}

/// Law: no step of the forwarding loop reports the terminal event. Together
/// with the contracts of `step` and `finish` — a step needs a live session,
/// `finish` needs a terminated one and a terminal event not yet reported —
/// a session reports exactly one terminal event, and none after it.
pub proof fn lemma_step_never_emits_stopped(ev: TunnelEventView)
    ensures
        forall|i: int|
            0 <= i < step_events(ev).len() ==> !(#[trigger] step_events(ev)[i] is Stopped),
{
    if ev is Chunk {
        lemma_room_events_benign(spec_rooms(chunk_records(ev->Chunk_0)));
    }
}

/// Law: an empty message from the message transport produces nothing — no
/// frame, no bytes, no events.
pub proof fn lemma_empty_message_suppressed(data: Seq<u8>)
    requires
        data.len() == 0,
    ensures
        step_io(TunnelEventView::Message(data)) is None,
        step_events(TunnelEventView::Message(data)) == Seq::<EventView>::empty(),
{
}

proof fn lemma_forward_no_rooms(recs: Seq<(bool, Option<Seq<char>>)>)
    requires
        spec_forward(recs),
    ensures
        spec_rooms(recs) == Seq::<Seq<char>>::empty(),
    decreases recs.len(),
{
    if recs.len() > 0 {
        assert(spec_forward(recs.drop_last())) by {
            assert(forall|i: int|
                0 <= i < recs.drop_last().len() ==> !(#[trigger] recs.drop_last()[i]).0);
        }
        lemma_forward_no_rooms(recs.drop_last());
        assert(!recs[recs.len() - 1].0);
    }
}

/// Law: a chunk holding at least one control record is suppressed whole —
/// no part of it reaches the message transport, whatever else shares the
/// chunk.
pub proof fn lemma_control_chunk_suppressed(data: Seq<u8>)
    requires
        exists|i: int|
            0 <= i < chunk_records(data).len() && (#[trigger] chunk_records(data)[i]).0,
    ensures
        step_io(TunnelEventView::Chunk(data)) is None,
{
}

/// Law: a chunk holding no control record is forwarded byte-identical, as
/// one whole message, with nothing reported.
pub proof fn lemma_clean_chunk_forwarded(data: Seq<u8>)
    requires
        spec_forward(chunk_records(data)),
    ensures
        step_io(TunnelEventView::Chunk(data)) == Some(IoView::ForwardChunk(data)),
        step_events(TunnelEventView::Chunk(data)) == Seq::<EventView>::empty(),
{
    lemma_forward_no_rooms(chunk_records(data));
}

} // verus!
