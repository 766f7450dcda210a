//! The events the tunnel core reports across its boundary, and their
//! specification-level views.

use vstd::prelude::*;

verus! {

/// The only data the tunnel core emits to the presentation layer: log lines,
/// status changes, a discovered room code, and the single terminal event.
#[derive(Debug, PartialEq, Eq)]
pub enum ProxyEvent {
    Log(String),
    Status(String),
    RoomCode(String),
    Stopped,
}

/// Specification-level image of a `ProxyEvent`: each carried string is seen
/// as its character sequence.
pub enum EventView {
    Log(Seq<char>),
    Status(Seq<char>),
    RoomCode(Seq<char>),
    Stopped,
}

impl View for ProxyEvent {
    type V = EventView;

    open spec fn view(&self) -> EventView {
        match self {
            ProxyEvent::Log(s) => EventView::Log(s@),
            ProxyEvent::Status(s) => EventView::Status(s@),
            ProxyEvent::RoomCode(s) => EventView::RoomCode(s@),
            ProxyEvent::Stopped => EventView::Stopped,
        }
    }
}

/// The view of a whole emission batch, in order.
pub open spec fn events_view(s: Seq<ProxyEvent>) -> Seq<EventView> {
    s.map_values(|e: ProxyEvent| e@)
}

} // verus!
