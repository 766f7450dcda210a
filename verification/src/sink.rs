//! The one-way, non-blocking notification channel the tunnel core uses to
//! report events to the presentation layer. Producers never block; no
//! delivery guarantee is made beyond in-process FIFO order per producer.

use vstd::prelude::*;
use crate::events::ProxyEvent;

verus! {

#[verifier::external_type_specification]
#[verifier::external_body]
#[verifier::reject_recursive_types(T)]
pub struct ExSender<T>(crossbeam_channel::Sender<T>);

/// The sending half of the notification channel, as the tunnel core sees
/// it: events go in and are never waited on.
pub struct EventSink {
    tx: crossbeam_channel::Sender<ProxyEvent>,
}

impl EventSink {
    /// Wrap the sending half of an unbounded channel whose receiving half
    /// the presentation layer polls.
    pub fn new(tx: crossbeam_channel::Sender<ProxyEvent>) -> EventSink {
        EventSink { tx }
    }

    /// Relies on crossbeam_channel::Sender::send: on a channel built by
    /// `unbounded` it never blocks, and its only failure is a dropped
    /// receiver. That failure is deliberately ignored: the sink is
    /// fire-and-forget, and a vanished consumer must not stop the tunnel.
    #[verifier::external_body]
    pub fn emit(&self, e: ProxyEvent) {
        let _ = self.tx.send(e);
    }

    /// Report a batch of events, in order.
    pub fn emit_all(&self, events: Vec<ProxyEvent>) {
        let mut events = events;
        while events.len() > 0
            decreases events@.len(),
        {
            let e = events.remove(0);
            self.emit(e);
        }
    }
}

} // verus!
