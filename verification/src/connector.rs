//! The two-step connection handshake: the message transport is attempted
//! first, and only on success the stream transport. Each failure is terminal
//! and reported once as a log event; a failed low-latency toggle on the
//! stream transport is only a warning.

use vstd::prelude::*;
use vstd::string::StringExecFns;
use crate::events::{EventView, ProxyEvent, events_view};

verus! {

/// Whether a string parses as a URL for the message transport: a function
/// of the string alone.
pub uninterp spec fn ws_url_ok(s: Seq<char>) -> bool;

/// The display text of the URL parse error on a string that does not parse:
/// a function of the string alone.
pub uninterp spec fn url_error_text(s: Seq<char>) -> Seq<char>;

/// Relies on url::Url::parse: whether a string parses, and the display text
/// of the parse error when it does not, depend on the string alone;
/// `ws_url_ok` and `url_error_text` name the two.
#[verifier::external_body]
fn parse_ws_url(s: &str) -> (r: Option<String>)
    ensures
        (r is None) == ws_url_ok(s@),
        r is Some ==> r->0@ == url_error_text(s@),
{
    match url::Url::parse(s) {
        Ok(_) => None,
        Err(e) => Some(e.to_string()),
    }
}

/// One step of the handshake: what to report, in order, and whether to go
/// on with the session.
pub struct ConnectStep {
    pub events: Vec<ProxyEvent>,
    pub proceed: bool,
}

/// Open the handshake: announce the message-transport attempt, and validate
/// the target's URL. A malformed target is reported and stops the session
/// before any connection is made.
pub fn begin_connect(ws_url: &str) -> (r: ConnectStep)
    ensures
        r.proceed == ws_url_ok(ws_url@),
        r.proceed ==> events_view(r.events@) == seq![
            EventView::Log("Connecting to WebSocket at "@ + ws_url@ + "..."@),
        ],
        !r.proceed ==> events_view(r.events@) == seq![
            EventView::Log("Connecting to WebSocket at "@ + ws_url@ + "..."@),
            EventView::Log("Invalid URL: "@ + url_error_text(ws_url@)),
        ],
{
    let mut events: Vec<ProxyEvent> = Vec::new();
    let mut announce = "Connecting to WebSocket at ".to_owned();
    announce.append(ws_url);
    announce.append("...");
    events.push(ProxyEvent::Log(announce));
    match parse_ws_url(ws_url) {
        None => {
            proof {
                assert(events_view(events@) =~= seq![
                    EventView::Log("Connecting to WebSocket at "@ + ws_url@ + "..."@),
                ]);
            }
            ConnectStep { events, proceed: true }
        },
        Some(err) => {
            let mut msg = "Invalid URL: ".to_owned();
            msg.append(err.as_str());
            events.push(ProxyEvent::Log(msg));
            proof {
                assert(events_view(events@) =~= seq![
                    EventView::Log("Connecting to WebSocket at "@ + ws_url@ + "..."@),
                    EventView::Log("Invalid URL: "@ + url_error_text(ws_url@)),
                ]);
            }
            ConnectStep { events, proceed: false }
        },
    }
}

/// Digest the message-transport handshake's outcome: on failure report it
/// and stop; on success report it and announce the stream-transport
/// attempt. `err` is the handshake error's display text, if it failed.
pub fn on_message_transport_result(err: Option<String>, tcp_addr: &str) -> (r: ConnectStep)
    ensures
        r.proceed == (err is None),
        err is Some ==> events_view(r.events@) == seq![
            EventView::Log("WebSocket connection failed: "@ + err->0@),
        ],
        err is None ==> events_view(r.events@) == seq![
            EventView::Log("[OK] WebSocket Connected"@),
            EventView::Log("Connecting to TCP Server at "@ + tcp_addr@ + "..."@),
        ],
{
    let mut events: Vec<ProxyEvent> = Vec::new();
    match err {
        Some(e) => {
            let mut msg = "WebSocket connection failed: ".to_owned();
            msg.append(e.as_str());
            events.push(ProxyEvent::Log(msg));
            proof {
                assert(events_view(events@) =~= seq![
                    EventView::Log("WebSocket connection failed: "@ + e@),
                ]);
            }
            ConnectStep { events, proceed: false }
        },
        None => {
            events.push(ProxyEvent::Log("[OK] WebSocket Connected".to_owned()));
            let mut announce = "Connecting to TCP Server at ".to_owned();
            announce.append(tcp_addr);
            announce.append("...");
            events.push(ProxyEvent::Log(announce));
            proof {
                assert(events_view(events@) =~= seq![
                    EventView::Log("[OK] WebSocket Connected"@),
                    EventView::Log("Connecting to TCP Server at "@ + tcp_addr@ + "..."@),
                ]);
            }
            ConnectStep { events, proceed: true }
        },
    }
}

/// Digest the stream-transport connection's outcome: on failure report it
/// and stop. On success, first report the low-latency toggle's failure as a
/// non-fatal warning if there was one, then report the live tunnel.
/// `err` is the connection error's display text; `nodelay_err` the toggle
/// failure's display text.
pub fn on_stream_transport_result(err: Option<String>, nodelay_err: Option<String>) -> (r:
    ConnectStep)
    ensures
        r.proceed == (err is None),
        err is Some ==> events_view(r.events@) == seq![
            EventView::Log("TCP connection failed: "@ + err->0@),
        ],
        err is None && nodelay_err is Some ==> events_view(r.events@) == seq![
            EventView::Log("Warning: Failed to set TCP_NODELAY: "@ + nodelay_err->0@),
            EventView::Log("[OK] TCP Connected. Tunnel active."@),
            EventView::Status("Connected (Active)"@),
        ],
        err is None && nodelay_err is None ==> events_view(r.events@) == seq![
            EventView::Log("[OK] TCP Connected. Tunnel active."@),
            EventView::Status("Connected (Active)"@),
        ],
{
    let mut events: Vec<ProxyEvent> = Vec::new();
    match err {
        Some(e) => {
            let mut msg = "TCP connection failed: ".to_owned();
            msg.append(e.as_str());
            events.push(ProxyEvent::Log(msg));
            proof {
                assert(events_view(events@) =~= seq![
                    EventView::Log("TCP connection failed: "@ + e@),
                ]);
            }
            ConnectStep { events, proceed: false }
        },
        None => {
            let ghost warn = nodelay_err;
            if let Some(w) = nodelay_err {
                let mut msg = "Warning: Failed to set TCP_NODELAY: ".to_owned();
                msg.append(w.as_str());
                events.push(ProxyEvent::Log(msg));
            }
            events.push(ProxyEvent::Log("[OK] TCP Connected. Tunnel active.".to_owned()));
            events.push(ProxyEvent::Status("Connected (Active)".to_owned()));
            proof {
                if warn is Some {
                    assert(events_view(events@) =~= seq![
                        EventView::Log("Warning: Failed to set TCP_NODELAY: "@ + warn->0@),
                        EventView::Log("[OK] TCP Connected. Tunnel active."@),
                        EventView::Status("Connected (Active)"@),
                    ]);
                } else {
                    assert(events_view(events@) =~= seq![
                        EventView::Log("[OK] TCP Connected. Tunnel active."@),
                        EventView::Status("Connected (Active)"@),
                    ]);
                }
            }
            ConnectStep { events, proceed: true }
        },
    }
}

} // verus!
