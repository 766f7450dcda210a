use troudever::events::ProxyEvent;
use troudever::sink::EventSink;
use troudever::tunnel::{Tunnel, TunnelEvent};

#[test]
fn emitted_events_arrive_in_order() {
    let (tx, rx) = crossbeam_channel::unbounded();
    let sink = EventSink::new(tx);
    sink.emit_all(vec![
        ProxyEvent::Log("first".to_string()),
        ProxyEvent::Status("second".to_string()),
        ProxyEvent::RoomCode("third".to_string()),
    ]);
    assert_eq!(rx.try_recv(), Ok(ProxyEvent::Log("first".to_string())));
    assert_eq!(rx.try_recv(), Ok(ProxyEvent::Status("second".to_string())));
    assert_eq!(rx.try_recv(), Ok(ProxyEvent::RoomCode("third".to_string())));
    assert!(rx.try_recv().is_err());
}

#[test]
fn emit_never_fails_without_a_consumer() {
    let (tx, rx) = crossbeam_channel::unbounded();
    drop(rx);
    let sink = EventSink::new(tx);
    sink.emit(ProxyEvent::Stopped);
}

#[test]
fn step_and_report_delivers_the_step_events() {
    let (tx, rx) = crossbeam_channel::unbounded();
    let sink = EventSink::new(tx);
    let mut tunnel = Tunnel::new();
    let chunk = br#"{"internal":true,"room":"AB12"}"#.to_vec();
    let io = tunnel.step_and_report(&sink, TunnelEvent::Chunk(chunk));
    assert_eq!(io, None);
    assert_eq!(rx.try_recv(), Ok(ProxyEvent::RoomCode("AB12".to_string())));
    assert_eq!(rx.try_recv(), Ok(ProxyEvent::Log("Room ID reçue: AB12".to_string())));
    assert!(rx.try_recv().is_err());
}

#[test]
fn a_session_reports_exactly_one_terminal_event() {
    let (tx, rx) = crossbeam_channel::unbounded();
    let sink = EventSink::new(tx);
    let mut tunnel = Tunnel::new();
    let io = tunnel.step_and_report(&sink, TunnelEvent::StreamClosed);
    assert_eq!(io, None);
    assert!(!tunnel.is_active());
    sink.emit(tunnel.finish());
    let received: Vec<ProxyEvent> = rx.try_iter().collect();
    let stops = received.iter().filter(|e| matches!(e, ProxyEvent::Stopped)).count();
    assert_eq!(stops, 1);
    assert_eq!(received.last(), Some(&ProxyEvent::Stopped));
}
