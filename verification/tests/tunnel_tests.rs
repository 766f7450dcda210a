use troudever::events::ProxyEvent;
use troudever::tunnel::{IoAction, Tunnel, TunnelEvent};

#[test]
fn happy_path_message_becomes_frame() {
    let mut tunnel = Tunnel::new();
    assert!(tunnel.is_active());
    let r = tunnel.step(TunnelEvent::Message(b"hello".to_vec()));
    assert_eq!(r.events, Vec::<ProxyEvent>::new());
    assert_eq!(
        r.io,
        Some(IoAction::WriteFrame { header: vec![0x00, 0x00, 0x00, 0x05], payload: b"hello".to_vec() })
    );
    assert!(tunnel.is_active());
}

#[test]
fn empty_message_writes_nothing() {
    let mut tunnel = Tunnel::new();
    let r = tunnel.step(TunnelEvent::Message(Vec::new()));
    assert_eq!(r.events, Vec::<ProxyEvent>::new());
    assert_eq!(r.io, None);
    assert!(tunnel.is_active());
}

#[test]
fn clean_chunk_is_forwarded_byte_identical() {
    let mut tunnel = Tunnel::new();
    let chunk = b"raw bytes, not json".to_vec();
    let r = tunnel.step(TunnelEvent::Chunk(chunk.clone()));
    assert_eq!(r.events, Vec::<ProxyEvent>::new());
    assert_eq!(r.io, Some(IoAction::ForwardChunk(chunk)));
    assert!(tunnel.is_active());
}

#[test]
fn control_chunk_is_suppressed_and_room_reported() {
    let mut tunnel = Tunnel::new();
    let chunk = br#"{"internal":true,"room":"AB12"}"#.to_vec();
    let r = tunnel.step(TunnelEvent::Chunk(chunk));
    assert_eq!(r.io, None);
    assert_eq!(
        r.events,
        vec![
            ProxyEvent::RoomCode("AB12".to_string()),
            ProxyEvent::Log("Room ID reçue: AB12".to_string()),
        ]
    );
    assert!(tunnel.is_active());
}

#[test]
fn mixed_control_chunk_is_suppressed_whole() {
    let mut tunnel = Tunnel::new();
    let chunk = br#"{"internal":true}{"x":1}"#.to_vec();
    let r = tunnel.step(TunnelEvent::Chunk(chunk));
    assert_eq!(r.io, None);
    assert_eq!(r.events, Vec::<ProxyEvent>::new());
    assert!(tunnel.is_active());
}

#[test]
fn peer_close_terminates_with_one_log_and_one_stop() {
    let mut tunnel = Tunnel::new();
    let r = tunnel.step(TunnelEvent::StreamClosed);
    assert_eq!(r.io, None);
    assert_eq!(r.events, vec![ProxyEvent::Log("TCP server closed connection".to_string())]);
    assert!(!tunnel.is_active());
    assert_eq!(tunnel.finish(), ProxyEvent::Stopped);
}

#[test]
fn message_read_error_terminates() {
    let mut tunnel = Tunnel::new();
    let r = tunnel.step(TunnelEvent::MessageReadError("boom".to_string()));
    assert_eq!(r.io, None);
    assert_eq!(r.events, vec![ProxyEvent::Log("WebSocket read error: boom".to_string())]);
    assert!(!tunnel.is_active());
}

#[test]
fn message_send_error_terminates() {
    let mut tunnel = Tunnel::new();
    let r = tunnel.step(TunnelEvent::MessageSendError("boom".to_string()));
    assert_eq!(r.events, vec![ProxyEvent::Log("WebSocket send error: boom".to_string())]);
    assert!(!tunnel.is_active());
}

#[test]
fn stream_read_error_terminates() {
    let mut tunnel = Tunnel::new();
    let r = tunnel.step(TunnelEvent::StreamReadError("boom".to_string()));
    assert_eq!(r.events, vec![ProxyEvent::Log("TCP read error: boom".to_string())]);
    assert!(!tunnel.is_active());
}

#[test]
fn header_write_error_terminates() {
    let mut tunnel = Tunnel::new();
    let r = tunnel.step(TunnelEvent::HeaderWriteError("boom".to_string()));
    assert_eq!(r.events, vec![ProxyEvent::Log("TCP write len error: boom".to_string())]);
    assert!(!tunnel.is_active());
}

#[test]
fn payload_write_error_terminates() {
    let mut tunnel = Tunnel::new();
    let r = tunnel.step(TunnelEvent::PayloadWriteError("boom".to_string()));
    assert_eq!(r.events, vec![ProxyEvent::Log("TCP write data error: boom".to_string())]);
    assert!(!tunnel.is_active());
}
