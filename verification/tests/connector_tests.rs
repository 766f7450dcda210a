use troudever::connector::{begin_connect, on_message_transport_result, on_stream_transport_result};
use troudever::events::ProxyEvent;

#[test]
fn valid_url_proceeds_after_announcement() {
    let step = begin_connect("ws://localhost:4455");
    assert!(step.proceed);
    assert_eq!(
        step.events,
        vec![ProxyEvent::Log("Connecting to WebSocket at ws://localhost:4455...".to_string())]
    );
}

#[test]
fn malformed_url_is_reported_and_stops() {
    let step = begin_connect("not a url");
    assert!(!step.proceed);
    assert_eq!(step.events.len(), 2);
    assert_eq!(
        step.events[0],
        ProxyEvent::Log("Connecting to WebSocket at not a url...".to_string())
    );
    match &step.events[1] {
        ProxyEvent::Log(msg) => assert!(msg.starts_with("Invalid URL: ")),
        other => panic!("expected a log event, got {:?}", other),
    }
}

#[test]
fn message_transport_success_announces_stream_attempt() {
    let step = on_message_transport_result(None, "127.0.0.1:9000");
    assert!(step.proceed);
    assert_eq!(
        step.events,
        vec![
            ProxyEvent::Log("[OK] WebSocket Connected".to_string()),
            ProxyEvent::Log("Connecting to TCP Server at 127.0.0.1:9000...".to_string()),
        ]
    );
}

#[test]
fn message_transport_failure_is_terminal() {
    let step = on_message_transport_result(Some("refused".to_string()), "127.0.0.1:9000");
    assert!(!step.proceed);
    assert_eq!(
        step.events,
        vec![ProxyEvent::Log("WebSocket connection failed: refused".to_string())]
    );
}

#[test]
fn stream_transport_success_reports_active_tunnel() {
    let step = on_stream_transport_result(None, None);
    assert!(step.proceed);
    assert_eq!(
        step.events,
        vec![
            ProxyEvent::Log("[OK] TCP Connected. Tunnel active.".to_string()),
            ProxyEvent::Status("Connected (Active)".to_string()),
        ]
    );
}

#[test]
fn nodelay_failure_is_only_a_warning() {
    let step = on_stream_transport_result(None, Some("denied".to_string()));
    assert!(step.proceed);
    assert_eq!(
        step.events,
        vec![
            ProxyEvent::Log("Warning: Failed to set TCP_NODELAY: denied".to_string()),
            ProxyEvent::Log("[OK] TCP Connected. Tunnel active.".to_string()),
            ProxyEvent::Status("Connected (Active)".to_string()),
        ]
    );
}

#[test]
fn stream_transport_failure_is_terminal() {
    let step = on_stream_transport_result(Some("timed out".to_string()), None);
    assert!(!step.proceed);
    assert_eq!(
        step.events,
        vec![ProxyEvent::Log("TCP connection failed: timed out".to_string())]
    );
}
