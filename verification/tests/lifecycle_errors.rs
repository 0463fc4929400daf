use ws_transport::connection::{
    ConnectionId, ConnectionLifecycle, ConnectionState, LifecycleEvent, PumpSide,
};
use ws_transport::error::{connect_failure, handshake_message, HandshakeFailure, TransportError};
use ws_transport::provider::connect_outcome;
use ws_transport::settings::NetworkSettings;

#[test]
fn default_settings_limits() {
    let s = NetworkSettings::default();
    assert_eq!(s.max_message_size, 64 << 20);
    assert_eq!(s.max_frame_size, 16 << 20);
    assert!(!s.accept_unmasked_frames);
}

#[test]
fn handshake_messages_with_detail() {
    assert_eq!(
        handshake_message(&HandshakeFailure::Io, "broken pipe"),
        "Io Error: broken pipe"
    );
    assert_eq!(
        handshake_message(&HandshakeFailure::SecureTransport, "bad cert"),
        "Tls Error: bad cert"
    );
    assert_eq!(
        handshake_message(&HandshakeFailure::Capacity, "too big"),
        "Capacity Error: too big"
    );
    assert_eq!(
        handshake_message(&HandshakeFailure::Protocol, "bad frame"),
        "Protocol Error: bad frame"
    );
    assert_eq!(
        handshake_message(&HandshakeFailure::WriteBufferFull, "queued"),
        "Write Buffer Full Error: queued"
    );
    assert_eq!(
        handshake_message(&HandshakeFailure::MalformedUrl, "no scheme"),
        "Url Error: no scheme"
    );
    assert_eq!(
        handshake_message(&HandshakeFailure::MalformedResponse, "status 500"),
        "HTTP Error: status 500"
    );
}

#[test]
fn handshake_messages_without_detail() {
    assert_eq!(handshake_message(&HandshakeFailure::Closed, "ignored"), "Connection closed");
    assert_eq!(
        handshake_message(&HandshakeFailure::AlreadyClosed, "ignored"),
        "Connection was already closed"
    );
    assert_eq!(handshake_message(&HandshakeFailure::Encoding, "ignored"), "Utf8 Error");
}

#[test]
fn every_connect_failure_is_a_handshake_error() {
    let causes = [
        HandshakeFailure::Closed,
        HandshakeFailure::AlreadyClosed,
        HandshakeFailure::Io,
        HandshakeFailure::SecureTransport,
        HandshakeFailure::Capacity,
        HandshakeFailure::Protocol,
        HandshakeFailure::WriteBufferFull,
        HandshakeFailure::Encoding,
        HandshakeFailure::MalformedUrl,
        HandshakeFailure::MalformedResponse,
    ];
    for cause in causes {
        assert_eq!(connect_failure(cause), TransportError::Handshake(cause));
        assert_eq!(connect_outcome::<u32>(Err(cause)), Err(TransportError::Handshake(cause)));
    }
    assert_eq!(connect_outcome::<u32>(Ok(5)), Ok(5));
}

#[test]
fn only_encode_failures_are_message_granular() {
    assert!(!TransportError::Encode.fatal_to_connection());
    assert!(TransportError::Decode.fatal_to_connection());
    assert!(TransportError::Framing.fatal_to_connection());
    assert!(TransportError::Io.fatal_to_connection());
    assert!(TransportError::Listen.fatal_to_connection());
    assert!(TransportError::Unsupported.fatal_to_connection());
    assert!(TransportError::Handshake(HandshakeFailure::Io).fatal_to_connection());
}

#[test]
fn lifecycle_emits_one_terminal_event() {
    let id = ConnectionId { id: 3 };
    let mut conn = ConnectionLifecycle::new(id);
    assert_eq!(conn.state, ConnectionState::Connecting);
    assert_eq!(conn.opened(), LifecycleEvent::Connected(id));
    assert_eq!(conn.state, ConnectionState::Open);
    assert!(conn.recv_running && conn.send_running);
    // The receive pump hits a framing fault: the one Error event of this
    // connection goes out and the send pump is left to be signalled.
    let ev = conn.pump_exited(PumpSide::Recv, Some(TransportError::Framing));
    assert_eq!(ev, LifecycleEvent::Error(id, TransportError::Framing));
    assert_eq!(conn.state, ConnectionState::Closing);
    assert!(!conn.recv_running && conn.send_running);
    // The signalled pump exits; nothing further is surfaced.
    conn.partner_exited();
    assert_eq!(conn.state, ConnectionState::Closed);
    assert!(!conn.recv_running && !conn.send_running);
}

#[test]
fn clean_shutdown_is_a_disconnect_event() {
    let id = ConnectionId { id: 8 };
    let mut conn = ConnectionLifecycle::new(id);
    conn.opened();
    let ev = conn.pump_exited(PumpSide::Send, None);
    assert_eq!(ev, LifecycleEvent::Disconnected(id));
    assert_eq!(conn.state, ConnectionState::Closing);
    assert!(conn.recv_running && !conn.send_running);
    conn.partner_exited();
    assert_eq!(conn.state, ConnectionState::Closed);
}
