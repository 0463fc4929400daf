use ws_transport::acceptor::{drain_completions, AcceptProgress, Acceptor, PollOutcome};
use ws_transport::error::TransportError;
use ws_transport::provider::{NativeWesocketProvider, WasmWebSocketProvider};
use ws_transport::settings::NetworkSettings;

#[test]
fn single_flight_poll_cycle() {
    let mut acceptor = Acceptor::new();
    assert!(!acceptor.in_flight);
    // An empty slot starts exactly one accept-and-handshake operation.
    assert_eq!(acceptor.poll::<u32>(None), PollOutcome::Started);
    assert!(acceptor.in_flight);
    // While it is pending the sequence yields nothing and starts nothing.
    assert_eq!(acceptor.poll(Some(AcceptProgress::<u32>::Pending)), PollOutcome::StillPending);
    assert!(acceptor.in_flight);
    // The completed handshake yields its socket and frees the slot.
    assert_eq!(
        acceptor.poll(Some(AcceptProgress::Complete(Some(7u32)))),
        PollOutcome::Accepted(7)
    );
    assert!(!acceptor.in_flight);
    // Only now may the next accept start.
    assert_eq!(acceptor.poll::<u32>(None), PollOutcome::Started);
}

#[test]
fn failed_attempt_is_skipped_not_terminal() {
    let mut acceptor = Acceptor::new();
    assert_eq!(acceptor.poll::<u32>(None), PollOutcome::Started);
    assert_eq!(
        acceptor.poll(Some(AcceptProgress::<u32>::Complete(None))),
        PollOutcome::AttemptFailed
    );
    // The dead attempt freed the slot; the sequence goes on accepting.
    assert!(!acceptor.in_flight);
    assert_eq!(acceptor.poll::<u32>(None), PollOutcome::Started);
}

#[test]
fn sockets_yielded_in_completion_order_skipping_failures() {
    let mut acceptor = Acceptor::new();
    let completions = vec![Some(10u32), None, Some(11), None, None, Some(12)];
    let socks = drain_completions(&mut acceptor, completions);
    assert_eq!(socks, vec![10, 11, 12]);
    assert!(!acceptor.in_flight);
}

#[test]
fn native_accept_binds_or_fails_with_listen() {
    assert!(NativeWesocketProvider::supports_accept());
    match NativeWesocketProvider::accept_outcome(Some(99u32)) {
        Ok((listener, acceptor)) => {
            assert_eq!(listener, 99);
            assert!(!acceptor.in_flight);
        }
        Err(e) => panic!("a bound listener must start a sequence, got {:?}", e),
    }
    assert_eq!(
        NativeWesocketProvider::accept_outcome::<u32>(None),
        Err(TransportError::Listen)
    );
}

#[test]
fn sandboxed_accept_is_unsupported_immediately() {
    assert!(!WasmWebSocketProvider::supports_accept());
    let r = WasmWebSocketProvider::accept_loop("127.0.0.1:8081", &NetworkSettings::default());
    assert_eq!(r, Err(TransportError::Unsupported));
}
