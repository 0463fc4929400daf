//! The per-connection lifecycle.
//!
//! A connection is created on a successful connect or accept, runs both
//! pumps while open, and is gone once both have exited. There is no
//! partial-close state exposed upward: either pump observing a terminal
//! condition moves the connection toward closed, the other pump is told
//! to stop, and the application sees exactly one terminal event —
//! `Disconnected` or `Error` — never none and never two.

use vstd::prelude::*;

use crate::error::TransportError;

verus! {

/// The opaque identifier of one connection in the flat connection-id
/// space.
#[derive(Clone, Copy, Debug, PartialEq, Eq, Structural)]
pub struct ConnectionId {
    /// The identifier's value.
    pub id: u32,
}

/// A lifecycle event surfaced to the application.
#[derive(Clone, Copy, Debug, PartialEq, Eq, Structural)]
pub enum LifecycleEvent {
    /// The connection is open; both pumps are running.
    Connected(ConnectionId),
    /// The connection ended cleanly.
    Disconnected(ConnectionId),
    /// The connection ended on a fatal error.
    Error(ConnectionId, TransportError),
}

/// Where a connection stands. `Open` is the only state in which both
/// pumps run.
#[derive(Clone, Copy, Debug, PartialEq, Eq, Structural)]
pub enum ConnectionState {
    /// The transport and protocol handshake is under way.
    Connecting,
    /// Both pumps are running.
    Open,
    /// One pump hit a terminal condition and exited; the other has been
    /// signalled and has not exited yet.
    Closing,
    /// Both pumps have exited; the connection is gone.
    Closed,
}

/// One of the two pumps of a connection.
#[derive(Clone, Copy, Debug, PartialEq, Eq, Structural)]
pub enum PumpSide {
    /// The receive pump, socket to inbox.
    Recv,
    /// The send pump, outbox to socket.
    Send,
}

/// The lifecycle state machine of one connection.
pub struct ConnectionLifecycle {
    /// This connection's identifier.
    pub id: ConnectionId,
    /// Where the connection stands.
    pub state: ConnectionState,
    /// Whether the receive pump is still running.
    pub recv_running: bool,
    /// Whether the send pump is still running.
    pub send_running: bool,
}

impl ConnectionLifecycle {
    /// The pumps run exactly while the connection is open, and closing
    /// means exactly one of them is still on its way out.
    pub open spec fn wf(&self) -> bool {
        match self.state {
            ConnectionState::Connecting => !self.recv_running && !self.send_running,
            ConnectionState::Open => self.recv_running && self.send_running,
            ConnectionState::Closing => self.recv_running != self.send_running,
            ConnectionState::Closed => !self.recv_running && !self.send_running,
        }
    }

    /// Whether the given pump is still running.
    pub open spec fn running(&self, side: PumpSide) -> bool {
        match side {
            PumpSide::Recv => self.recv_running,
            PumpSide::Send => self.send_running,
        }
    }

    /// A connection whose handshake has just been started.
    pub fn new(id: ConnectionId) -> (c: Self)
        ensures
            c.id == id,
            c.state is Connecting,
            c.wf(),
    {
        ConnectionLifecycle {
            id,
            state: ConnectionState::Connecting,
            recv_running: false,
            send_running: false,
        }
    }

    /// The handshake succeeded: the socket was split and both pumps
    /// started. Surfaces the one `Connected` event.
    pub fn opened(&mut self) -> (ev: LifecycleEvent)
        requires
            old(self).state is Connecting,
            old(self).wf(),
        ensures
            final(self).state is Open,
            final(self).wf(),
            final(self).id == old(self).id,
            ev == LifecycleEvent::Connected(old(self).id),
    {
        self.state = ConnectionState::Open;
        self.recv_running = true;
        self.send_running = true;
        LifecycleEvent::Connected(self.id)
    }

    /// One pump observed a terminal condition and exited. The connection
    /// moves to closing, the other pump must now be signalled to stop
    /// (by closing its channel or dropping the socket), and the one
    /// terminal event of this connection is surfaced here: `Error` when
    /// a fault was observed, `Disconnected` for a clean end. No later
    /// transition surfaces another.
    pub fn pump_exited(&mut self, side: PumpSide, fault: Option<TransportError>) -> (ev:
        LifecycleEvent)
        requires
            old(self).state is Open,
            old(self).wf(),
        ensures
            final(self).state is Closing,
            final(self).wf(),
            final(self).id == old(self).id,
            !final(self).running(side),
            fault matches Some(e) ==> ev == LifecycleEvent::Error(old(self).id, e),
            fault is None ==> ev == LifecycleEvent::Disconnected(old(self).id),
    {
        self.state = ConnectionState::Closing;
        match side {
            PumpSide::Recv => {
                self.recv_running = false;
            },
            PumpSide::Send => {
                self.send_running = false;
            },
        }
        match fault {
            Some(e) => LifecycleEvent::Error(self.id, e),
            None => LifecycleEvent::Disconnected(self.id),
        }
    }

    /// The signalled pump exited too: both halves are dropped and the
    /// connection is gone. Nothing further is surfaced — the terminal
    /// event went out when the first pump exited.
    pub fn partner_exited(&mut self)
        requires
            old(self).state is Closing,
            old(self).wf(),
        ensures
            final(self).state is Closed,
            final(self).wf(),
            final(self).id == old(self).id,
    {
        self.state = ConnectionState::Closed;
        self.recv_running = false;
        self.send_running = false;
    }
}

} // verus!
