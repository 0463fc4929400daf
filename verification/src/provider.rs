//! The transport capability interface, implemented once per platform.
//!
//! The native platform owns real sockets and may host both roles; the
//! sandboxed browser-hosted platform is client-only. Each provider's
//! socket, listener and handshake live with the embedding; what stands
//! here is the platform contract itself — which roles are supported, and
//! how every platform outcome is folded into the stable taxonomy before
//! it crosses the transport boundary.

use vstd::prelude::*;

use crate::acceptor::Acceptor;
use crate::error::{HandshakeFailure, TransportError};
use crate::settings::NetworkSettings;

verus! {

/// Folds the outcome of a connect-time handshake into the taxonomy: a
/// connected socket passes through untouched, and every failure crosses
/// the boundary as its handshake cause — never as a raw platform error.
pub fn connect_outcome<S>(handshake: Result<S, HandshakeFailure>) -> (r: Result<
    S,
    TransportError,
>)
    ensures
        handshake matches Ok(sock) ==> r == Ok::<_, TransportError>(sock),
        handshake matches Err(cause) ==> r == Err::<S, _>(TransportError::Handshake(cause)),
{
    match handshake {
        Ok(sock) => Ok(sock),
        Err(cause) => Err(TransportError::Handshake(cause)),
    }
}

/// The provider for platforms with native OS sockets: full duplex as a
/// client, and the only platform that may host the server role.
#[derive(Default, Debug, Clone, Copy, PartialEq, Eq, Structural)]
pub struct NativeWesocketProvider;

impl NativeWesocketProvider {
    /// The native platform may host the server role.
    pub fn supports_accept() -> (b: bool)
        ensures
            b,
    {
        true
    }

    /// Folds the outcome of binding the listening endpoint into the
    /// taxonomy: a bound listener starts a fresh accept sequence with
    /// nothing in flight, and a failed bind is a listen failure.
    pub fn accept_outcome<L>(bound: Option<L>) -> (r: Result<(L, Acceptor), TransportError>)
        ensures
            bound matches Some(listener) ==> (r matches Ok(started) && started.0 == listener
                && !started.1.in_flight),
            bound is None ==> r == Err::<(L, Acceptor), _>(TransportError::Listen),
    {
        match bound {
            Some(listener) => Ok((listener, Acceptor::new())),
            None => Err(TransportError::Listen),
        }
    }
}

/// The provider for the sandboxed browser-hosted platform: single
/// threaded, cooperatively scheduled, and client-only.
#[derive(Default, Debug, Clone, Copy, PartialEq, Eq, Structural)]
pub struct WasmWebSocketProvider;

impl WasmWebSocketProvider {
    /// The sandboxed platform cannot host the server role.
    pub fn supports_accept() -> (b: bool)
        ensures
            !b,
    {
        false
    }

    /// The server role is unsupported here: the request fails fast and
    /// loudly, for every bind address and every settings snapshot, so a
    /// caller can never block waiting on an accept sequence that will
    /// not exist.
    pub fn accept_loop(_bind_addr: &str, _settings: &NetworkSettings) -> (r: Result<
        Acceptor,
        TransportError,
    >)
        ensures
            r == Err::<Acceptor, _>(TransportError::Unsupported),
    {
        Err(TransportError::Unsupported)
    }
}

} // verus!
