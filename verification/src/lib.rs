//! A message-oriented WebSocket transport layer.
//!
//! The crate models the platform-independent core of a full-duplex,
//! message-oriented connection: the settings snapshot taken at connect or
//! accept time, the error taxonomy, the two framing strategies (an explicit
//! length-prefixed raw mode and a frame-per-message mode), the decision logic
//! of the receive and send pumps, and the accept sequence that hands out one
//! handshake-completed socket at a time. Socket and channel plumbing is left
//! to the embedding application, which drives these verified state machines.

use vstd::prelude::*;

pub mod acceptor;
pub mod connection;
pub mod envelope;
pub mod error;
pub mod frame;
pub mod json;
pub mod provider;
pub mod pump;
pub mod registry;
pub mod settings;

pub use settings::NetworkSettings;

verus! {

/// The provider of the primary deployment: native OS sockets. The
/// sandboxed, client-only platform deploys
/// `provider::WasmWebSocketProvider` under this name instead, chosen at
/// build configuration time, never by runtime inspection.
pub type WebSocketProvider = crate::provider::NativeWesocketProvider;

} // verus!
