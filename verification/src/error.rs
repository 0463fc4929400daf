//! The stable error taxonomy of the transport layer.
//!
//! Every failure of the underlying platform is mapped into this small set
//! before it crosses the transport boundary; no raw platform error type is
//! ever propagated upward.

use vstd::prelude::*;
use vstd::string::StringExecFns;

verus! {

/// The category of a connect-time handshake failure. Each underlying
/// protocol, TLS or HTTP negotiation failure is folded into exactly one of
/// these causes.
#[derive(Clone, Copy, Debug, PartialEq, Eq, Structural)]
pub enum HandshakeFailure {
    /// The connection closed during the handshake.
    Closed,
    /// The connection had already been closed when the handshake started.
    AlreadyClosed,
    /// A read or write on the underlying stream failed.
    Io,
    /// The secure-transport (TLS) negotiation failed.
    SecureTransport,
    /// A negotiated buffer or message limit was exceeded.
    Capacity,
    /// The peer violated the WebSocket protocol.
    Protocol,
    /// The outgoing write buffer was full.
    WriteBufferFull,
    /// A payload was not valid UTF-8 where text was required.
    Encoding,
    /// The connect target was not a well-formed URL.
    MalformedUrl,
    /// The HTTP upgrade response was invalid or malformed.
    MalformedResponse,
}

/// The transport error taxonomy. `Encode` and `Decode` concern a single
/// message; the rest are connection-fatal or lifecycle failures.
#[derive(Clone, Copy, Debug, PartialEq, Eq, Structural)]
pub enum TransportError {
    /// The listening endpoint could not be bound.
    Listen,
    /// The connect-time handshake failed, with its cause.
    Handshake(HandshakeFailure),
    /// The length prefix was violated: an oversize length, a short header
    /// read, or a truncated payload.
    Framing,
    /// A payload did not parse as the expected type, or arrived in the
    /// wrong representation (text where binary was declared, or the
    /// reverse).
    Decode,
    /// An application payload could not be serialized.
    Encode,
    /// A read or write failed on an otherwise healthy socket.
    Io,
    /// The server role was requested on a platform that forbids it.
    Unsupported,
}

/// The fixed text that introduces each handshake failure cause.
pub open spec fn handshake_prefix(c: HandshakeFailure) -> Seq<char> {
    match c {
        HandshakeFailure::Closed => "Connection closed"@,
        HandshakeFailure::AlreadyClosed => "Connection was already closed"@,
        HandshakeFailure::Io => "Io Error: "@,
        HandshakeFailure::SecureTransport => "Tls Error: "@,
        HandshakeFailure::Capacity => "Capacity Error: "@,
        HandshakeFailure::Protocol => "Protocol Error: "@,
        HandshakeFailure::WriteBufferFull => "Write Buffer Full Error: "@,
        HandshakeFailure::Encoding => "Utf8 Error"@,
        HandshakeFailure::MalformedUrl => "Url Error: "@,
        HandshakeFailure::MalformedResponse => "HTTP Error: "@,
    }
}

/// Whether the message for a cause ends with the platform's own detail
/// text. Causes without detail are complete sentences on their own.
pub open spec fn handshake_carries_detail(c: HandshakeFailure) -> bool {
    match c {
        HandshakeFailure::Closed => false,
        HandshakeFailure::AlreadyClosed => false,
        HandshakeFailure::Encoding => false,
        _ => true,
    }
}

/// The full human-readable message for a handshake failure: its fixed
/// prefix, followed by the platform's detail text where one is carried.
pub open spec fn handshake_message_spec(c: HandshakeFailure, detail: Seq<char>) -> Seq<char> {
    if handshake_carries_detail(c) {
        handshake_prefix(c) + detail
    } else {
        handshake_prefix(c)
    }
}

/// Renders the human-readable message for a handshake failure. `detail` is
/// the platform's own description of the underlying error; it is appended
/// only for causes that carry one.
pub fn handshake_message(cause: &HandshakeFailure, detail: &str) -> (m: String)
    ensures
        m@ == handshake_message_spec(*cause, detail@),
{
    match cause {
        HandshakeFailure::Closed => String::from_str("Connection closed"),
        HandshakeFailure::AlreadyClosed => String::from_str("Connection was already closed"),
        HandshakeFailure::Io => String::from_str("Io Error: ").concat(detail),
        HandshakeFailure::SecureTransport => String::from_str("Tls Error: ").concat(detail),
        HandshakeFailure::Capacity => String::from_str("Capacity Error: ").concat(detail),
        HandshakeFailure::Protocol => String::from_str("Protocol Error: ").concat(detail),
        HandshakeFailure::WriteBufferFull => String::from_str(
            "Write Buffer Full Error: ",
        ).concat(detail),
        HandshakeFailure::Encoding => String::from_str("Utf8 Error"),
        HandshakeFailure::MalformedUrl => String::from_str("Url Error: ").concat(detail),
        HandshakeFailure::MalformedResponse => String::from_str("HTTP Error: ").concat(detail),
    }
}

/// Wraps a handshake failure cause in the taxonomy. Every connect-time
/// failure crosses the transport boundary through here.
pub fn connect_failure(cause: HandshakeFailure) -> (e: TransportError)
    ensures
        e == TransportError::Handshake(cause),
{
    TransportError::Handshake(cause)
}

/// Whether an error of this category tears the whole connection down.
/// A failure to encode one outgoing message is recovered per message: the
/// send loop skips it and continues with the next one. Every other
/// category either ends the connection or concerns its lifecycle.
pub open spec fn spec_fatal_to_connection(e: TransportError) -> bool {
    !(e is Encode)
}

impl TransportError {
    /// Whether this error tears the whole connection down rather than
    /// costing a single message.
    pub fn fatal_to_connection(&self) -> (b: bool)
        ensures
            b == spec_fatal_to_connection(*self),
    {
        !matches!(self, TransportError::Encode)
    }
}

} // verus!
