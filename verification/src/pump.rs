//! The decision core of the two per-connection pumps.
//!
//! Each live connection runs exactly two unidirectional loops: a receive
//! pump (socket to inbox) and a send pump (outbox to socket). The
//! embedding owns the socket halves and the channels and performs every
//! suspension; these functions take what one step observed and decide,
//! exactly, what the loop does next. A single bad payload costs only
//! itself on the send side, while a broken wire ends the connection.

use vstd::prelude::*;

use crate::envelope::{Envelope, SerializedData};
use crate::error::TransportError;

verus! {

/// One data or control unit delivered by the socket in message mode,
/// where the WebSocket's own frame boundaries demarcate messages.
#[derive(Clone, Debug, PartialEq, Eq)]
pub enum WsMessage {
    /// A text data frame.
    Text(String),
    /// A binary data frame.
    Binary(Vec<u8>),
    /// A ping control frame.
    Ping(Vec<u8>),
    /// A pong control frame.
    Pong(Vec<u8>),
    /// The close control frame.
    Close,
}

/// How a receive attempt on the socket failed.
#[derive(Clone, Copy, Debug, PartialEq, Eq, Structural)]
pub enum ReadFailure {
    /// The connection was reported closed, or already closed.
    Closed,
    /// A fatal I/O failure on the underlying stream: the socket can no
    /// longer be read and the connection must come down.
    Fatal,
    /// Any other, transient receive error, fatal to nothing.
    Other,
}

/// What one wait on the read half produced.
#[derive(Clone, Debug, PartialEq, Eq)]
pub enum SocketEvent {
    /// A message arrived.
    Message(WsMessage),
    /// The receive failed.
    Failed(ReadFailure),
    /// The stream yielded nothing more.
    Ended,
}

/// What the receive pump does with one socket event.
#[derive(Clone, Debug, PartialEq, Eq)]
pub enum RecvDecision {
    /// Nothing to deliver; wait for the next event.
    Skip,
    /// Decode this text payload with the registered deserializer.
    DecodeText(String),
    /// Decode this binary payload with the registered deserializer.
    DecodeBinary(Vec<u8>),
    /// The peer is gone; stop without an error.
    StopClean,
    /// A terminal failure; stop and surface this error.
    StopError(TransportError),
}

/// Decides what the receive pump does with one socket event.
///
/// Data frames go to the registered deserializer; a text frame is a
/// decode failure when no text codec is registered. A close frame, a
/// closed-connection error and an ended stream stop the pump cleanly.
/// A fatal read failure stops it too and surfaces as an I/O error —
/// connection-fatal, never skipped. A transient receive error costs
/// nothing. A ping or pong where a data frame was expected is a hard
/// framing error rather than being silently absorbed.
pub fn recv_decision(ev: SocketEvent, text_supported: bool) -> (d: RecvDecision)
    ensures
        ev is Ended ==> d == RecvDecision::StopClean,
        ev == SocketEvent::Failed(ReadFailure::Closed) ==> d == RecvDecision::StopClean,
        ev == SocketEvent::Failed(ReadFailure::Fatal) ==> d == RecvDecision::StopError(
            TransportError::Io,
        ),
        ev == SocketEvent::Failed(ReadFailure::Other) ==> d == RecvDecision::Skip,
        ev matches SocketEvent::Message(m) ==> {
            &&& m matches WsMessage::Text(t) ==> d == (if text_supported {
                RecvDecision::DecodeText(t)
            } else {
                RecvDecision::StopError(TransportError::Decode)
            })
            &&& m matches WsMessage::Binary(b) ==> d == RecvDecision::DecodeBinary(b)
            &&& m is Ping || m is Pong ==> d == RecvDecision::StopError(TransportError::Framing)
            &&& m is Close ==> d == RecvDecision::StopClean
        },
{
    match ev {
        SocketEvent::Message(WsMessage::Text(t)) => {
            if text_supported {
                RecvDecision::DecodeText(t)
            } else {
                RecvDecision::StopError(TransportError::Decode)
            }
        },
        SocketEvent::Message(WsMessage::Binary(b)) => RecvDecision::DecodeBinary(b),
        SocketEvent::Message(WsMessage::Ping(_)) => RecvDecision::StopError(
            TransportError::Framing,
        ),
        SocketEvent::Message(WsMessage::Pong(_)) => RecvDecision::StopError(
            TransportError::Framing,
        ),
        SocketEvent::Message(WsMessage::Close) => RecvDecision::StopClean,
        SocketEvent::Failed(ReadFailure::Closed) => RecvDecision::StopClean,
        SocketEvent::Failed(ReadFailure::Fatal) => RecvDecision::StopError(TransportError::Io),
        SocketEvent::Failed(ReadFailure::Other) => RecvDecision::Skip,
        SocketEvent::Ended => RecvDecision::StopClean,
    }
}

/// What the receive pump does once a payload has been decoded.
#[derive(Clone, Debug, PartialEq, Eq)]
pub enum ForwardDecision {
    /// Hand this envelope to the inbox.
    Forward(Envelope),
    /// The payload did not parse; stop and surface a decode error.
    StopError(TransportError),
}

/// Decides what the receive pump does with the deserializer's verdict on
/// one payload: a parsed envelope goes to the inbox, and a payload that
/// did not parse ends the connection with a decode failure.
pub fn after_decode(parsed: Result<Envelope, String>) -> (d: ForwardDecision)
    ensures
        parsed matches Ok(env) ==> d == ForwardDecision::Forward(env),
        parsed is Err ==> d == ForwardDecision::StopError(TransportError::Decode),
{
    match parsed {
        Ok(env) => ForwardDecision::Forward(env),
        Err(_) => ForwardDecision::StopError(TransportError::Decode),
    }
}

/// Whether a pump keeps looping.
#[derive(Clone, Copy, Debug, PartialEq, Eq, Structural)]
pub enum LoopControl {
    /// Wait for the next event.
    Proceed,
    /// The loop is over.
    Stop,
}

/// Decides whether the receive pump keeps looping after handing an
/// envelope to the inbox. A closed inbox means nobody is listening any
/// more, which is itself terminal.
pub fn after_forward(delivered: bool) -> (c: LoopControl)
    ensures
        c == (if delivered {
            LoopControl::Proceed
        } else {
            LoopControl::Stop
        }),
{
    if delivered {
        LoopControl::Proceed
    } else {
        LoopControl::Stop
    }
}

/// What the send pump does with the serializer's verdict on one outgoing
/// envelope.
#[derive(Clone, Debug, PartialEq, Eq)]
pub enum SendDecision {
    /// Write this encoded payload to the socket.
    Transmit(SerializedData),
    /// This payload could not be encoded: report the carried error
    /// upward, skip the message, and take the next queued one.
    SkipMessage(TransportError),
}

/// Decides what the send pump does with one encode attempt. An encode
/// failure reflects a single bad payload, not socket corruption, so it
/// is reported as an encode error, costs only that message, and the
/// loop continues with the next one.
pub fn send_decision(encoded: Result<SerializedData, String>) -> (d: SendDecision)
    ensures
        encoded matches Ok(data) ==> d == SendDecision::Transmit(data),
        encoded is Err ==> d == SendDecision::SkipMessage(TransportError::Encode),
{
    match encoded {
        Ok(data) => SendDecision::Transmit(data),
        Err(_) => SendDecision::SkipMessage(TransportError::Encode),
    }
}

/// Decides whether the send pump keeps looping after a write. A write
/// failure is fatal: the stream's framing boundary may now be undefined,
/// so nothing further may be written.
pub fn after_transmit(wrote: bool) -> (c: LoopControl)
    ensures
        c == (if wrote {
            LoopControl::Proceed
        } else {
            LoopControl::Stop
        }),
{
    if wrote {
        LoopControl::Proceed
    } else {
        LoopControl::Stop
    }
}

/// Decides what the send pump does with one wait on the outbox: a queued
/// envelope goes to the serializer, and a closed outbox (no more senders)
/// ends the loop — closing the outbox is the send pump's sole
/// cancellation signal.
pub fn on_dequeue(queued: Option<Envelope>) -> (r: Result<Envelope, LoopControl>)
    ensures
        queued matches Some(env) ==> r == Ok::<_, LoopControl>(env),
        queued is None ==> r == Err::<Envelope, _>(LoopControl::Stop),
{
    match queued {
        Some(env) => Ok(env),
        None => Err(LoopControl::Stop),
    }
}

/// The payloads that actually reach the socket out of a run of encode
/// attempts: every successful encode, in queue order.
pub open spec fn oks_of(attempts: Seq<Result<SerializedData, String>>) -> Seq<SerializedData>
    decreases attempts.len(),
{
    if attempts.len() == 0 {
        Seq::empty()
    } else {
        let rest = oks_of(attempts.drop_last());
        match attempts.last() {
            Ok(data) => rest.push(data),
            Err(_) => rest,
        }
    }
}

/// The send pump's transmit plan for a drained outbox: every message that
/// encodes is written, in queue order; a message that fails to encode is
/// skipped and costs nothing else.
pub fn plan_send(attempts: Vec<Result<SerializedData, String>>) -> (writes: Vec<SerializedData>)
    ensures
        writes@ == oks_of(attempts@),
{
    let ghost all = attempts@;
    let mut queue = attempts;
    let mut writes: Vec<SerializedData> = Vec::new();
    let ghost mut done: int = 0;
    while queue.len() > 0
        invariant
            0 <= done <= all.len(),
            queue@ == all.skip(done),
            writes@ == oks_of(all.take(done)),
        decreases queue@.len(),
    {
        let attempt = queue.remove(0);
        proof {
            assert(attempt == all[done]);
            assert(queue@ =~= all.skip(done + 1));
            assert(all.take(done + 1).drop_last() =~= all.take(done));
            assert(all.take(done + 1).last() == all[done]);
        }
        match send_decision(attempt) {
            SendDecision::Transmit(data) => writes.push(data),
            SendDecision::SkipMessage(_) => (),
        }
        proof {
            done = done + 1;
        }
    }
    proof {
        assert(all.take(done) =~= all);
    }
    writes
}

/// Every attempt that encoded successfully appears in the plan.
proof fn lemma_oks_contains(attempts: Seq<Result<SerializedData, String>>, i: int)
    requires
        0 <= i < attempts.len(),
        attempts[i] is Ok,
    ensures
        oks_of(attempts).contains(attempts[i]->Ok_0),
    decreases attempts.len(),
{
    if i == attempts.len() - 1 {
        let rest = oks_of(attempts.drop_last());
        assert(oks_of(attempts)[rest.len() as int] == attempts[i]->Ok_0);
    } else {
        lemma_oks_contains(attempts.drop_last(), i);
        assert(attempts.drop_last()[i] == attempts[i]);
        let rest = oks_of(attempts.drop_last());
        let j = choose|j: int| 0 <= j < rest.len() && rest[j] == attempts[i]->Ok_0;
        assert(oks_of(attempts)[j] == attempts[i]->Ok_0);
    }
}

/// An encode failure is isolated: when the attempt for one queued message
/// fails and a later queued message encodes, the later message still
/// appears in the transmit plan. A single bad payload never blocks the
/// messages queued behind it.
pub proof fn lemma_encode_failure_isolated(
    attempts: Seq<Result<SerializedData, String>>,
    failed: int,
    later: int,
)
    requires
        0 <= failed < later < attempts.len(),
        attempts[failed] is Err,
        attempts[later] is Ok,
    ensures
        oks_of(attempts).contains(attempts[later]->Ok_0),
{
    lemma_oks_contains(attempts, later);
}

/// Whether one socket event ends the receive loop.
pub open spec fn spec_recv_terminal(ev: SocketEvent, text_supported: bool) -> bool {
    match ev {
        SocketEvent::Message(m) => match m {
            WsMessage::Text(_) => !text_supported,
            WsMessage::Binary(_) => false,
            WsMessage::Ping(_) => true,
            WsMessage::Pong(_) => true,
            WsMessage::Close => true,
        },
        SocketEvent::Failed(f) => f is Closed || f is Fatal,
        SocketEvent::Ended => true,
    }
}

/// The payload one socket event hands to the registered deserializer,
/// if it is a data frame the loop accepts.
pub open spec fn spec_recv_payload(ev: SocketEvent, text_supported: bool) -> Option<
    SerializedData,
> {
    match ev {
        SocketEvent::Message(m) => match m {
            WsMessage::Text(t) => if text_supported {
                Some(SerializedData::Text(t))
            } else {
                None
            },
            WsMessage::Binary(b) => Some(SerializedData::Binary(b)),
            _ => None,
        },
        _ => None,
    }
}

/// How a run of the receive loop ends.
#[derive(Clone, Copy, Debug, PartialEq, Eq, Structural)]
pub enum RecvExit {
    /// The events ran out with the loop still waiting for the next one.
    StillOpen,
    /// The loop stopped cleanly, without an error.
    CleanClose,
    /// The loop stopped on this fault.
    Faulted(TransportError),
}

/// How the receive loop ends on a run of socket events: with the first
/// terminal event among them, or still open when there is none.
pub open spec fn spec_recv_exit(events: Seq<SocketEvent>, text_supported: bool) -> RecvExit
    decreases events.len(),
{
    if events.len() == 0 {
        RecvExit::StillOpen
    } else if spec_recv_terminal(events.first(), text_supported) {
        match events.first() {
            SocketEvent::Message(m) => match m {
                WsMessage::Text(_) => RecvExit::Faulted(TransportError::Decode),
                WsMessage::Ping(_) => RecvExit::Faulted(TransportError::Framing),
                WsMessage::Pong(_) => RecvExit::Faulted(TransportError::Framing),
                _ => RecvExit::CleanClose,
            },
            SocketEvent::Failed(f) => if f is Fatal {
                RecvExit::Faulted(TransportError::Io)
            } else {
                RecvExit::CleanClose
            },
            SocketEvent::Ended => RecvExit::CleanClose,
        }
    } else {
        spec_recv_exit(events.drop_first(), text_supported)
    }
}

/// The payloads the receive loop hands to the registered deserializer
/// out of a run of socket events: the data frames before the first
/// terminal event, in arrival order — nothing is reordered, and nothing
/// after the first terminal event is looked at.
pub open spec fn spec_recv_payloads(events: Seq<SocketEvent>, text_supported: bool) -> Seq<
    SerializedData,
>
    decreases events.len(),
{
    if events.len() == 0 || spec_recv_terminal(events.first(), text_supported) {
        Seq::empty()
    } else {
        let rest = spec_recv_payloads(events.drop_first(), text_supported);
        match spec_recv_payload(events.first(), text_supported) {
            Some(payload) => seq![payload] + rest,
            None => rest,
        }
    }
}

/// The receive loop's decode plan for a run of socket events: exactly
/// the data frames that arrived before the first terminal event, in
/// arrival order, together with how the loop ended. One direction of one
/// connection delivers in the order received, and a terminal condition
/// stops the loop at once.
pub fn plan_recv(events: Vec<SocketEvent>, text_supported: bool) -> (r: (
    Vec<SerializedData>,
    RecvExit,
))
    ensures
        r.0@ == spec_recv_payloads(events@, text_supported),
        r.1 == spec_recv_exit(events@, text_supported),
{
    let ghost all = events@;
    let mut remaining = events;
    let mut decoded: Vec<SerializedData> = Vec::new();
    while remaining.len() > 0
        invariant
            all == events@,
            remaining@.len() <= all.len(),
            spec_recv_payloads(all, text_supported) == decoded@ + spec_recv_payloads(
                remaining@,
                text_supported,
            ),
            spec_recv_exit(all, text_supported) == spec_recv_exit(remaining@, text_supported),
        decreases remaining@.len(),
    {
        let ghost before = remaining@;
        let ev = remaining.remove(0);
        proof {
            assert(ev == before.first());
            assert(remaining@ =~= before.drop_first());
        }
        match recv_decision(ev, text_supported) {
            RecvDecision::Skip => (),
            RecvDecision::DecodeText(t) => {
                decoded.push(SerializedData::Text(t));
                proof {
                    assert(decoded@ =~= decoded@.drop_last().push(decoded@.last()));
                    assert(decoded@.drop_last() + (seq![decoded@.last()] + spec_recv_payloads(
                        remaining@,
                        text_supported,
                    )) =~= decoded@ + spec_recv_payloads(remaining@, text_supported));
                }
            },
            RecvDecision::DecodeBinary(b) => {
                decoded.push(SerializedData::Binary(b));
                proof {
                    assert(decoded@ =~= decoded@.drop_last().push(decoded@.last()));
                    assert(decoded@.drop_last() + (seq![decoded@.last()] + spec_recv_payloads(
                        remaining@,
                        text_supported,
                    )) =~= decoded@ + spec_recv_payloads(remaining@, text_supported));
                }
            },
            RecvDecision::StopClean => {
                proof {
                    assert(spec_recv_terminal(before.first(), text_supported));
                    assert(spec_recv_exit(before, text_supported) == RecvExit::CleanClose);
                    assert(decoded@ + Seq::<SerializedData>::empty() =~= decoded@);
                }
                return (decoded, RecvExit::CleanClose);
            },
            RecvDecision::StopError(e) => {
                proof {
                    assert(spec_recv_terminal(before.first(), text_supported));
                    assert(spec_recv_exit(before, text_supported) == RecvExit::Faulted(e));
                    assert(decoded@ + Seq::<SerializedData>::empty() =~= decoded@);
                }
                return (decoded, RecvExit::Faulted(e));
            },
        }
    }
    proof {
        assert(decoded@ + Seq::<SerializedData>::empty() =~= decoded@);
    }
    (decoded, RecvExit::StillOpen)
}

} // verus!
