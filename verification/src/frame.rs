//! Raw-mode framing: an explicit 8-byte little-endian length prefix
//! followed by exactly that many payload bytes.
//!
//! The sender writes the header, then the payload. The receiver reads
//! exactly 8 bytes, rejects a length above the configured limit before any
//! payload byte is read, then reads exactly that many bytes. A short read
//! anywhere but a clean end-of-stream between frames is a framing error,
//! so partial reads can never merge two logical messages.

use vstd::prelude::*;
use vstd::bytes::*;

use crate::error::TransportError;
use crate::settings::NetworkSettings;

verus! {

/// The bytes placed on the wire for one payload: its length as 8
/// little-endian bytes, then the payload itself.
pub open spec fn frame_for(payload: Seq<u8>) -> Seq<u8> {
    spec_u64_to_le_bytes(payload.len() as u64) + payload
}

/// Builds the raw-mode frame for one payload: the 8-byte little-endian
/// length header followed by the payload. A payload over the configured
/// limit is rejected without being framed.
pub fn encode_frame(payload: &Vec<u8>, settings: &NetworkSettings) -> (r: Result<
    Vec<u8>,
    TransportError,
>)
    ensures
        payload@.len() <= settings.max_message_size ==> (r matches Ok(f) && f@ == frame_for(
            payload@,
        )),
        payload@.len() > settings.max_message_size ==> r == Err::<Vec<u8>, _>(
            TransportError::Framing,
        ),
{
    if payload.len() > settings.max_message_size {
        return Err(TransportError::Framing);
    }
    let mut frame = u64_to_le_bytes(payload.len() as u64);
    let mut i: usize = 0;
    while i < payload.len()
        invariant
            i <= payload@.len(),
            payload@.len() <= u64::MAX,
            frame@ == spec_u64_to_le_bytes(payload@.len() as u64) + payload@.take(i as int),
        decreases payload@.len() - i,
    {
        frame.push(payload[i]);
        i = i + 1;
        proof {
            assert(payload@.take(i as int) == payload@.take(i - 1) + seq![payload@[i - 1]]);
        }
    }
    proof {
        assert(payload@.take(payload@.len() as int) == payload@);
    }
    Ok(frame)
}

/// What the receive pump is waiting for next.
#[derive(Clone, Copy, Debug, PartialEq, Eq, Structural)]
pub enum RecvPhase {
    /// Waiting for the 8-byte length header of the next frame.
    Header,
    /// Waiting for the payload of the current frame; the field is the
    /// length its header announced.
    Payload(u64),
}

/// What one socket read produced, as the embedding reports it to the
/// receiver: the bytes that arrived (fewer than requested means the stream
/// ended mid-read), or a read failure.
#[derive(Clone, Debug, PartialEq, Eq)]
pub enum ReadEvent {
    /// The bytes the read delivered, at most as many as were requested.
    Data(Vec<u8>),
    /// The read failed with an I/O error.
    Failed,
}

/// What the receive pump must do after feeding one read to the receiver.
#[derive(Clone, Debug, PartialEq, Eq)]
pub enum RecvStep {
    /// Read exactly this many more bytes and feed them back.
    NeedRead(usize),
    /// A complete payload: forward it to the inbox, then ask `needed` for
    /// the next read.
    Deliver(Vec<u8>),
    /// The peer closed cleanly between frames; stop without an error.
    Stop,
    /// A terminal failure; stop and surface this error.
    Abort(TransportError),
}

/// The raw-mode receive-side state machine. The embedding owns the socket
/// and performs the reads; this type decides how many bytes to read, when
/// a payload is complete, and when the stream is broken.
pub struct RawReceiver {
    /// The limit captured at connection start; lengths above it are
    /// rejected before any payload byte is read.
    pub max_message_size: usize,
    /// What the receiver is waiting for.
    pub phase: RecvPhase,
}

/// How many bytes the receiver wants next: a whole header, or the rest of
/// the announced payload.
pub open spec fn spec_needed(r: RawReceiver) -> int {
    match r.phase {
        RecvPhase::Header => 8,
        RecvPhase::Payload(n) => n as int,
    }
}

impl RawReceiver {
    /// An announced payload length never exceeds the configured limit, so
    /// no read request and no scratch buffer ever does either.
    pub open spec fn wf(&self) -> bool {
        self.phase matches RecvPhase::Payload(n) ==> 0 < n <= self.max_message_size as u64
    }

    /// A fresh receiver for one connection, waiting for the first header.
    pub fn new(settings: &NetworkSettings) -> (r: Self)
        ensures
            r.phase is Header,
            r.max_message_size == settings.max_message_size,
            r.wf(),
    {
        RawReceiver { max_message_size: settings.max_message_size, phase: RecvPhase::Header }
    }

    /// How many bytes the embedding should try to read next.
    pub fn needed(&self) -> (n: usize)
        requires
            self.wf(),
        ensures
            n == spec_needed(*self),
    {
        match self.phase {
            RecvPhase::Header => 8,
            RecvPhase::Payload(n) => n as usize,
        }
    }

    /// Feeds the outcome of one read to the receiver and decides the next
    /// step. Reads deliver at most the requested byte count; fewer bytes
    /// mean the stream ended mid-read.
    ///
    /// A zero-byte header read is a clean peer close and stops without an
    /// error. A short header read, an announced length above the limit
    /// (rejected here, before any payload read is attempted), and a
    /// truncated payload are framing errors. A failed read is an I/O
    /// error.
    pub fn on_read(&mut self, ev: ReadEvent) -> (step: RecvStep)
        requires
            old(self).wf(),
            ev matches ReadEvent::Data(b) ==> b@.len() <= spec_needed(*old(self)),
        ensures
            final(self).wf(),
            final(self).max_message_size == old(self).max_message_size,
            ev is Failed ==> step == RecvStep::Abort(TransportError::Io),
            old(self).phase is Header ==> (ev matches ReadEvent::Data(b) ==> {
                &&& b@.len() == 0 ==> step == RecvStep::Stop
                &&& 0 < b@.len() < 8 ==> step == RecvStep::Abort(TransportError::Framing)
                &&& b@.len() == 8 ==> {
                    let n = spec_u64_from_le_bytes(b@);
                    &&& n > old(self).max_message_size as u64 ==> step == RecvStep::Abort(
                        TransportError::Framing,
                    )
                    &&& n == 0 ==> (step matches RecvStep::Deliver(p) && p@ == Seq::<u8>::empty()
                        && final(self).phase is Header)
                    &&& 0 < n <= old(self).max_message_size as u64 ==> (step
                        == RecvStep::NeedRead(n as usize) && final(self).phase
                        == RecvPhase::Payload(n))
                }
            }),
            old(self).phase matches RecvPhase::Payload(n) ==> (ev matches ReadEvent::Data(b)
                ==> {
                &&& b@.len() == n ==> (step matches RecvStep::Deliver(p) && p@ == b@
                    && final(self).phase is Header)
                &&& b@.len() < n ==> step == RecvStep::Abort(TransportError::Framing)
            }),
    {
        let data = match ev {
            ReadEvent::Data(b) => b,
            ReadEvent::Failed => {
                return RecvStep::Abort(TransportError::Io);
            },
        };
        match self.phase {
            RecvPhase::Header => {
                if data.len() == 0 {
                    RecvStep::Stop
                } else if data.len() < 8 {
                    RecvStep::Abort(TransportError::Framing)
                } else {
                    let n = u64_from_le_bytes(data.as_slice());
                    if n > self.max_message_size as u64 {
                        RecvStep::Abort(TransportError::Framing)
                    } else if n == 0 {
                        RecvStep::Deliver(Vec::new())
                    } else {
                        self.phase = RecvPhase::Payload(n);
                        RecvStep::NeedRead(n as usize)
                    }
                }
            },
            RecvPhase::Payload(n) => {
                if data.len() as u64 == n {
                    self.phase = RecvPhase::Header;
                    RecvStep::Deliver(data)
                } else {
                    RecvStep::Abort(TransportError::Framing)
                }
            },
        }
    }
}

/// Raw-mode round trip: the frame built for any payload within the limit
/// carries exactly that payload. Its header decodes back to the payload's
/// length, and the bytes after the header are the payload itself, so
/// encode followed by decode reproduces the payload exactly.
pub proof fn lemma_frame_round_trip(payload: Seq<u8>, max_message_size: usize)
    requires
        payload.len() <= max_message_size,
    ensures
        frame_for(payload).len() == 8 + payload.len(),
        spec_u64_from_le_bytes(frame_for(payload).take(8)) == payload.len() as u64,
        frame_for(payload).skip(8) == payload,
{
    lemma_auto_spec_u64_to_from_le_bytes();
    let header = spec_u64_to_le_bytes(payload.len() as u64);
    assert(header.len() == 8);
    assert(frame_for(payload).take(8) =~= header);
    assert(frame_for(payload).skip(8) =~= payload);
}

/// The bytes placed on the wire for a whole sequence of payloads: their
/// frames, one after another.
pub open spec fn stream_for(payloads: Seq<Seq<u8>>) -> Seq<u8>
    decreases payloads.len(),
{
    if payloads.len() == 0 {
        Seq::empty()
    } else {
        frame_for(payloads.first()) + stream_for(payloads.drop_first())
    }
}

/// Every payload of a sequence fits the configured limit.
pub open spec fn all_within(payloads: Seq<Seq<u8>>, max_message_size: usize) -> bool {
    forall|i: int| 0 <= i < payloads.len() ==> #[trigger] payloads[i].len() <= max_message_size
}

/// What a raw-mode receiver makes of a byte stream: the payloads, frame
/// by frame, exactly as `RawReceiver` reads them — or nothing where the
/// stream is not a whole number of in-limit frames.
pub open spec fn parse_stream(bytes: Seq<u8>, max_message_size: usize) -> Option<Seq<Seq<u8>>>
    decreases bytes.len(),
{
    if bytes.len() == 0 {
        Some(Seq::empty())
    } else if bytes.len() < 8 {
        None
    } else {
        let n = spec_u64_from_le_bytes(bytes.take(8)) as int;
        if n > max_message_size || bytes.len() < 8 + n {
            None
        } else {
            match parse_stream(bytes.skip(8 + n), max_message_size) {
                Some(rest) => Some(seq![bytes.subrange(8, 8 + n)] + rest),
                None => None,
            }
        }
    }
}

/// Frame boundaries are exact: the byte stream built from any sequence
/// of in-limit payloads parses back to exactly that sequence. However
/// the stream was produced, the length prefixes demarcate it so that no
/// two logical messages merge and none splits.
pub proof fn lemma_stream_round_trip(payloads: Seq<Seq<u8>>, max_message_size: usize)
    requires
        all_within(payloads, max_message_size),
    ensures
        parse_stream(stream_for(payloads), max_message_size) == Some(payloads),
    decreases payloads.len(),
{
    lemma_auto_spec_u64_to_from_le_bytes();
    if payloads.len() == 0 {
        assert(Seq::<Seq<u8>>::empty() =~= payloads);
    } else {
        let first = payloads.first();
        let rest = payloads.drop_first();
        let bytes = stream_for(payloads);
        let frame = frame_for(first);
        assert(first.len() <= max_message_size);
        assert(frame.len() == 8 + first.len());
        assert(bytes =~= frame + stream_for(rest));
        assert(bytes.take(8) =~= frame.take(8));
        lemma_frame_round_trip(first, max_message_size);
        let n = spec_u64_from_le_bytes(bytes.take(8)) as int;
        assert(n == first.len());
        assert(bytes.subrange(8, 8 + n) =~= first);
        assert(bytes.skip(8 + n) =~= stream_for(rest));
        assert(all_within(rest, max_message_size)) by {
            assert(forall|i: int|
                0 <= i < rest.len() ==> rest[i] == #[trigger] payloads[i + 1]);
        }
        lemma_stream_round_trip(rest, max_message_size);
        assert(seq![first] + rest =~= payloads);
    }
}

/// Runs one receiver over a complete in-memory byte stream, reading
/// exactly as many bytes as it asks for each time, and collects the
/// payloads it delivers: exactly what `parse_stream` says the stream
/// holds, or the framing error the receiver stops on where the stream is
/// not a whole number of in-limit frames.
pub fn decode_stream(bytes: &Vec<u8>, settings: &NetworkSettings) -> (r: Result<
    Vec<Vec<u8>>,
    TransportError,
>)
    ensures
        parse_stream(bytes@, settings.max_message_size) matches Some(payloads) ==> (r matches Ok(
            out,
        ) && out.deep_view() == payloads),
        parse_stream(bytes@, settings.max_message_size) is None ==> r == Err::<Vec<Vec<u8>>, _>(
            TransportError::Framing,
        ),
{
    let ghost max = settings.max_message_size;
    let mut receiver = RawReceiver::new(settings);
    let mut out: Vec<Vec<u8>> = Vec::new();
    let mut pos: usize = 0;
    proof {
        assert(bytes@.skip(0int) =~= bytes@);
        match parse_stream(bytes@, max) {
            Some(rest) => {
                assert(out.deep_view() + rest =~~= rest);
            },
            None => {},
        }
    }
    loop
        invariant
            max == settings.max_message_size,
            receiver.wf(),
            receiver.max_message_size == settings.max_message_size,
            pos <= bytes@.len(),
            receiver.phase is Header ==> match parse_stream(bytes@.skip(pos as int), max) {
                Some(rest) => parse_stream(bytes@, max) == Some(out.deep_view() + rest),
                None => parse_stream(bytes@, max) is None,
            },
            receiver.phase matches RecvPhase::Payload(n) ==> {
                &&& bytes@.len() - pos >= n ==> match parse_stream(
                    bytes@.skip(pos + n as int),
                    max,
                ) {
                    Some(rest) => parse_stream(bytes@, max) == Some(
                        out.deep_view() + seq![bytes@.subrange(pos as int, pos + n as int)] + rest,
                    ),
                    None => parse_stream(bytes@, max) is None,
                }
                &&& bytes@.len() - pos < n ==> parse_stream(bytes@, max) is None
            },
        decreases 2 * (bytes@.len() - pos) + (if receiver.phase is Header {
            1int
        } else {
            0int
        }),
    {
        let needed = receiver.needed();
        let avail = bytes.len() - pos;
        let take = if avail < needed {
            avail
        } else {
            needed
        };
        let mut chunk: Vec<u8> = Vec::new();
        let mut i: usize = 0;
        while i < take
            invariant
                i <= take,
                pos + take <= bytes@.len(),
                pos + take <= usize::MAX,
                chunk@ == bytes@.subrange(pos as int, pos + i as int),
            decreases take - i,
        {
            chunk.push(bytes[pos + i]);
            i = i + 1;
            proof {
                assert(chunk@ =~= bytes@.subrange(pos as int, pos + i as int));
            }
        }
        let ghost old_pos = pos as int;
        let ghost old_phase = receiver.phase;
        let ghost old_out = out.deep_view();
        pos = pos + take;
        proof {
            assert(bytes@.skip(old_pos).len() == bytes@.len() - old_pos);
            if old_phase is Header && take == 8 {
                assert(chunk@ =~= bytes@.skip(old_pos).take(8));
            }
        }
        match receiver.on_read(ReadEvent::Data(chunk)) {
            RecvStep::NeedRead(_) => {
                proof {
                    let n = spec_u64_from_le_bytes(bytes@.skip(old_pos).take(8)) as int;
                    if bytes@.len() - old_pos - 8 >= n {
                        assert(bytes@.skip(old_pos).skip(8 + n) =~= bytes@.skip(old_pos + 8 + n));
                        assert(bytes@.skip(old_pos).subrange(8, 8 + n) =~= bytes@.subrange(
                            old_pos + 8,
                            old_pos + 8 + n,
                        ));
                        match parse_stream(bytes@.skip(old_pos + 8 + n), max) {
                            Some(rest) => {
                                assert(old_out + (seq![
                                    bytes@.subrange(old_pos + 8, old_pos + 8 + n),
                                ] + rest) =~~= old_out + seq![
                                    bytes@.subrange(old_pos + 8, old_pos + 8 + n),
                                ] + rest);
                            },
                            None => {},
                        }
                    }
                }
            },
            RecvStep::Deliver(payload) => {
                out.push(payload);
                proof {
                    if old_phase is Header {
                        // A zero-length frame: its header announced no
                        // payload bytes.
                        let n = spec_u64_from_le_bytes(bytes@.skip(old_pos).take(8)) as int;
                        assert(n == 0);
                        assert(bytes@.skip(old_pos).skip(8) =~= bytes@.skip(old_pos + 8));
                        assert(bytes@.skip(old_pos).subrange(8, 8) =~= Seq::<u8>::empty());
                        match parse_stream(bytes@.skip(old_pos + 8), max) {
                            Some(rest) => {
                                assert(old_out + (seq![Seq::<u8>::empty()] + rest) =~~= out.deep_view()
                                    + rest);
                            },
                            None => {},
                        }
                    } else {
                        let n = old_phase->0 as int;
                        match parse_stream(bytes@.skip(old_pos + n), max) {
                            Some(rest) => {
                                assert(old_out + seq![bytes@.subrange(old_pos, old_pos + n)] + rest
                                    =~~= out.deep_view() + rest);
                            },
                            None => {},
                        }
                    }
                }
            },
            RecvStep::Stop => {
                proof {
                    assert(bytes@.skip(old_pos) =~= Seq::<u8>::empty());
                    assert(parse_stream(bytes@.skip(old_pos), max) == Some(
                        Seq::<Seq<u8>>::empty(),
                    ));
                    assert(out.deep_view() + Seq::<Seq<u8>>::empty() =~= out.deep_view());
                }
                return Ok(out);
            },
            RecvStep::Abort(e) => {
                proof {
                    if old_phase is Header {
                        if take < 8 {
                            assert(0 < bytes@.skip(old_pos).len() < 8);
                            assert(parse_stream(bytes@.skip(old_pos), max) is None);
                        } else {
                            let n = spec_u64_from_le_bytes(bytes@.skip(old_pos).take(8));
                            assert(n > max as u64);
                            assert(parse_stream(bytes@.skip(old_pos), max) is None);
                        }
                    } else {
                        assert(bytes@.len() - old_pos < old_phase->0);
                    }
                    assert(parse_stream(bytes@, max) is None);
                }
                return Err(e);
            },
        }
    }
}

} // verus!
