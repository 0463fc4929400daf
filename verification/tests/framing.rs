use ws_transport::error::TransportError;
use ws_transport::frame::{decode_stream, encode_frame, RawReceiver, ReadEvent, RecvStep};
use ws_transport::settings::NetworkSettings;

fn small_settings() -> NetworkSettings {
    NetworkSettings::new(1024, 1024, false)
}

/// Feeds one complete frame to a fresh receiver and returns the payload
/// it delivers.
fn receive_one(frame: &[u8], settings: &NetworkSettings) -> Vec<u8> {
    let mut receiver = RawReceiver::new(settings);
    assert_eq!(receiver.needed(), 8);
    let header: Vec<u8> = frame[..8].to_vec();
    let step = receiver.on_read(ReadEvent::Data(header));
    match step {
        RecvStep::NeedRead(n) => {
            assert_eq!(n, frame.len() - 8);
            assert_eq!(receiver.needed(), n);
            let body: Vec<u8> = frame[8..].to_vec();
            match receiver.on_read(ReadEvent::Data(body)) {
                RecvStep::Deliver(p) => p,
                other => panic!("expected a delivered payload, got {:?}", other),
            }
        }
        RecvStep::Deliver(p) => {
            assert_eq!(frame.len(), 8);
            p
        }
        other => panic!("expected a payload read or a delivery, got {:?}", other),
    }
}

#[test]
fn raw_round_trip() {
    let settings = small_settings();
    let payload: Vec<u8> = (0u8..=255).collect();
    let frame = encode_frame(&payload, &settings).unwrap();
    assert_eq!(frame.len(), 8 + payload.len());
    assert_eq!(&frame[..8], &(payload.len() as u64).to_le_bytes());
    assert_eq!(&frame[8..], &payload[..]);
    assert_eq!(receive_one(&frame, &settings), payload);
}

#[test]
fn raw_round_trip_empty_payload() {
    let settings = small_settings();
    let payload: Vec<u8> = Vec::new();
    let frame = encode_frame(&payload, &settings).unwrap();
    assert_eq!(frame, vec![0u8; 8]);
    assert_eq!(receive_one(&frame, &settings), payload);
}

#[test]
fn raw_round_trip_at_limit() {
    let settings = small_settings();
    let payload = vec![7u8; 1024];
    let frame = encode_frame(&payload, &settings).unwrap();
    assert_eq!(receive_one(&frame, &settings), payload);
}

#[test]
fn oversize_payload_refused_on_send() {
    let settings = small_settings();
    let payload = vec![7u8; 1025];
    assert_eq!(encode_frame(&payload, &settings), Err(TransportError::Framing));
}

#[test]
fn oversize_header_rejected_before_payload_read() {
    let settings = small_settings();
    let mut receiver = RawReceiver::new(&settings);
    let header = 1025u64.to_le_bytes().to_vec();
    let step = receiver.on_read(ReadEvent::Data(header));
    // The length is refused from the header alone: the receiver never
    // asks for a payload read, so nothing is allocated for it.
    assert_eq!(step, RecvStep::Abort(TransportError::Framing));
}

#[test]
fn clean_close_on_zero_read() {
    let settings = small_settings();
    let mut receiver = RawReceiver::new(&settings);
    let step = receiver.on_read(ReadEvent::Data(Vec::new()));
    assert_eq!(step, RecvStep::Stop);
    assert_ne!(step, RecvStep::Abort(TransportError::Io));
}

#[test]
fn short_header_is_framing_error() {
    let settings = small_settings();
    for len in 1..8 {
        let mut receiver = RawReceiver::new(&settings);
        let step = receiver.on_read(ReadEvent::Data(vec![0u8; len]));
        assert_eq!(step, RecvStep::Abort(TransportError::Framing));
    }
}

#[test]
fn truncated_payload_is_framing_error() {
    let settings = small_settings();
    let mut receiver = RawReceiver::new(&settings);
    let step = receiver.on_read(ReadEvent::Data(10u64.to_le_bytes().to_vec()));
    assert_eq!(step, RecvStep::NeedRead(10));
    let step = receiver.on_read(ReadEvent::Data(vec![1u8; 4]));
    assert_eq!(step, RecvStep::Abort(TransportError::Framing));
}

#[test]
fn failed_read_is_io_error() {
    let settings = small_settings();
    let mut receiver = RawReceiver::new(&settings);
    let step = receiver.on_read(ReadEvent::Failed);
    assert_eq!(step, RecvStep::Abort(TransportError::Io));
}

#[test]
fn stream_of_frames_never_merges_messages() {
    let settings = small_settings();
    let payloads: Vec<Vec<u8>> = vec![vec![1, 2, 3], Vec::new(), vec![4], vec![5; 1024]];
    let mut stream: Vec<u8> = Vec::new();
    for p in &payloads {
        stream.extend_from_slice(&encode_frame(p, &settings).unwrap());
    }
    assert_eq!(decode_stream(&stream, &settings), Ok(payloads));
}

#[test]
fn empty_stream_holds_no_messages() {
    let settings = small_settings();
    assert_eq!(decode_stream(&Vec::new(), &settings), Ok(Vec::new()));
}

#[test]
fn truncated_stream_is_framing_error() {
    let settings = small_settings();
    let mut stream = encode_frame(&vec![9u8; 20], &settings).unwrap();
    stream.truncate(15);
    assert_eq!(decode_stream(&stream, &settings), Err(TransportError::Framing));
}

#[test]
fn oversize_frame_in_stream_is_framing_error() {
    let settings = small_settings();
    let mut stream = 2000u64.to_le_bytes().to_vec();
    stream.extend_from_slice(&[0u8; 32]);
    assert_eq!(decode_stream(&stream, &settings), Err(TransportError::Framing));
}

#[test]
fn trailing_close_after_full_frame() {
    // The peer frames exactly ten bytes, provides them all, then closes.
    let settings = small_settings();
    let payload = vec![42u8; 10];
    let mut receiver = RawReceiver::new(&settings);
    let step = receiver.on_read(ReadEvent::Data(10u64.to_le_bytes().to_vec()));
    assert_eq!(step, RecvStep::NeedRead(10));
    let step = receiver.on_read(ReadEvent::Data(payload.clone()));
    assert_eq!(step, RecvStep::Deliver(payload));
    // The payload was read in full, so the end of the stream only shows
    // on the next header read, as a clean disconnect without an error.
    assert_eq!(receiver.needed(), 8);
    let step = receiver.on_read(ReadEvent::Data(Vec::new()));
    assert_eq!(step, RecvStep::Stop);
}
