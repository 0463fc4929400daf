use ws_transport::envelope::{DataKind, Envelope, SerializedData};
use ws_transport::error::TransportError;
use ws_transport::json::JsonSerializer;
use ws_transport::pump::{
    after_decode, after_forward, recv_decision, ForwardDecision, LoopControl, RecvDecision,
    SocketEvent, WsMessage,
};
use ws_transport::registry::RegistrationTable;

#[test]
fn register_and_lookup() {
    let mut table = RegistrationTable::new();
    assert_eq!(table.lookup(&"a".to_string()), None);
    assert!(table.register("a".to_string(), DataKind::Text));
    assert!(table.register("b".to_string(), DataKind::Binary));
    assert_eq!(table.lookup(&"a".to_string()), Some(DataKind::Text));
    assert_eq!(table.lookup(&"b".to_string()), Some(DataKind::Binary));
    assert_eq!(table.lookup(&"c".to_string()), None);
}

#[test]
fn duplicate_registration_is_refused() {
    let mut table = RegistrationTable::new();
    assert!(table.register("a".to_string(), DataKind::Text));
    assert!(!table.register("a".to_string(), DataKind::Binary));
    // The first registration stands.
    assert_eq!(table.lookup(&"a".to_string()), Some(DataKind::Text));
}

#[test]
fn envelope_in_declared_representation_is_admitted() {
    let mut table = RegistrationTable::new();
    table.register("t".to_string(), DataKind::Text);
    let env = Envelope::new("t".to_string(), SerializedData::Text("{}".to_string()));
    assert_eq!(table.check_envelope(&env), Ok(()));
}

#[test]
fn wrong_representation_is_a_decode_failure() {
    let mut table = RegistrationTable::new();
    table.register("t".to_string(), DataKind::Text);
    let env = Envelope::new("t".to_string(), SerializedData::Binary(vec![1]));
    assert_eq!(table.check_envelope(&env), Err(TransportError::Decode));
}

#[test]
fn unregistered_type_is_a_decode_failure() {
    let table = RegistrationTable::new();
    let env = Envelope::new("t".to_string(), SerializedData::Text("{}".to_string()));
    assert_eq!(table.check_envelope(&env), Err(TransportError::Decode));
}

#[test]
fn json_payloads_are_text() {
    assert_eq!(JsonSerializer::data_kind(), DataKind::Text);
    let text = SerializedData::Text("{\"x\":1}".to_string());
    assert_eq!(JsonSerializer::take_text(text), Ok("{\"x\":1}".to_string()));
    let binary = SerializedData::Binary(vec![1, 2]);
    assert_eq!(
        JsonSerializer::take_text(binary),
        Err("Expected String data found Binary data".to_string())
    );
}

#[test]
fn chat_hello_reaches_the_inbox() {
    // The server registers the chat message type with text encoding.
    let mut table = RegistrationTable::new();
    assert!(table.register("chat:Hello".to_string(), DataKind::Text));

    // The client's payload arrives as one WebSocket text frame.
    let wire_text = "{\"message\":\"hi\"}".to_string();
    let ev = SocketEvent::Message(WsMessage::Text(wire_text.clone()));
    let payload = match recv_decision(ev, true) {
        RecvDecision::DecodeText(t) => t,
        other => panic!("a text frame must go to the text decoder, got {:?}", other),
    };

    // The registered deserializer parses it; its verdict forwards the
    // envelope to the inbox.
    let env = Envelope::new("chat:Hello".to_string(), SerializedData::Text(payload));
    assert_eq!(table.check_envelope(&env), Ok(()));
    let inboxed = match after_decode(Ok(env.clone())) {
        ForwardDecision::Forward(e) => e,
        other => panic!("a parsed envelope must be forwarded, got {:?}", other),
    };
    assert_eq!(after_forward(true), LoopControl::Proceed);

    // The server's inbox holds one envelope whose decoded value equals
    // what was sent.
    assert_eq!(inboxed, env);
    let decoded: serde_json::Value = match inboxed.data {
        SerializedData::Text(t) => serde_json::from_str(&t).unwrap(),
        SerializedData::Binary(_) => panic!("chat:Hello is declared as text"),
    };
    assert_eq!(decoded.get("message").and_then(|m| m.as_str()), Some("hi"));
}
