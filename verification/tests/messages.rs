use up_rust_py::payload::UPayload;
use up_rust_py::uattributes::{UAttributes, UPayloadFormat};
use up_rust_py::umessage::UMessage;

fn attributes(type_: i32, payload_format: i32) -> UAttributes {
    UAttributes {
        id: None,
        type_,
        source: None,
        sink: None,
        priority: 0,
        ttl: None,
        permission_level: None,
        commstatus: None,
        reqid: None,
        token: None,
        traceparent: None,
        payload_format,
    }
}

fn message(payload: &UPayload, type_: i32) -> UMessage {
    UMessage {
        attributes: Some(attributes(type_, payload.format.value())),
        payload: Some(payload.payload.clone()),
    }
}

#[test]
fn string_payload_round_trip() {
    let p = UPayload::from_string("Hello, World!".to_string()).ok().unwrap();
    assert_eq!(p.format, UPayloadFormat::UPAYLOAD_FORMAT_PROTOBUF_WRAPPED_IN_ANY);
    assert_ne!(p.payload, b"Hello, World!".to_vec());
    let m = message(&p, 1);
    assert_eq!(m.extract_string(), Some("Hello, World!".to_string()));
}

#[test]
fn empty_string_round_trip() {
    let p = UPayload::from_string(String::new()).ok().unwrap();
    assert_eq!(message(&p, 4).extract_string(), Some(String::new()));
}

#[test]
fn string_payload_is_packed_in_any() {
    let p = UPayload::from_string("Alert!".to_string()).ok().unwrap();
    let text = String::from_utf8_lossy(&p.payload);
    assert!(text.contains("type.googleapis.com/google.protobuf.StringValue"));
    assert!(text.contains("Alert!"));
}

#[test]
fn bytes_payload_keeps_bytes() {
    let p = UPayload::from_bytes(vec![72, 101, 108, 108, 111]);
    assert_eq!(p.payload, vec![72, 101, 108, 108, 111]);
    assert_eq!(p.format, UPayloadFormat::UPAYLOAD_FORMAT_PROTOBUF_WRAPPED_IN_ANY);
}

#[test]
fn raw_bytes_are_no_string() {
    let p = UPayload::from_bytes(vec![0xff, 0x00, 0x13]);
    assert_eq!(message(&p, 1).extract_string(), None);
}

#[test]
fn no_payload_no_string() {
    let m = UMessage { attributes: Some(attributes(1, 1)), payload: None };
    assert_eq!(m.extract_string(), None);
    assert_eq!(m.get_payload(), None);
}

#[test]
fn other_format_gives_no_string() {
    let p = UPayload::from_string("text".to_string()).ok().unwrap();
    let m = UMessage { attributes: Some(attributes(1, 7)), payload: Some(p.payload.clone()) };
    assert_eq!(m.extract_string(), None);
    let m = UMessage { attributes: None, payload: Some(p.payload) };
    assert_eq!(m.extract_string(), None);
}

#[test]
fn message_getters() {
    let p = UPayload::from_bytes(vec![1, 2, 3]);
    let m = message(&p, 2);
    assert_eq!(m.get_payload(), Some(vec![1, 2, 3]));
    let a = m.get_attributes().unwrap();
    assert_eq!(a.type_, 2);
    assert_eq!(a.payload_format, 1);
    let bare = UMessage { attributes: None, payload: None };
    assert!(bare.get_attributes().is_none());
}

#[test]
fn message_repr() {
    let p = UPayload::from_bytes(vec![1]);
    assert_eq!(message(&p, 1).repr(), "UMessage(type=UMESSAGE_TYPE_PUBLISH, payload=true)");
    let m = UMessage { attributes: Some(attributes(4, 0)), payload: None };
    assert_eq!(m.repr(), "UMessage(type=UMESSAGE_TYPE_NOTIFICATION, payload=false)");
    let m = UMessage { attributes: Some(attributes(9, 0)), payload: None };
    assert_eq!(m.repr(), "UMessage(type=, payload=false)");
    let m = UMessage { attributes: None, payload: Some(vec![]) };
    assert_eq!(m.repr(), "UMessage(type=, payload=true)");
}

#[test]
fn long_string_payload_round_trip() {
    let text = "é".repeat(100_000);
    let p = UPayload::from_string(text.clone()).ok().unwrap();
    assert_eq!(message(&p, 1).extract_string(), Some(text));
}
