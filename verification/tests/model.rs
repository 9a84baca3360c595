use up_rust_py::uattributes::{UAttributes, UMessageType, UPayloadFormat, UPriority};
use up_rust_py::ucode::{UCode, UStatus};
use up_rust_py::uri::{StaticUriProvider, UUri};
use up_rust_py::uuid::UUID;

fn uri(authority: &str, ue_id: u32, version: u32, resource: u32) -> UUri {
    UUri {
        authority_name: authority.to_string(),
        ue_id,
        ue_version_major: version,
        resource_id: resource,
    }
}

fn attributes() -> UAttributes {
    UAttributes {
        id: Some(UUID { msb: 0x0123, lsb: 0x4567 }),
        type_: 4,
        source: Some(uri("vehicle", 0xa34b, 1, 0xd100)),
        sink: Some(uri("cloud", 0x11, 2, 0)),
        priority: 3,
        ttl: Some(500),
        permission_level: None,
        commstatus: Some(5),
        reqid: None,
        token: Some("secret-token".to_string()),
        traceparent: None,
        payload_format: 1,
    }
}

#[test]
fn ucode_numbers_and_names() {
    assert_eq!(UCode::from_i32(0), Some(UCode::OK));
    assert_eq!(UCode::from_i32(5), Some(UCode::NOT_FOUND));
    assert_eq!(UCode::from_i32(16), Some(UCode::UNAUTHENTICATED));
    assert_eq!(UCode::from_i32(8), Some(UCode::RESOURCE_EXHAUSTED));
    assert_eq!(UCode::from_i32(17), None);
    assert_eq!(UCode::from_i32(-1), None);
    assert_eq!(UCode::UNAUTHENTICATED.value(), 16);
    assert_eq!(UCode::NOT_FOUND.name(), "NOT_FOUND");
    assert_eq!(UCode::DATA_LOSS.name(), "DATA_LOSS");
}

#[test]
fn ucode_round_trip_for_every_number() {
    for v in -3..20 {
        match UCode::from_i32(v) {
            Some(c) => assert_eq!(c.value(), v),
            None => assert!(!(0..=16).contains(&v)),
        }
    }
}

#[test]
fn ustatus_code_and_message() {
    let s = UStatus { code: 6, message: Some("dup".to_string()), details: vec![] };
    assert_eq!(s.get_code(), UCode::ALREADY_EXISTS);
    assert_eq!(s.get_message(), "dup");
    let unknown = UStatus { code: 99, message: None, details: vec![] };
    assert_eq!(unknown.get_code(), UCode::OK);
    assert_eq!(unknown.get_message(), "");
}

#[test]
fn enum_names_and_numbers() {
    assert_eq!(UMessageType::from_i32(1), Some(UMessageType::UMESSAGE_TYPE_PUBLISH));
    assert_eq!(UMessageType::from_i32(5), None);
    assert_eq!(UMessageType::UMESSAGE_TYPE_NOTIFICATION.name(), "UMESSAGE_TYPE_NOTIFICATION");
    assert_eq!(UPriority::from_i32(7), Some(UPriority::UPRIORITY_CS6));
    assert_eq!(UPriority::from_i32(8), None);
    assert_eq!(UPriority::UPRIORITY_CS2.value(), 3);
    assert_eq!(UPayloadFormat::from_i32(8), Some(UPayloadFormat::UPAYLOAD_FORMAT_SHM));
    assert_eq!(UPayloadFormat::from_i32(9), None);
    assert_eq!(UPayloadFormat::UPAYLOAD_FORMAT_RAW.value(), 6);
    assert_eq!(UPayloadFormat::UPAYLOAD_FORMAT_TEXT.name(), "UPAYLOAD_FORMAT_TEXT");
}

#[test]
fn attribute_getters() {
    let a = attributes();
    let id = a.get_id().unwrap();
    assert_eq!((id.get_msb(), id.get_lsb()), (0x0123, 0x4567));
    assert_eq!(a.get_type_(), Some(UMessageType::UMESSAGE_TYPE_NOTIFICATION));
    let source = a.get_source().unwrap();
    assert_eq!(source.authority_name, "vehicle");
    assert_eq!(source.resource_id, 0xd100);
    assert_eq!(a.get_sink().unwrap().authority_name, "cloud");
    assert_eq!(a.get_priority(), Some(UPriority::UPRIORITY_CS2));
    assert_eq!(a.get_ttl(), Some(500));
    assert_eq!(a.get_permission_level(), None);
    assert_eq!(a.get_commstatus(), Some(UCode::NOT_FOUND));
    assert!(a.get_reqid().is_none());
    assert_eq!(a.get_token(), Some("secret-token".to_string()));
    assert_eq!(a.get_traceparent(), None);
    assert_eq!(a.get_payload_format(), Some(UPayloadFormat::UPAYLOAD_FORMAT_PROTOBUF_WRAPPED_IN_ANY));
}

#[test]
fn attribute_getters_unknown_numbers() {
    let mut a = attributes();
    a.type_ = 42;
    a.priority = -2;
    a.payload_format = 100;
    a.commstatus = Some(77);
    assert_eq!(a.get_type_(), None);
    assert_eq!(a.get_priority(), None);
    assert_eq!(a.get_payload_format(), None);
    assert_eq!(a.get_commstatus(), None);
}

#[test]
#[allow(clippy::redundant_clone)]
fn attributes_clone_keeps_fields() {
    let a = attributes();
    let b = a.clone();
    assert_eq!(b.get_token(), Some("secret-token".to_string()));
    assert!(b.get_source().unwrap().same_as(&a.get_source().unwrap()));
}

#[test]
fn uri_equality() {
    let a = uri("device", 0x1234, 1, 0xb4c1);
    assert!(a.same_as(&a.clone()));
    assert!(!a.same_as(&uri("device", 0x1234, 1, 0xb4c2)));
    assert!(!a.same_as(&uri("devicf", 0x1234, 1, 0xb4c1)));
}

#[test]
fn provider_resource_and_source_uris() {
    let provider = StaticUriProvider::new("my-vehicle".to_string(), 0xa34b, 0x01);
    let r = provider.get_resource_uri(0xd100);
    assert_eq!(r.authority_name, "my-vehicle");
    assert_eq!(r.ue_id, 0xa34b);
    assert_eq!(r.ue_version_major, 1);
    assert_eq!(r.resource_id, 0xd100);
    let s = provider.get_source_uri();
    assert_eq!(s.authority_name, "my-vehicle");
    assert_eq!(s.ue_id, 0xa34b);
    assert_eq!(s.ue_version_major, 1);
    assert_eq!(s.resource_id, 0);
}

#[test]
fn provider_uris_differ_only_in_resource() {
    let provider = StaticUriProvider::new("sensor-001".to_string(), 0x4210, 0x05);
    let a = provider.get_resource_uri(0x8001);
    let b = provider.get_resource_uri(0x8002);
    assert_eq!((a.ue_id, a.ue_version_major), (b.ue_id, b.ue_version_major));
    assert!(!a.same_as(&b));
    assert!(provider.get_resource_uri(0).same_as(&provider.get_source_uri()));
}
