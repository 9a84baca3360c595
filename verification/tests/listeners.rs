use up_rust_py::communication::SimpleNotifier;
use up_rust_py::errors::{ErrorClass, RegistrationError};
use up_rust_py::listeners::ListenerRegistry;
use up_rust_py::local_transport::LocalTransport;
use up_rust_py::ucode::{StatusDetail, UStatus};
use up_rust_py::uri::UUri;
use up_rust_py::zenoh_transport::UPTransportZenoh;

fn uri(authority: &str, resource: u32) -> UUri {
    UUri {
        authority_name: authority.to_string(),
        ue_id: 0x1234,
        ue_version_major: 1,
        resource_id: resource,
    }
}

fn status(code: i32, message: Option<&str>) -> UStatus {
    UStatus { code, message: message.map(str::to_string), details: vec![] }
}

#[test]
fn registry_insert_get_remove() {
    let mut r: ListenerRegistry<String, u32> = ListenerRegistry::new();
    r.insert("a".to_string(), 1);
    r.insert("b".to_string(), 2);
    r.insert("a".to_string(), 3);
    assert_eq!(r.get(&"a".to_string()), Some(&3));
    assert_eq!(r.get(&"b".to_string()), Some(&2));
    assert_eq!(r.get(&"c".to_string()), None);
    assert_eq!(r.remove(&"a".to_string()), Some(3));
    assert_eq!(r.remove(&"a".to_string()), None);
    assert_eq!(r.get(&"b".to_string()), Some(&2));
}

#[test]
fn local_register_then_unregister() {
    let mut t: LocalTransport<(), &str> = LocalTransport::new(());
    let src = uri("device", 0x8000);
    let sink = uri("other", 0);
    t.register_listener(&src, Some(&sink), 1, "first");
    t.register_listener(&src, None, 2, "second");
    assert_eq!(t.unregister_listener(&src, Some(&sink), 1).ok(), Some("first"));
    assert_eq!(t.unregister_listener(&src, None, 2).ok(), Some("second"));
}

#[test]
fn local_unregister_unknown_filters() {
    let mut t: LocalTransport<(), u8> = LocalTransport::new(());
    let src = uri("device", 0x8000);
    t.register_listener(&src, None, 10, 7);
    let e = t.unregister_listener(&src, Some(&uri("device", 1)), 10).err().unwrap();
    assert_eq!(e.class, ErrorClass::Status);
    assert_eq!(e.text, "Listener not found");
    assert_eq!(t.unregister_listener(&src, None, 10).ok(), Some(7));
    let again = t.unregister_listener(&src, None, 10).err().unwrap();
    assert_eq!(again.text, "Listener not found");
}

#[test]
fn local_unregister_other_listener_refused() {
    let mut t: LocalTransport<(), u8> = LocalTransport::new(());
    let src = uri("device", 0x8000);
    t.register_listener(&src, None, 10, 7);
    let e = t.unregister_listener(&src, None, 11).err().unwrap();
    assert_eq!(e.class, ErrorClass::Status);
    assert_eq!(e.text, "Listener not found");
    assert_eq!(t.unregister_listener(&src, None, 10).ok(), Some(7));
}

#[test]
fn local_register_replaces() {
    let mut t: LocalTransport<(), u8> = LocalTransport::new(());
    let src = uri("device", 0x8000);
    t.register_listener(&src, None, 1, 1);
    t.register_listener(&src, None, 2, 2);
    assert!(t.unregister_listener(&src, None, 1).is_err());
    assert_eq!(t.unregister_listener(&src, None, 2).ok(), Some(2));
    assert!(t.unregister_listener(&src, None, 2).is_err());
}

#[test]
fn local_outcomes() {
    assert!(LocalTransport::<(), u8>::register_outcome(Ok(())).is_ok());
    let e = LocalTransport::<(), u8>::register_outcome(Err(status(6, Some("dup")))).err().unwrap();
    assert_eq!(e.class, ErrorClass::Status);
    assert_eq!(e.text, "Failed to register listener: dup (code=ALREADY_EXISTS)");
    let e = LocalTransport::<(), u8>::unregister_outcome(Err(status(5, None))).err().unwrap();
    assert_eq!(e.text, "Failed to unregister listener:  (code=NOT_FOUND)");
    assert!(LocalTransport::<(), u8>::unregister_outcome(Ok(())).is_ok());
}

#[test]
fn zenoh_builder_and_listeners() {
    let b = UPTransportZenoh::<(), u8>::builder("my-vehicle");
    assert_eq!(b.authority, "my-vehicle");
    let mut t: UPTransportZenoh<(), u8> = UPTransportZenoh::new(());
    let src = uri("device", 0x8001);
    let e = t.unregister_listener(&src, None).err().unwrap();
    assert_eq!(e.class, ErrorClass::Plain);
    assert_eq!(e.text, "Listener not found");
    t.register_listener(&src, None, 9);
    assert_eq!(t.unregister_listener(&src, None).ok(), Some(9));
    assert!(t.unregister_listener(&src, None).is_err());
}

#[test]
fn zenoh_outcomes() {
    type Z = UPTransportZenoh<(), u8>;
    assert!(Z::register_outcome(Ok(())).is_ok());
    assert!(Z::unregister_outcome(Ok(())).is_ok());
    assert!(Z::send_outcome(Ok(())).is_ok());
    let e = Z::register_outcome(Err(status(5, Some("gone")))).err().unwrap();
    assert_eq!(e.class, ErrorClass::Plain);
    assert!(e.text.starts_with("Failed to register listener: "));
    assert!(e.text.contains("NOT_FOUND"));
    assert!(e.text.contains("gone"));
    let e = Z::unregister_outcome(Err(status(13, None))).err().unwrap();
    assert!(e.text.starts_with("Failed to unregister listener: "));
    assert!(e.text.contains("INTERNAL"));
    let detailed = UStatus {
        code: 14,
        message: Some("down".to_string()),
        details: vec![StatusDetail { type_url: "type.example/Detail".to_string(), value: vec![] }],
    };
    let e = Z::send_outcome(Err(detailed)).err().unwrap();
    assert!(e.text.starts_with("Failed to send message: "));
    assert!(e.text.contains("UNAVAILABLE"));
    assert!(e.text.contains("type.example/Detail"));
}

#[test]
fn topic_key_is_the_uri_text() {
    let k = SimpleNotifier::<(), u8>::topic_key(&uri("my-vehicle", 0xd100));
    assert!(k.contains("my-vehicle"));
    assert_eq!(k, SimpleNotifier::<(), u8>::topic_key(&uri("my-vehicle", 0xd100)));
    assert_ne!(k, SimpleNotifier::<(), u8>::topic_key(&uri("my-vehicle", 0xd101)));
}

#[test]
fn notifier_start_find_stop() {
    let mut n: SimpleNotifier<(), u8> = SimpleNotifier::new(());
    let topic = uri("my-vehicle", 0xd100);
    assert!(n.start_listening(&topic, 3, Ok(())).is_ok());
    assert_eq!(n.listener_for(&topic).ok(), Some(&3));
    assert!(n.stop_listening(&topic, Ok(())).is_ok());
    let e = n.listener_for(&topic).err().unwrap();
    assert_eq!(e.class, ErrorClass::Registration);
    assert_eq!(e.kind.as_deref(), Some("NOT_FOUND"));
    assert_eq!(e.message.as_deref(), Some("no listener registered for given pattern"));
    let key = SimpleNotifier::<(), u8>::topic_key(&topic);
    assert_eq!(e.text, format!("No listener registered for topic: {}", key));
}

#[test]
fn notifier_other_topic_not_found() {
    let mut n: SimpleNotifier<(), u8> = SimpleNotifier::new(());
    let topic = uri("my-vehicle", 0xd100);
    assert!(n.start_listening(&topic, 3, Ok(())).is_ok());
    let e = n.listener_for(&uri("my-vehicle", 0xd101)).err().unwrap();
    assert_eq!(e.class, ErrorClass::Registration);
    assert_eq!(n.listener_for(&topic).ok(), Some(&3));
}

#[test]
fn notifier_failed_start_files_nothing() {
    let mut n: SimpleNotifier<(), u8> = SimpleNotifier::new(());
    let topic = uri("my-vehicle", 0xd100);
    let e = n.start_listening(&topic, 3, Err(RegistrationError::AlreadyExists)).err().unwrap();
    assert_eq!(e.class, ErrorClass::Registration);
    assert_eq!(
        e.text,
        "Failed to start listening: a listener for the given filter criteria already exists"
    );
    assert!(n.listener_for(&topic).is_err());
}

#[test]
fn notifier_failed_stop_keeps_listener() {
    let mut n: SimpleNotifier<(), u8> = SimpleNotifier::new(());
    let topic = uri("my-vehicle", 0xd100);
    assert!(n.start_listening(&topic, 4, Ok(())).is_ok());
    let e = n.stop_listening(&topic, Err(RegistrationError::NoSuchListener)).err().unwrap();
    assert_eq!(e.text, "Failed to stop listening: no listener registered for given pattern");
    assert_eq!(e.kind.as_deref(), Some("NOT_FOUND"));
    assert_eq!(n.listener_for(&topic).ok(), Some(&4));
}
