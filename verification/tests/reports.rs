use up_rust_py::errors::{map_registration_error, map_ustatus_error, ErrorClass, RegistrationError};
use up_rust_py::ucode::UStatus;

#[test]
fn already_exists_report() {
    let r = map_registration_error("Failed to start listening", RegistrationError::AlreadyExists);
    assert_eq!(r.class, ErrorClass::Registration);
    assert_eq!(r.text, "Failed to start listening: a listener for the given filter criteria already exists");
    assert_eq!(r.kind.as_deref(), Some("ALREADY_EXISTS"));
    assert_eq!(r.message.as_deref(), Some("listener already registered for filters"));
    assert_eq!(r.code, None);
}

#[test]
fn no_such_listener_report() {
    let r = map_registration_error("Failed to stop listening", RegistrationError::NoSuchListener);
    assert_eq!(r.text, "Failed to stop listening: no listener registered for given pattern");
    assert_eq!(r.kind.as_deref(), Some("NOT_FOUND"));
    assert_eq!(r.message.as_deref(), Some("no listener registered for given pattern"));
}

#[test]
fn max_listeners_report() {
    let r = map_registration_error("ctx", RegistrationError::MaxListenersExceeded);
    assert_eq!(r.text, "ctx: maximum number of listeners has been reached");
    assert_eq!(r.kind.as_deref(), Some("RESOURCE_EXHAUSTED"));
    assert_eq!(r.message.as_deref(), Some("maximum number of listeners has been reached"));
}

#[test]
fn push_delivery_report() {
    let r = map_registration_error("ctx", RegistrationError::PushDeliveryMethodNotSupported);
    assert_eq!(
        r.text,
        "ctx: the underlying transport implementation does not support the push delivery method"
    );
    assert_eq!(r.kind.as_deref(), Some("UNIMPLEMENTED"));
    assert_eq!(
        r.message.as_deref(),
        Some("the underlying transport implementation does not support the push delivery method")
    );
}

#[test]
fn invalid_filter_report() {
    let r = map_registration_error("ctx", RegistrationError::InvalidFilter("bad sink".to_string()));
    assert_eq!(r.text, "ctx: invalid filter(s): bad sink");
    assert_eq!(r.kind.as_deref(), Some("INVALID_FILTER"));
    assert_eq!(r.message.as_deref(), Some("bad sink"));
    assert_eq!(r.code, None);
}

#[test]
fn unknown_registration_report() {
    let status = UStatus { code: 13, message: Some("boom".to_string()), details: vec![] };
    let r = map_registration_error("ctx", RegistrationError::Unknown(status));
    assert_eq!(r.class, ErrorClass::Registration);
    assert_eq!(r.text, "ctx: boom (code=INTERNAL)");
    assert_eq!(r.kind.as_deref(), Some("UNKNOWN"));
    assert_eq!(r.code.as_deref(), Some("INTERNAL"));
    assert_eq!(r.message.as_deref(), Some("boom"));
}

#[test]
fn ustatus_report() {
    let status = UStatus { code: 5, message: Some("no such listener".to_string()), details: vec![] };
    let r = map_ustatus_error("Failed to unregister listener", &status);
    assert_eq!(r.class, ErrorClass::Status);
    assert_eq!(r.text, "Failed to unregister listener: no such listener (code=NOT_FOUND)");
    assert_eq!(r.code.as_deref(), Some("NOT_FOUND"));
    assert_eq!(r.message.as_deref(), Some("no such listener"));
    assert_eq!(r.kind, None);
}

#[test]
fn ustatus_report_without_message_or_known_code() {
    let status = UStatus { code: 1000, message: None, details: vec![] };
    let r = map_ustatus_error("x", &status);
    assert_eq!(r.text, "x:  (code=OK)");
    assert_eq!(r.code.as_deref(), Some("OK"));
    assert_eq!(r.message.as_deref(), Some(""));
}

#[test]
fn reports_start_with_their_context() {
    let errs = vec![
        RegistrationError::AlreadyExists,
        RegistrationError::MaxListenersExceeded,
        RegistrationError::NoSuchListener,
        RegistrationError::PushDeliveryMethodNotSupported,
        RegistrationError::InvalidFilter(String::new()),
        RegistrationError::Unknown(UStatus { code: 2, message: None, details: vec![] }),
    ];
    for e in errs {
        assert!(map_registration_error("Some context", e).text.starts_with("Some context: "));
    }
    let s = UStatus { code: 3, message: Some("m".to_string()), details: vec![] };
    assert!(map_ustatus_error("Other", &s).text.starts_with("Other: "));
}
