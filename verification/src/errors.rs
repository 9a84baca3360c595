use vstd::prelude::*;

use crate::uattributes::opt_str_view;
use crate::ucode::UStatus;

verus! {

/// The Python exception class that an error is raised as.
#[derive(Clone, Copy, Debug, PartialEq, Eq, Structural)]
pub enum ErrorClass {
    /// The `RegistrationError` exception of the bindings.
    Registration,
    /// The `UStatusError` exception of the bindings.
    Status,
    /// A plain `Exception`.
    Plain,
}

/// An error as the bindings raise it: the exception class, the exception's text, and the
/// attributes `kind`, `code` and `message` that are set on the exception where present.
pub struct ErrorReport {
    pub class: ErrorClass,
    pub text: String,
    pub kind: Option<String>,
    pub code: Option<String>,
    pub message: Option<String>,
}

/// The mathematical value of an [`ErrorReport`].
pub struct ErrorReportView {
    pub class: ErrorClass,
    pub text: Seq<char>,
    pub kind: Option<Seq<char>>,
    pub code: Option<Seq<char>>,
    pub message: Option<Seq<char>>,
}

impl View for ErrorReport {
    type V = ErrorReportView;

    open spec fn view(&self) -> ErrorReportView {
        ErrorReportView {
            class: self.class,
            text: self.text@,
            kind: opt_str_view(self.kind),
            code: opt_str_view(self.code),
            message: opt_str_view(self.message),
        }
    }
}

/// The reason why a listener could not be registered or unregistered.
pub enum RegistrationError {
    /// A listener for the given filter criteria already exists.
    AlreadyExists,
    /// The transport's maximum number of listeners has been reached.
    MaxListenersExceeded,
    /// No listener is registered for the given pattern.
    NoSuchListener,
    /// The transport does not support the push delivery method.
    PushDeliveryMethodNotSupported,
    /// Some of the given filters are inappropriate; the text says which.
    InvalidFilter(String),
    /// Any other failure, with its status.
    Unknown(UStatus),
}

/// A report with a class and a text and no attributes.
pub open spec fn bare_report(class: ErrorClass, text: Seq<char>) -> ErrorReportView {
    ErrorReportView { class, text, kind: None, code: None, message: None }
}

/// The report of a `RegistrationError` exception with the given text, kind and message.
pub open spec fn registration_report_with(text: Seq<char>, kind: Seq<char>, message: Seq<char>) -> ErrorReportView {
    ErrorReportView {
        class: ErrorClass::Registration,
        text,
        kind: Some(kind),
        code: None,
        message: Some(message),
    }
}

/// The report of a failed (un)registration, raised with the text `context` in front.
pub open spec fn registration_report(context: Seq<char>, err: RegistrationError) -> ErrorReportView {
    match err {
        RegistrationError::AlreadyExists => registration_report_with(
            context + ": a listener for the given filter criteria already exists"@,
            "ALREADY_EXISTS"@,
            "listener already registered for filters"@,
        ),
        RegistrationError::NoSuchListener => registration_report_with(
            context + ": no listener registered for given pattern"@,
            "NOT_FOUND"@,
            "no listener registered for given pattern"@,
        ),
        RegistrationError::MaxListenersExceeded => registration_report_with(
            context + ": maximum number of listeners has been reached"@,
            "RESOURCE_EXHAUSTED"@,
            "maximum number of listeners has been reached"@,
        ),
        RegistrationError::PushDeliveryMethodNotSupported => registration_report_with(
            context + ": the underlying transport implementation does not support the push delivery method"@,
            "UNIMPLEMENTED"@,
            "the underlying transport implementation does not support the push delivery method"@,
        ),
        RegistrationError::InvalidFilter(msg) => registration_report_with(
            context + ": invalid filter(s): "@ + msg@,
            "INVALID_FILTER"@,
            msg@,
        ),
        RegistrationError::Unknown(status) => ErrorReportView {
            class: ErrorClass::Registration,
            text: status_text(context, status),
            kind: Some("UNKNOWN"@),
            code: Some(status.spec_code().spec_name()),
            message: Some(status.spec_message()),
        },
    }
}

/// The text `context: message (code=NAME)` of a failed status.
pub open spec fn status_text(context: Seq<char>, status: UStatus) -> Seq<char> {
    context + ": "@ + status.spec_message() + " (code="@ + status.spec_code().spec_name() + ")"@
}

/// The report of a failed transport call, raised as `UStatusError` with the text `context` in front.
pub open spec fn status_report(context: Seq<char>, status: UStatus) -> ErrorReportView {
    ErrorReportView {
        class: ErrorClass::Status,
        text: status_text(context, status),
        kind: None,
        code: Some(status.spec_code().spec_name()),
        message: Some(status.spec_message()),
    }
}

/// A report with no attributes.
pub fn bare_error(class: ErrorClass, text: String) -> (r: ErrorReport)
    ensures
        r@ == bare_report(class, text@),
{
    ErrorReport { class, text, kind: None, code: None, message: None }
}

/// The text `context: message (code=NAME)` of a failed status, with the code's name and the
/// status message.
fn describe_status(context: &str, status: &UStatus) -> (r: (String, String, String))
    ensures
        r.0@ == status_text(context@, *status),
        r.1@ == status.spec_code().spec_name(),
        r.2@ == status.spec_message(),
{
    let code_name = status.get_code().name();
    let status_message = status.get_message();
    let mut text = String::from_str(context);
    text.append(": ");
    text.append(status_message.as_str());
    text.append(" (code=");
    text.append(code_name.as_str());
    text.append(")");
    (text, code_name, status_message)
}

/// Maps a failed status of a transport call to the `UStatusError` that the bindings raise:
/// text `context: message (code=NAME)`, with attributes `code` and `message`.
pub fn map_ustatus_error(context: &str, status: &UStatus) -> (r: ErrorReport)
    ensures
        r@ == status_report(context@, *status),
{
    let (text, code_name, status_message) = describe_status(context, status);
    ErrorReport {
        class: ErrorClass::Status,
        text,
        kind: None,
        code: Some(code_name),
        message: Some(status_message),
    }
}

/// A `RegistrationError` report with text `context` followed by `suffix`, and the given kind and message.
fn registration_error_with(context: &str, suffix: &str, kind: &str, message: String) -> (r: ErrorReport)
    ensures
        r@ == registration_report_with(context@ + suffix@, kind@, message@),
{
    let mut text = String::from_str(context);
    text.append(suffix);
    ErrorReport {
        class: ErrorClass::Registration,
        text,
        kind: Some(String::from_str(kind)),
        code: None,
        message: Some(message),
    }
}

/// Maps a failed listener (un)registration to the `RegistrationError` that the bindings raise:
/// its text starts with `context`, and its attributes `kind` and `message` (and `code`, for an
/// unknown failure) say what failed.
pub fn map_registration_error(context: &str, err: RegistrationError) -> (r: ErrorReport)
    ensures
        r@ == registration_report(context@, err),
{
    match err {
        RegistrationError::AlreadyExists => registration_error_with(
            context,
            ": a listener for the given filter criteria already exists",
            "ALREADY_EXISTS",
            String::from_str("listener already registered for filters"),
        ),
        RegistrationError::NoSuchListener => registration_error_with(
            context,
            ": no listener registered for given pattern",
            "NOT_FOUND",
            String::from_str("no listener registered for given pattern"),
        ),
        RegistrationError::MaxListenersExceeded => registration_error_with(
            context,
            ": maximum number of listeners has been reached",
            "RESOURCE_EXHAUSTED",
            String::from_str("maximum number of listeners has been reached"),
        ),
        RegistrationError::PushDeliveryMethodNotSupported => registration_error_with(
            context,
            ": the underlying transport implementation does not support the push delivery method",
            "UNIMPLEMENTED",
            String::from_str(
                "the underlying transport implementation does not support the push delivery method",
            ),
        ),
        RegistrationError::InvalidFilter(msg) => {
            let mut text = String::from_str(context);
            text.append(": invalid filter(s): ");
            text.append(msg.as_str());
            ErrorReport {
                class: ErrorClass::Registration,
                text,
                kind: Some(String::from_str("INVALID_FILTER")),
                code: None,
                message: Some(msg),
            }
        },
        RegistrationError::Unknown(status) => {
            let (text, code_name, status_message) = describe_status(context, &status);
            ErrorReport {
                class: ErrorClass::Registration,
                text,
                kind: Some(String::from_str("UNKNOWN")),
                code: Some(code_name),
                message: Some(status_message),
            }
        },
    }
}

/// A text that starts with `prefix` keeps starting with it when more is appended.
proof fn lemma_prefix_append(prefix: Seq<char>, rest: Seq<char>, more: Seq<char>)
    requires
        rest.len() >= 2,
        rest[0] == ':',
        rest[1] == ' ',
    ensures
        (prefix + rest + more).subrange(0, prefix.len() + 2int) == prefix + ": "@,
        (prefix + rest).subrange(0, prefix.len() + 2int) == prefix + ": "@,
{
    reveal_strlit(": ");
    assert((prefix + rest + more).subrange(0, prefix.len() + 2int) =~= prefix + ": "@);
    assert((prefix + rest).subrange(0, prefix.len() + 2int) =~= prefix + ": "@);
}

/// Every report of a failed (un)registration or transport call starts with the context
/// it was given, followed by `": "`.
pub proof fn reports_start_with_context(context: Seq<char>, err: RegistrationError, status: UStatus)
    ensures
        registration_report(context, err).text.subrange(0, context.len() + 2int) == context + ": "@,
        status_report(context, status).text.subrange(0, context.len() + 2int) == context + ": "@,
{
    reveal_strlit(": ");
    reveal_strlit(": a listener for the given filter criteria already exists");
    reveal_strlit(": no listener registered for given pattern");
    reveal_strlit(": maximum number of listeners has been reached");
    reveal_strlit(": the underlying transport implementation does not support the push delivery method");
    reveal_strlit(": invalid filter(s): ");
    let tail = status.spec_message() + " (code="@ + status.spec_code().spec_name() + ")"@;
    assert(status_text(context, status) =~= context + ": "@ + tail);
    lemma_prefix_append(context, ": "@, tail);
    match err {
        RegistrationError::AlreadyExists => {
            lemma_prefix_append(context, ": a listener for the given filter criteria already exists"@, Seq::empty());
        },
        RegistrationError::NoSuchListener => {
            lemma_prefix_append(context, ": no listener registered for given pattern"@, Seq::empty());
        },
        RegistrationError::MaxListenersExceeded => {
            lemma_prefix_append(context, ": maximum number of listeners has been reached"@, Seq::empty());
        },
        RegistrationError::PushDeliveryMethodNotSupported => {
            lemma_prefix_append(
                context,
                ": the underlying transport implementation does not support the push delivery method"@,
                Seq::empty(),
            );
        },
        RegistrationError::InvalidFilter(msg) => {
            lemma_prefix_append(context, ": invalid filter(s): "@, msg@);
        },
        RegistrationError::Unknown(st) => {
            let t = st.spec_message() + " (code="@ + st.spec_code().spec_name() + ")"@;
            assert(status_text(context, st) =~= context + ": "@ + t);
            lemma_prefix_append(context, ": "@, t);
        },
    }
}

/// A failed (un)registration is raised as `RegistrationError` whose kind names the failure:
/// `ALREADY_EXISTS`, `NOT_FOUND` (no such listener), `RESOURCE_EXHAUSTED` (too many listeners),
/// `UNIMPLEMENTED` (no push delivery), `INVALID_FILTER` (with the given explanation as its
/// message) or `UNKNOWN` (with the status's code name and message); only an unknown failure
/// carries a code. A failed transport call is raised as `UStatusError` with the status's code
/// name and message and no kind.
pub proof fn reports_name_the_failure(context: Seq<char>, err: RegistrationError, status: UStatus)
    ensures
        registration_report(context, err).class == ErrorClass::Registration,
        err is AlreadyExists ==> registration_report(context, err).kind == Some("ALREADY_EXISTS"@),
        err is NoSuchListener ==> registration_report(context, err).kind == Some("NOT_FOUND"@),
        err is MaxListenersExceeded ==> registration_report(context, err).kind == Some("RESOURCE_EXHAUSTED"@),
        err is PushDeliveryMethodNotSupported ==> registration_report(context, err).kind == Some("UNIMPLEMENTED"@),
        err matches RegistrationError::InvalidFilter(m) ==> registration_report(context, err).kind == Some("INVALID_FILTER"@)
            && registration_report(context, err).message == Some(m@),
        err matches RegistrationError::Unknown(st) ==> registration_report(context, err).kind == Some("UNKNOWN"@)
            && registration_report(context, err).code == Some(st.spec_code().spec_name())
            && registration_report(context, err).message == Some(st.spec_message()),
        !(err is Unknown) ==> registration_report(context, err).code is None,
        status_report(context, status).class == ErrorClass::Status,
        status_report(context, status).kind is None,
        status_report(context, status).code == Some(status.spec_code().spec_name()),
        status_report(context, status).message == Some(status.spec_message()),
{
}

} // verus!
