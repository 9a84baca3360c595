use vstd::prelude::*;

use crate::ucode::UCode;
use crate::uri::{clone_opt_uri, opt_uri_view, UUri, UUriView};
use crate::uuid::UUID;

verus! {

/// The kind of a uProtocol message, numbered as in `uprotocol/v1/uattributes.proto`.
#[derive(Clone, Copy, Debug, PartialEq, Eq, Structural)]
#[allow(non_camel_case_types)]
pub enum UMessageType {
    UMESSAGE_TYPE_UNSPECIFIED,
    UMESSAGE_TYPE_PUBLISH,
    UMESSAGE_TYPE_REQUEST,
    UMESSAGE_TYPE_RESPONSE,
    UMESSAGE_TYPE_NOTIFICATION,
}

impl UMessageType {
    /// The wire number of the value.
    pub open spec fn spec_value(self) -> i32 {
        match self {
            UMessageType::UMESSAGE_TYPE_UNSPECIFIED => 0,
            UMessageType::UMESSAGE_TYPE_PUBLISH => 1,
            UMessageType::UMESSAGE_TYPE_REQUEST => 2,
            UMessageType::UMESSAGE_TYPE_RESPONSE => 3,
            UMessageType::UMESSAGE_TYPE_NOTIFICATION => 4,
        }
    }

    /// The value with a given wire number, if there is one.
    pub open spec fn spec_from_i32(v: i32) -> Option<UMessageType> {
        if v == 0 { Some(UMessageType::UMESSAGE_TYPE_UNSPECIFIED) } else if v == 1 { Some(UMessageType::UMESSAGE_TYPE_PUBLISH) } else if v == 2 { Some(UMessageType::UMESSAGE_TYPE_REQUEST) } else if v == 3 { Some(UMessageType::UMESSAGE_TYPE_RESPONSE) } else if v == 4 { Some(UMessageType::UMESSAGE_TYPE_NOTIFICATION) } else { None }
    }

    /// The name under which the value is printed (its identifier in the protocol definition).
    pub open spec fn spec_name(self) -> Seq<char> {
        match self {
            UMessageType::UMESSAGE_TYPE_UNSPECIFIED => "UMESSAGE_TYPE_UNSPECIFIED"@,
            UMessageType::UMESSAGE_TYPE_PUBLISH => "UMESSAGE_TYPE_PUBLISH"@,
            UMessageType::UMESSAGE_TYPE_REQUEST => "UMESSAGE_TYPE_REQUEST"@,
            UMessageType::UMESSAGE_TYPE_RESPONSE => "UMESSAGE_TYPE_RESPONSE"@,
            UMessageType::UMESSAGE_TYPE_NOTIFICATION => "UMESSAGE_TYPE_NOTIFICATION"@,
        }
    }

    /// Returns the wire number of the value.
    pub fn value(&self) -> (r: i32)
        ensures
            r == self.spec_value(),
    {
        match self {
            UMessageType::UMESSAGE_TYPE_UNSPECIFIED => 0,
            UMessageType::UMESSAGE_TYPE_PUBLISH => 1,
            UMessageType::UMESSAGE_TYPE_REQUEST => 2,
            UMessageType::UMESSAGE_TYPE_RESPONSE => 3,
            UMessageType::UMESSAGE_TYPE_NOTIFICATION => 4,
        }
    }

    /// Returns the value with wire number `v`, or `None` where `v` numbers no value.
    pub fn from_i32(v: i32) -> (r: Option<UMessageType>)
        ensures
            r == UMessageType::spec_from_i32(v),
    {
        if v == 0 { Some(UMessageType::UMESSAGE_TYPE_UNSPECIFIED) } else if v == 1 { Some(UMessageType::UMESSAGE_TYPE_PUBLISH) } else if v == 2 { Some(UMessageType::UMESSAGE_TYPE_REQUEST) } else if v == 3 { Some(UMessageType::UMESSAGE_TYPE_RESPONSE) } else if v == 4 { Some(UMessageType::UMESSAGE_TYPE_NOTIFICATION) } else { None }
    }

    /// Returns the printed name of the value.
    pub fn name(&self) -> (r: String)
        ensures
            r@ == self.spec_name(),
    {
        match self {
            UMessageType::UMESSAGE_TYPE_UNSPECIFIED => String::from_str("UMESSAGE_TYPE_UNSPECIFIED"),
            UMessageType::UMESSAGE_TYPE_PUBLISH => String::from_str("UMESSAGE_TYPE_PUBLISH"),
            UMessageType::UMESSAGE_TYPE_REQUEST => String::from_str("UMESSAGE_TYPE_REQUEST"),
            UMessageType::UMESSAGE_TYPE_RESPONSE => String::from_str("UMESSAGE_TYPE_RESPONSE"),
            UMessageType::UMESSAGE_TYPE_NOTIFICATION => String::from_str("UMESSAGE_TYPE_NOTIFICATION"),
        }
    }
}

/// The priority class of a uProtocol message, numbered as in `uprotocol/v1/uattributes.proto`.
#[derive(Clone, Copy, Debug, PartialEq, Eq, Structural)]
#[allow(non_camel_case_types)]
pub enum UPriority {
    UPRIORITY_UNSPECIFIED,
    UPRIORITY_CS0,
    UPRIORITY_CS1,
    UPRIORITY_CS2,
    UPRIORITY_CS3,
    UPRIORITY_CS4,
    UPRIORITY_CS5,
    UPRIORITY_CS6,
}

impl UPriority {
    /// The wire number of the value.
    pub open spec fn spec_value(self) -> i32 {
        match self {
            UPriority::UPRIORITY_UNSPECIFIED => 0,
            UPriority::UPRIORITY_CS0 => 1,
            UPriority::UPRIORITY_CS1 => 2,
            UPriority::UPRIORITY_CS2 => 3,
            UPriority::UPRIORITY_CS3 => 4,
            UPriority::UPRIORITY_CS4 => 5,
            UPriority::UPRIORITY_CS5 => 6,
            UPriority::UPRIORITY_CS6 => 7,
        }
    }

    /// The value with a given wire number, if there is one.
    pub open spec fn spec_from_i32(v: i32) -> Option<UPriority> {
        if v == 0 { Some(UPriority::UPRIORITY_UNSPECIFIED) } else if v == 1 { Some(UPriority::UPRIORITY_CS0) } else if v == 2 { Some(UPriority::UPRIORITY_CS1) } else if v == 3 { Some(UPriority::UPRIORITY_CS2) } else if v == 4 { Some(UPriority::UPRIORITY_CS3) } else if v == 5 { Some(UPriority::UPRIORITY_CS4) } else if v == 6 { Some(UPriority::UPRIORITY_CS5) } else if v == 7 { Some(UPriority::UPRIORITY_CS6) } else { None }
    }

    /// The name under which the value is printed (its identifier in the protocol definition).
    pub open spec fn spec_name(self) -> Seq<char> {
        match self {
            UPriority::UPRIORITY_UNSPECIFIED => "UPRIORITY_UNSPECIFIED"@,
            UPriority::UPRIORITY_CS0 => "UPRIORITY_CS0"@,
            UPriority::UPRIORITY_CS1 => "UPRIORITY_CS1"@,
            UPriority::UPRIORITY_CS2 => "UPRIORITY_CS2"@,
            UPriority::UPRIORITY_CS3 => "UPRIORITY_CS3"@,
            UPriority::UPRIORITY_CS4 => "UPRIORITY_CS4"@,
            UPriority::UPRIORITY_CS5 => "UPRIORITY_CS5"@,
            UPriority::UPRIORITY_CS6 => "UPRIORITY_CS6"@,
        }
    }

    /// Returns the wire number of the value.
    pub fn value(&self) -> (r: i32)
        ensures
            r == self.spec_value(),
    {
        match self {
            UPriority::UPRIORITY_UNSPECIFIED => 0,
            UPriority::UPRIORITY_CS0 => 1,
            UPriority::UPRIORITY_CS1 => 2,
            UPriority::UPRIORITY_CS2 => 3,
            UPriority::UPRIORITY_CS3 => 4,
            UPriority::UPRIORITY_CS4 => 5,
            UPriority::UPRIORITY_CS5 => 6,
            UPriority::UPRIORITY_CS6 => 7,
        }
    }

    /// Returns the value with wire number `v`, or `None` where `v` numbers no value.
    pub fn from_i32(v: i32) -> (r: Option<UPriority>)
        ensures
            r == UPriority::spec_from_i32(v),
    {
        if v == 0 { Some(UPriority::UPRIORITY_UNSPECIFIED) } else if v == 1 { Some(UPriority::UPRIORITY_CS0) } else if v == 2 { Some(UPriority::UPRIORITY_CS1) } else if v == 3 { Some(UPriority::UPRIORITY_CS2) } else if v == 4 { Some(UPriority::UPRIORITY_CS3) } else if v == 5 { Some(UPriority::UPRIORITY_CS4) } else if v == 6 { Some(UPriority::UPRIORITY_CS5) } else if v == 7 { Some(UPriority::UPRIORITY_CS6) } else { None }
    }

    /// Returns the printed name of the value.
    pub fn name(&self) -> (r: String)
        ensures
            r@ == self.spec_name(),
    {
        match self {
            UPriority::UPRIORITY_UNSPECIFIED => String::from_str("UPRIORITY_UNSPECIFIED"),
            UPriority::UPRIORITY_CS0 => String::from_str("UPRIORITY_CS0"),
            UPriority::UPRIORITY_CS1 => String::from_str("UPRIORITY_CS1"),
            UPriority::UPRIORITY_CS2 => String::from_str("UPRIORITY_CS2"),
            UPriority::UPRIORITY_CS3 => String::from_str("UPRIORITY_CS3"),
            UPriority::UPRIORITY_CS4 => String::from_str("UPRIORITY_CS4"),
            UPriority::UPRIORITY_CS5 => String::from_str("UPRIORITY_CS5"),
            UPriority::UPRIORITY_CS6 => String::from_str("UPRIORITY_CS6"),
        }
    }
}

/// The encoding of a message payload, numbered as in `uprotocol/v1/uattributes.proto`.
#[derive(Clone, Copy, Debug, PartialEq, Eq, Structural)]
#[allow(non_camel_case_types)]
pub enum UPayloadFormat {
    UPAYLOAD_FORMAT_UNSPECIFIED,
    UPAYLOAD_FORMAT_PROTOBUF_WRAPPED_IN_ANY,
    UPAYLOAD_FORMAT_PROTOBUF,
    UPAYLOAD_FORMAT_JSON,
    UPAYLOAD_FORMAT_SOMEIP,
    UPAYLOAD_FORMAT_SOMEIP_TLV,
    UPAYLOAD_FORMAT_RAW,
    UPAYLOAD_FORMAT_TEXT,
    UPAYLOAD_FORMAT_SHM,
}

impl UPayloadFormat {
    /// The wire number of the value.
    pub open spec fn spec_value(self) -> i32 {
        match self {
            UPayloadFormat::UPAYLOAD_FORMAT_UNSPECIFIED => 0,
            UPayloadFormat::UPAYLOAD_FORMAT_PROTOBUF_WRAPPED_IN_ANY => 1,
            UPayloadFormat::UPAYLOAD_FORMAT_PROTOBUF => 2,
            UPayloadFormat::UPAYLOAD_FORMAT_JSON => 3,
            UPayloadFormat::UPAYLOAD_FORMAT_SOMEIP => 4,
            UPayloadFormat::UPAYLOAD_FORMAT_SOMEIP_TLV => 5,
            UPayloadFormat::UPAYLOAD_FORMAT_RAW => 6,
            UPayloadFormat::UPAYLOAD_FORMAT_TEXT => 7,
            UPayloadFormat::UPAYLOAD_FORMAT_SHM => 8,
        }
    }

    /// The value with a given wire number, if there is one.
    pub open spec fn spec_from_i32(v: i32) -> Option<UPayloadFormat> {
        if v == 0 { Some(UPayloadFormat::UPAYLOAD_FORMAT_UNSPECIFIED) } else if v == 1 { Some(UPayloadFormat::UPAYLOAD_FORMAT_PROTOBUF_WRAPPED_IN_ANY) } else if v == 2 { Some(UPayloadFormat::UPAYLOAD_FORMAT_PROTOBUF) } else if v == 3 { Some(UPayloadFormat::UPAYLOAD_FORMAT_JSON) } else if v == 4 { Some(UPayloadFormat::UPAYLOAD_FORMAT_SOMEIP) } else if v == 5 { Some(UPayloadFormat::UPAYLOAD_FORMAT_SOMEIP_TLV) } else if v == 6 { Some(UPayloadFormat::UPAYLOAD_FORMAT_RAW) } else if v == 7 { Some(UPayloadFormat::UPAYLOAD_FORMAT_TEXT) } else if v == 8 { Some(UPayloadFormat::UPAYLOAD_FORMAT_SHM) } else { None }
    }

    /// The name under which the value is printed (its identifier in the protocol definition).
    pub open spec fn spec_name(self) -> Seq<char> {
        match self {
            UPayloadFormat::UPAYLOAD_FORMAT_UNSPECIFIED => "UPAYLOAD_FORMAT_UNSPECIFIED"@,
            UPayloadFormat::UPAYLOAD_FORMAT_PROTOBUF_WRAPPED_IN_ANY => "UPAYLOAD_FORMAT_PROTOBUF_WRAPPED_IN_ANY"@,
            UPayloadFormat::UPAYLOAD_FORMAT_PROTOBUF => "UPAYLOAD_FORMAT_PROTOBUF"@,
            UPayloadFormat::UPAYLOAD_FORMAT_JSON => "UPAYLOAD_FORMAT_JSON"@,
            UPayloadFormat::UPAYLOAD_FORMAT_SOMEIP => "UPAYLOAD_FORMAT_SOMEIP"@,
            UPayloadFormat::UPAYLOAD_FORMAT_SOMEIP_TLV => "UPAYLOAD_FORMAT_SOMEIP_TLV"@,
            UPayloadFormat::UPAYLOAD_FORMAT_RAW => "UPAYLOAD_FORMAT_RAW"@,
            UPayloadFormat::UPAYLOAD_FORMAT_TEXT => "UPAYLOAD_FORMAT_TEXT"@,
            UPayloadFormat::UPAYLOAD_FORMAT_SHM => "UPAYLOAD_FORMAT_SHM"@,
        }
    }

    /// Returns the wire number of the value.
    pub fn value(&self) -> (r: i32)
        ensures
            r == self.spec_value(),
    {
        match self {
            UPayloadFormat::UPAYLOAD_FORMAT_UNSPECIFIED => 0,
            UPayloadFormat::UPAYLOAD_FORMAT_PROTOBUF_WRAPPED_IN_ANY => 1,
            UPayloadFormat::UPAYLOAD_FORMAT_PROTOBUF => 2,
            UPayloadFormat::UPAYLOAD_FORMAT_JSON => 3,
            UPayloadFormat::UPAYLOAD_FORMAT_SOMEIP => 4,
            UPayloadFormat::UPAYLOAD_FORMAT_SOMEIP_TLV => 5,
            UPayloadFormat::UPAYLOAD_FORMAT_RAW => 6,
            UPayloadFormat::UPAYLOAD_FORMAT_TEXT => 7,
            UPayloadFormat::UPAYLOAD_FORMAT_SHM => 8,
        }
    }

    /// Returns the value with wire number `v`, or `None` where `v` numbers no value.
    pub fn from_i32(v: i32) -> (r: Option<UPayloadFormat>)
        ensures
            r == UPayloadFormat::spec_from_i32(v),
    {
        if v == 0 { Some(UPayloadFormat::UPAYLOAD_FORMAT_UNSPECIFIED) } else if v == 1 { Some(UPayloadFormat::UPAYLOAD_FORMAT_PROTOBUF_WRAPPED_IN_ANY) } else if v == 2 { Some(UPayloadFormat::UPAYLOAD_FORMAT_PROTOBUF) } else if v == 3 { Some(UPayloadFormat::UPAYLOAD_FORMAT_JSON) } else if v == 4 { Some(UPayloadFormat::UPAYLOAD_FORMAT_SOMEIP) } else if v == 5 { Some(UPayloadFormat::UPAYLOAD_FORMAT_SOMEIP_TLV) } else if v == 6 { Some(UPayloadFormat::UPAYLOAD_FORMAT_RAW) } else if v == 7 { Some(UPayloadFormat::UPAYLOAD_FORMAT_TEXT) } else if v == 8 { Some(UPayloadFormat::UPAYLOAD_FORMAT_SHM) } else { None }
    }

    /// Returns the printed name of the value.
    pub fn name(&self) -> (r: String)
        ensures
            r@ == self.spec_name(),
    {
        match self {
            UPayloadFormat::UPAYLOAD_FORMAT_UNSPECIFIED => String::from_str("UPAYLOAD_FORMAT_UNSPECIFIED"),
            UPayloadFormat::UPAYLOAD_FORMAT_PROTOBUF_WRAPPED_IN_ANY => String::from_str("UPAYLOAD_FORMAT_PROTOBUF_WRAPPED_IN_ANY"),
            UPayloadFormat::UPAYLOAD_FORMAT_PROTOBUF => String::from_str("UPAYLOAD_FORMAT_PROTOBUF"),
            UPayloadFormat::UPAYLOAD_FORMAT_JSON => String::from_str("UPAYLOAD_FORMAT_JSON"),
            UPayloadFormat::UPAYLOAD_FORMAT_SOMEIP => String::from_str("UPAYLOAD_FORMAT_SOMEIP"),
            UPayloadFormat::UPAYLOAD_FORMAT_SOMEIP_TLV => String::from_str("UPAYLOAD_FORMAT_SOMEIP_TLV"),
            UPayloadFormat::UPAYLOAD_FORMAT_RAW => String::from_str("UPAYLOAD_FORMAT_RAW"),
            UPayloadFormat::UPAYLOAD_FORMAT_TEXT => String::from_str("UPAYLOAD_FORMAT_TEXT"),
            UPayloadFormat::UPAYLOAD_FORMAT_SHM => String::from_str("UPAYLOAD_FORMAT_SHM"),
        }
    }
}


/// The view of an optional text.
pub open spec fn opt_str_view(s: Option<String>) -> Option<Seq<char>> {
    match s {
        Some(x) => Some(x@),
        None => None,
    }
}

/// Copies an optional text.
pub fn clone_opt_string(s: &Option<String>) -> (r: Option<String>)
    ensures
        opt_str_view(r) == opt_str_view(*s),
{
    match s {
        Some(x) => Some(x.clone()),
        None => None,
    }
}

/// The attributes (metadata) of a uProtocol message.
///
/// The enumerated attributes keep their wire numbers, which need not name a known value;
/// the getters read them back as values.
pub struct UAttributes {
    pub id: Option<UUID>,
    pub type_: i32,
    pub source: Option<UUri>,
    pub sink: Option<UUri>,
    pub priority: i32,
    pub ttl: Option<u32>,
    pub permission_level: Option<u32>,
    pub commstatus: Option<i32>,
    pub reqid: Option<UUID>,
    pub token: Option<String>,
    pub traceparent: Option<String>,
    pub payload_format: i32,
}

/// The mathematical value of [`UAttributes`].
pub struct UAttributesView {
    pub id: Option<UUID>,
    pub type_: i32,
    pub source: Option<UUriView>,
    pub sink: Option<UUriView>,
    pub priority: i32,
    pub ttl: Option<u32>,
    pub permission_level: Option<u32>,
    pub commstatus: Option<i32>,
    pub reqid: Option<UUID>,
    pub token: Option<Seq<char>>,
    pub traceparent: Option<Seq<char>>,
    pub payload_format: i32,
}

impl View for UAttributes {
    type V = UAttributesView;

    open spec fn view(&self) -> UAttributesView {
        UAttributesView {
            id: self.id,
            type_: self.type_,
            source: opt_uri_view(self.source),
            sink: opt_uri_view(self.sink),
            priority: self.priority,
            ttl: self.ttl,
            permission_level: self.permission_level,
            commstatus: self.commstatus,
            reqid: self.reqid,
            token: opt_str_view(self.token),
            traceparent: opt_str_view(self.traceparent),
            payload_format: self.payload_format,
        }
    }
}

impl Clone for UAttributes {
    fn clone(&self) -> (r: Self)
        ensures
            r@ == self@,
    {
        UAttributes {
            id: self.id,
            type_: self.type_,
            source: clone_opt_uri(&self.source),
            sink: clone_opt_uri(&self.sink),
            priority: self.priority,
            ttl: self.ttl,
            permission_level: self.permission_level,
            commstatus: self.commstatus,
            reqid: self.reqid,
            token: clone_opt_string(&self.token),
            traceparent: clone_opt_string(&self.traceparent),
            payload_format: self.payload_format,
        }
    }
}

impl UAttributes {
    /// Returns the message identifier.
    pub fn get_id(&self) -> (r: Option<UUID>)
        ensures
            r == self.id,
    {
        self.id
    }

    /// Returns the message type, or `None` where the stored number names no type.
    pub fn get_type_(&self) -> (r: Option<UMessageType>)
        ensures
            r == UMessageType::spec_from_i32(self.type_),
    {
        UMessageType::from_i32(self.type_)
    }

    /// Returns the source identifier.
    pub fn get_source(&self) -> (r: Option<UUri>)
        ensures
            opt_uri_view(r) == opt_uri_view(self.source),
    {
        clone_opt_uri(&self.source)
    }

    /// Returns the sink identifier.
    pub fn get_sink(&self) -> (r: Option<UUri>)
        ensures
            opt_uri_view(r) == opt_uri_view(self.sink),
    {
        clone_opt_uri(&self.sink)
    }

    /// Returns the priority class, or `None` where the stored number names no class.
    pub fn get_priority(&self) -> (r: Option<UPriority>)
        ensures
            r == UPriority::spec_from_i32(self.priority),
    {
        UPriority::from_i32(self.priority)
    }

    /// Returns the time-to-live.
    pub fn get_ttl(&self) -> (r: Option<u32>)
        ensures
            r == self.ttl,
    {
        self.ttl
    }

    /// Returns the permission level.
    pub fn get_permission_level(&self) -> (r: Option<u32>)
        ensures
            r == self.permission_level,
    {
        self.permission_level
    }

    /// Returns the communication status, or `None` where the stored number names no code.
    /// The attributes must carry a communication status.
    pub fn get_commstatus(&self) -> (r: Option<UCode>)
        requires
            self.commstatus is Some,
        ensures
            r == UCode::spec_from_i32(self.commstatus.unwrap()),
    {
        match self.commstatus {
            Some(c) => UCode::from_i32(c),
            None => None,
        }
    }

    /// Returns the identifier of the request that this message answers.
    pub fn get_reqid(&self) -> (r: Option<UUID>)
        ensures
            r == self.reqid,
    {
        self.reqid
    }

    /// Returns the access token.
    pub fn get_token(&self) -> (r: Option<String>)
        ensures
            opt_str_view(r) == opt_str_view(self.token),
    {
        clone_opt_string(&self.token)
    }

    /// Returns the trace parent.
    pub fn get_traceparent(&self) -> (r: Option<String>)
        ensures
            opt_str_view(r) == opt_str_view(self.traceparent),
    {
        clone_opt_string(&self.traceparent)
    }

    /// Returns the payload format, or `None` where the stored number names no format.
    pub fn get_payload_format(&self) -> (r: Option<UPayloadFormat>)
        ensures
            r == UPayloadFormat::spec_from_i32(self.payload_format),
    {
        UPayloadFormat::from_i32(self.payload_format)
    }
}

/// The message types carry the wire numbers and names of `uprotocol/v1/uattributes.proto`:
/// each number from 0 to 4 reads as the type of that number there, each type has that number
/// and prints as its identifier there, and no other number reads as a type.
pub proof fn message_type_protocol_table(v: i32)
    ensures
        UMessageType::spec_from_i32(0) == Some(UMessageType::UMESSAGE_TYPE_UNSPECIFIED),
        UMessageType::spec_from_i32(1) == Some(UMessageType::UMESSAGE_TYPE_PUBLISH),
        UMessageType::spec_from_i32(2) == Some(UMessageType::UMESSAGE_TYPE_REQUEST),
        UMessageType::spec_from_i32(3) == Some(UMessageType::UMESSAGE_TYPE_RESPONSE),
        UMessageType::spec_from_i32(4) == Some(UMessageType::UMESSAGE_TYPE_NOTIFICATION),
        UMessageType::UMESSAGE_TYPE_UNSPECIFIED.spec_value() == 0,
        UMessageType::UMESSAGE_TYPE_PUBLISH.spec_value() == 1,
        UMessageType::UMESSAGE_TYPE_REQUEST.spec_value() == 2,
        UMessageType::UMESSAGE_TYPE_RESPONSE.spec_value() == 3,
        UMessageType::UMESSAGE_TYPE_NOTIFICATION.spec_value() == 4,
        UMessageType::UMESSAGE_TYPE_UNSPECIFIED.spec_name() == "UMESSAGE_TYPE_UNSPECIFIED"@,
        UMessageType::UMESSAGE_TYPE_PUBLISH.spec_name() == "UMESSAGE_TYPE_PUBLISH"@,
        UMessageType::UMESSAGE_TYPE_REQUEST.spec_name() == "UMESSAGE_TYPE_REQUEST"@,
        UMessageType::UMESSAGE_TYPE_RESPONSE.spec_name() == "UMESSAGE_TYPE_RESPONSE"@,
        UMessageType::UMESSAGE_TYPE_NOTIFICATION.spec_name() == "UMESSAGE_TYPE_NOTIFICATION"@,
        v < 0 || v > 4 ==> UMessageType::spec_from_i32(v) is None,
{
}

/// The priority classes carry the wire numbers and names of `uprotocol/v1/uattributes.proto`:
/// each number from 0 to 7 reads as the class of that number there, each class has that number
/// and prints as its identifier there, and no other number reads as a class.
pub proof fn priority_protocol_table(v: i32)
    ensures
        UPriority::spec_from_i32(0) == Some(UPriority::UPRIORITY_UNSPECIFIED),
        UPriority::spec_from_i32(1) == Some(UPriority::UPRIORITY_CS0),
        UPriority::spec_from_i32(2) == Some(UPriority::UPRIORITY_CS1),
        UPriority::spec_from_i32(3) == Some(UPriority::UPRIORITY_CS2),
        UPriority::spec_from_i32(4) == Some(UPriority::UPRIORITY_CS3),
        UPriority::spec_from_i32(5) == Some(UPriority::UPRIORITY_CS4),
        UPriority::spec_from_i32(6) == Some(UPriority::UPRIORITY_CS5),
        UPriority::spec_from_i32(7) == Some(UPriority::UPRIORITY_CS6),
        UPriority::UPRIORITY_UNSPECIFIED.spec_value() == 0,
        UPriority::UPRIORITY_CS0.spec_value() == 1,
        UPriority::UPRIORITY_CS1.spec_value() == 2,
        UPriority::UPRIORITY_CS2.spec_value() == 3,
        UPriority::UPRIORITY_CS3.spec_value() == 4,
        UPriority::UPRIORITY_CS4.spec_value() == 5,
        UPriority::UPRIORITY_CS5.spec_value() == 6,
        UPriority::UPRIORITY_CS6.spec_value() == 7,
        UPriority::UPRIORITY_UNSPECIFIED.spec_name() == "UPRIORITY_UNSPECIFIED"@,
        UPriority::UPRIORITY_CS0.spec_name() == "UPRIORITY_CS0"@,
        UPriority::UPRIORITY_CS1.spec_name() == "UPRIORITY_CS1"@,
        UPriority::UPRIORITY_CS2.spec_name() == "UPRIORITY_CS2"@,
        UPriority::UPRIORITY_CS3.spec_name() == "UPRIORITY_CS3"@,
        UPriority::UPRIORITY_CS4.spec_name() == "UPRIORITY_CS4"@,
        UPriority::UPRIORITY_CS5.spec_name() == "UPRIORITY_CS5"@,
        UPriority::UPRIORITY_CS6.spec_name() == "UPRIORITY_CS6"@,
        v < 0 || v > 7 ==> UPriority::spec_from_i32(v) is None,
{
}

/// The payload formats carry the wire numbers and names of `uprotocol/v1/uattributes.proto`:
/// each number from 0 to 8 reads as the format of that number there, each format has that number
/// and prints as its identifier there, and no other number reads as a format.
pub proof fn payload_format_protocol_table(v: i32)
    ensures
        UPayloadFormat::spec_from_i32(0) == Some(UPayloadFormat::UPAYLOAD_FORMAT_UNSPECIFIED),
        UPayloadFormat::spec_from_i32(1) == Some(UPayloadFormat::UPAYLOAD_FORMAT_PROTOBUF_WRAPPED_IN_ANY),
        UPayloadFormat::spec_from_i32(2) == Some(UPayloadFormat::UPAYLOAD_FORMAT_PROTOBUF),
        UPayloadFormat::spec_from_i32(3) == Some(UPayloadFormat::UPAYLOAD_FORMAT_JSON),
        UPayloadFormat::spec_from_i32(4) == Some(UPayloadFormat::UPAYLOAD_FORMAT_SOMEIP),
        UPayloadFormat::spec_from_i32(5) == Some(UPayloadFormat::UPAYLOAD_FORMAT_SOMEIP_TLV),
        UPayloadFormat::spec_from_i32(6) == Some(UPayloadFormat::UPAYLOAD_FORMAT_RAW),
        UPayloadFormat::spec_from_i32(7) == Some(UPayloadFormat::UPAYLOAD_FORMAT_TEXT),
        UPayloadFormat::spec_from_i32(8) == Some(UPayloadFormat::UPAYLOAD_FORMAT_SHM),
        UPayloadFormat::UPAYLOAD_FORMAT_UNSPECIFIED.spec_value() == 0,
        UPayloadFormat::UPAYLOAD_FORMAT_PROTOBUF_WRAPPED_IN_ANY.spec_value() == 1,
        UPayloadFormat::UPAYLOAD_FORMAT_PROTOBUF.spec_value() == 2,
        UPayloadFormat::UPAYLOAD_FORMAT_JSON.spec_value() == 3,
        UPayloadFormat::UPAYLOAD_FORMAT_SOMEIP.spec_value() == 4,
        UPayloadFormat::UPAYLOAD_FORMAT_SOMEIP_TLV.spec_value() == 5,
        UPayloadFormat::UPAYLOAD_FORMAT_RAW.spec_value() == 6,
        UPayloadFormat::UPAYLOAD_FORMAT_TEXT.spec_value() == 7,
        UPayloadFormat::UPAYLOAD_FORMAT_SHM.spec_value() == 8,
        UPayloadFormat::UPAYLOAD_FORMAT_UNSPECIFIED.spec_name() == "UPAYLOAD_FORMAT_UNSPECIFIED"@,
        UPayloadFormat::UPAYLOAD_FORMAT_PROTOBUF_WRAPPED_IN_ANY.spec_name() == "UPAYLOAD_FORMAT_PROTOBUF_WRAPPED_IN_ANY"@,
        UPayloadFormat::UPAYLOAD_FORMAT_PROTOBUF.spec_name() == "UPAYLOAD_FORMAT_PROTOBUF"@,
        UPayloadFormat::UPAYLOAD_FORMAT_JSON.spec_name() == "UPAYLOAD_FORMAT_JSON"@,
        UPayloadFormat::UPAYLOAD_FORMAT_SOMEIP.spec_name() == "UPAYLOAD_FORMAT_SOMEIP"@,
        UPayloadFormat::UPAYLOAD_FORMAT_SOMEIP_TLV.spec_name() == "UPAYLOAD_FORMAT_SOMEIP_TLV"@,
        UPayloadFormat::UPAYLOAD_FORMAT_RAW.spec_name() == "UPAYLOAD_FORMAT_RAW"@,
        UPayloadFormat::UPAYLOAD_FORMAT_TEXT.spec_name() == "UPAYLOAD_FORMAT_TEXT"@,
        UPayloadFormat::UPAYLOAD_FORMAT_SHM.spec_name() == "UPAYLOAD_FORMAT_SHM"@,
        v < 0 || v > 8 ==> UPayloadFormat::spec_from_i32(v) is None,
{
}

/// Distinct message types print distinctly, so the printed type of a message names its type.
pub proof fn message_type_names_distinct(t1: UMessageType, t2: UMessageType)
    ensures
        t1.spec_name() == t2.spec_name() ==> t1 == t2,
{
    reveal_strlit("UMESSAGE_TYPE_UNSPECIFIED");
    reveal_strlit("UMESSAGE_TYPE_PUBLISH");
    reveal_strlit("UMESSAGE_TYPE_REQUEST");
    reveal_strlit("UMESSAGE_TYPE_RESPONSE");
    reveal_strlit("UMESSAGE_TYPE_NOTIFICATION");
    if t1.spec_name() == t2.spec_name() && t1 != t2 {
        let a = t1.spec_name();
        let b = t2.spec_name();
        assert(a.len() == b.len());
        assert(a[15] == b[15]);
        assert(a[16] == b[16]);
    }
}

/// Each enumerated attribute reads back the value whose wire number is stored:
/// storing a value's number and reading it gives that value, for every type, priority
/// class and payload format.
pub proof fn attribute_enums_round_trip(t: UMessageType, p: UPriority, f: UPayloadFormat)
    ensures
        UMessageType::spec_from_i32(t.spec_value()) == Some(t),
        UPriority::spec_from_i32(p.spec_value()) == Some(p),
        UPayloadFormat::spec_from_i32(f.spec_value()) == Some(f),
{
}
} // verus!
