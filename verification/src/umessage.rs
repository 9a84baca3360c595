use vstd::prelude::*;

use crate::payload::{extracted_string_value, is_string_payload, UPayload};
use crate::uattributes::{opt_str_view, UAttributes, UAttributesView, UMessageType};

verus! {

/// `up_rust::UMessage::extract_protobuf::<StringValue>` on a message whose payload is `payload`
/// and whose payload format number is `format`, giving the string's text. Claimed: the text is
/// the named result, and there is none unless the format is protobuf wrapped in `Any` (1) or
/// plain protobuf (2), as the outside source refuses every other format.
#[verifier::external_body]
fn outside_extract_string(payload: &Vec<u8>, format: i32) -> (r: Option<String>)
    ensures
        opt_str_view(r) == extracted_string_value(payload@, format),
        format != 1 && format != 2 ==> r is None,
{
    let message = up_rust::UMessage {
        attributes: protobuf::MessageField::some(up_rust::UAttributes {
            payload_format: protobuf::EnumOrUnknown::from_i32(format),
            ..Default::default()
        }),
        payload: Some(payload.clone().into()),
        ..Default::default()
    };
    message
        .extract_protobuf::<protobuf::well_known_types::wrappers::StringValue>()
        .ok()
        .map(|v| v.value)
}

/// Copies a byte vector.
pub fn copy_bytes(p: &Vec<u8>) -> (r: Vec<u8>)
    ensures
        r@ == p@,
{
    let r = p.clone();
    assert(r@ =~= p@);
    r
}

/// A complete uProtocol message: its attributes and its raw payload.
pub struct UMessage {
    pub attributes: Option<UAttributes>,
    pub payload: Option<Vec<u8>>,
}

/// The mathematical value of a [`UMessage`].
pub struct UMessageView {
    pub attributes: Option<UAttributesView>,
    pub payload: Option<Seq<u8>>,
}

impl View for UMessage {
    type V = UMessageView;

    open spec fn view(&self) -> UMessageView {
        UMessageView {
            attributes: match self.attributes {
                Some(a) => Some(a@),
                None => None,
            },
            payload: match self.payload {
                Some(p) => Some(p@),
                None => None,
            },
        }
    }
}

impl Clone for UMessage {
    fn clone(&self) -> (r: Self)
        ensures
            r@ == self@,
    {
        UMessage {
            attributes: match &self.attributes {
                Some(a) => Some(a.clone()),
                None => None,
            },
            payload: match &self.payload {
                Some(p) => Some(copy_bytes(p)),
                None => None,
            },
        }
    }
}

impl UMessage {
    /// The payload format number of the message; a message without attributes has format 0
    /// (unspecified).
    pub open spec fn spec_payload_format(&self) -> i32 {
        match self.attributes {
            Some(a) => a.payload_format,
            None => 0,
        }
    }

    /// The text that the message's payload holds as a protobuf `StringValue`, if any.
    pub open spec fn spec_extract_string(&self) -> Option<Seq<char>> {
        match self.payload {
            Some(p) => extracted_string_value(p@, self.spec_payload_format()),
            None => None,
        }
    }

    /// The printed name of the message type, or the empty text where the message has no
    /// attributes or its type number names no type.
    pub open spec fn spec_type_name(&self) -> Seq<char> {
        match self.attributes {
            Some(a) => match UMessageType::spec_from_i32(a.type_) {
                Some(t) => t.spec_name(),
                None => Seq::empty(),
            },
            None => Seq::empty(),
        }
    }

    /// The text `UMessage(type=TYPE, payload=BOOL)` that represents the message.
    pub open spec fn spec_repr(&self) -> Seq<char> {
        "UMessage(type="@ + self.spec_type_name() + ", payload="@
            + (if self.payload is Some { "true"@ } else { "false"@ }) + ")"@
    }

    /// Returns the message attributes.
    pub fn get_attributes(&self) -> (r: Option<UAttributes>)
        ensures
            match r {
                Some(a) => self.attributes matches Some(b) && a@ == b@,
                None => self.attributes is None,
            },
    {
        match &self.attributes {
            Some(a) => Some(a.clone()),
            None => None,
        }
    }

    /// Returns the raw payload bytes.
    pub fn get_payload(&self) -> (r: Option<Vec<u8>>)
        ensures
            match r {
                Some(p) => self.payload matches Some(q) && p@ == q@,
                None => self.payload is None,
            },
    {
        match &self.payload {
            Some(p) => Some(copy_bytes(p)),
            None => None,
        }
    }

    /// Extracts the text of the protobuf `StringValue` that the payload holds; `None` where the
    /// message has no payload or its payload is no such value in a protobuf format.
    pub fn extract_string(&self) -> (r: Option<String>)
        ensures
            opt_str_view(r) == self.spec_extract_string(),
            self.spec_payload_format() != 1 && self.spec_payload_format() != 2 ==> r is None,
    {
        match &self.payload {
            Some(p) => {
                let format = match &self.attributes {
                    Some(a) => a.payload_format,
                    None => 0,
                };
                outside_extract_string(p, format)
            },
            None => None,
        }
    }

    /// Returns the text `UMessage(type=TYPE, payload=BOOL)` that represents the message.
    pub fn repr(&self) -> (r: String)
        ensures
            r@ == self.spec_repr(),
    {
        let mut text = String::from_str("UMessage(type=");
        match &self.attributes {
            Some(a) => match UMessageType::from_i32(a.type_) {
                Some(t) => {
                    let name = t.name();
                    text.append(name.as_str());
                },
                None => {},
            },
            None => {},
        }
        text.append(", payload=");
        if self.payload.is_some() {
            text.append("true");
        } else {
            text.append("false");
        }
        text.append(")");
        text
    }
}

/// Text is read in the payload format that the message itself carries: a message with
/// attributes is read in their payload format (so format 2 is read as plain protobuf and
/// format 1 as protobuf wrapped in `Any`), and one without attributes in format 0.
pub proof fn text_is_read_in_the_carried_format(m: UMessage)
    ensures
        m.attributes matches Some(a) ==> m.spec_payload_format() == a.payload_format,
        m.attributes is None ==> m.spec_payload_format() == 0,
        m.attributes matches Some(a) ==> (m.payload matches Some(p)
            ==> m.spec_extract_string() == extracted_string_value(p@, a.payload_format)),
        m.attributes is None ==> (m.payload matches Some(p)
            ==> m.spec_extract_string() == extracted_string_value(p@, 0)),
{
}

/// The printed form of a message shows the name of its known type (nothing where it has no
/// attributes or an unknown type number) and whether it carries a payload: it is exactly
/// `UMessage(type=` and `, payload=` and `)` around them, so its length is 29 plus the
/// type name's, plus one more without a payload.
pub proof fn repr_shows_type_and_payload(m: UMessage)
    ensures
        m.attributes matches Some(a) ==> (UMessageType::spec_from_i32(a.type_) matches Some(t)
            ==> m.spec_type_name() == t.spec_name()),
        m.attributes matches Some(a) ==> (UMessageType::spec_from_i32(a.type_) is None
            ==> m.spec_type_name().len() == 0),
        m.attributes is None ==> m.spec_type_name().len() == 0,
        m.payload is Some ==> m.spec_repr().len() == 29 + m.spec_type_name().len(),
        m.payload is None ==> m.spec_repr().len() == 30 + m.spec_type_name().len(),
{
    reveal_strlit("UMessage(type=");
    reveal_strlit(", payload=");
    reveal_strlit("true");
    reveal_strlit("false");
    reveal_strlit(")");
}

/// A message without payload holds no text, whatever its attributes.
pub proof fn no_payload_no_text(m: UMessage)
    requires
        m.payload is None,
    ensures
        m.spec_extract_string() is None,
{
}

/// Text packed by `UPayload::from_string` reads back: a message that carries the bytes of a
/// payload made from `value`, with format protobuf wrapped in `Any`, yields `value` from
/// `extract_string`.
pub proof fn packed_text_reads_back(p: UPayload, value: Seq<char>, m: UMessage)
    requires
        is_string_payload(value, p),
        m.payload matches Some(q) && q@ == p.payload@,
        m.spec_payload_format() == p.format.spec_value(),
    ensures
        m.spec_extract_string() == Some(value),
{
}

} // verus!
