use vstd::prelude::*;

use crate::errors::{bare_error, bare_report, ErrorClass, ErrorReport};
use crate::uattributes::UPayloadFormat;

verus! {

/// The message error type of up-rust, carried opaquely.
#[verifier::external_type_specification]
#[verifier::external_body]
pub struct ExUMessageError(up_rust::UMessageError);

/// The bytes that `up_rust::communication::UPayload::try_from_protobuf` gives for a protobuf
/// `StringValue` holding `value` (packed in a `google.protobuf.Any`), or `None` where it fails.
pub uninterp spec fn packed_string_value(value: Seq<char>) -> Option<Seq<u8>>;

/// The text of the protobuf `StringValue` that `up_rust::UMessage::extract_protobuf` reads from
/// a message with payload `payload` and payload format number `format`, or `None` where it fails.
pub uninterp spec fn extracted_string_value(payload: Seq<u8>, format: i32) -> Option<Seq<char>>;

/// `up_rust::communication::UPayload::try_from_protobuf` on a `StringValue` holding `value`,
/// giving the payload's bytes. Claimed: it succeeds exactly where the named result exists, its
/// bytes are the named result, and reading them back as a payload wrapped in `Any` (format number
/// 1) gives `value` again, as up-rust's documentation of `extract_protobuf` shows. It succeeds
/// on every text of fewer than 2^28 characters: protobuf refuses only messages above 2^31 - 1
/// bytes, and such a text encodes in at most 2^30 bytes plus a few bytes of framing.
#[verifier::external_body]
fn outside_pack_string(value: &String) -> (r: Result<Vec<u8>, up_rust::UMessageError>)
    ensures
        value@.len() < 0x1000_0000 ==> r is Ok,
        (r is Ok) == (packed_string_value(value@) is Some),
        r matches Ok(b) ==> packed_string_value(value@) == Some(b@),
        r matches Ok(b) ==> extracted_string_value(b@, 1) == Some(value@),
{
    let message = protobuf::well_known_types::wrappers::StringValue {
        value: value.clone(),
        ..Default::default()
    };
    up_rust::communication::UPayload::try_from_protobuf(message).map(|p| p.payload().to_vec())
}

/// The `Display` text of an up-rust message error. Nothing is claimed of the text.
#[verifier::external_body]
fn outside_message_error_text(e: &up_rust::UMessageError) -> String {
    e.to_string()
}

/// A message payload: its bytes and their encoding.
pub struct UPayload {
    pub payload: Vec<u8>,
    pub format: UPayloadFormat,
}

/// Whether `p` is the payload that `UPayload::from_string(value)` creates: the packed bytes of
/// `value`, marked as protobuf wrapped in `Any`, which read back as `value`.
pub open spec fn is_string_payload(value: Seq<char>, p: UPayload) -> bool {
    &&& packed_string_value(value) == Some(p.payload@)
    &&& p.format == UPayloadFormat::UPAYLOAD_FORMAT_PROTOBUF_WRAPPED_IN_ANY
    &&& extracted_string_value(p.payload@, 1) == Some(value)
}

impl Clone for UPayload {
    fn clone(&self) -> (r: Self)
        ensures
            r.payload@ == self.payload@,
            r.format == self.format,
    {
        UPayload { payload: crate::umessage::copy_bytes(&self.payload), format: self.format }
    }
}

impl UPayload {
    /// Creates a payload holding `value` as a protobuf `StringValue` wrapped in `Any`.
    /// Succeeds on every text of fewer than 2^28 characters. Fails where the value cannot be
    /// encoded, with a plain exception whose text starts with `Failed to create payload: `.
    pub fn from_string(value: String) -> (r: Result<UPayload, ErrorReport>)
        ensures
            value@.len() < 0x1000_0000 ==> r is Ok,
            (r is Ok) == (packed_string_value(value@) is Some),
            r matches Ok(p) ==> is_string_payload(value@, p),
            r matches Err(e) ==> exists|t: Seq<char>|
                e@ == bare_report(ErrorClass::Plain, "Failed to create payload: "@ + t),
    {
        match outside_pack_string(&value) {
            Ok(bytes) => Ok(UPayload {
                payload: bytes,
                format: UPayloadFormat::UPAYLOAD_FORMAT_PROTOBUF_WRAPPED_IN_ANY,
            }),
            Err(e) => {
                let detail = outside_message_error_text(&e);
                let mut text = String::from_str("Failed to create payload: ");
                text.append(detail.as_str());
                let report = bare_error(ErrorClass::Plain, text);
                assert(report@ == bare_report(ErrorClass::Plain, "Failed to create payload: "@ + detail@));
                Err(report)
            },
        }
    }

    /// Creates a payload holding `data` as it is, marked as protobuf wrapped in `Any`.
    pub fn from_bytes(data: Vec<u8>) -> (r: UPayload)
        ensures
            r.payload@ == data@,
            r.format == UPayloadFormat::UPAYLOAD_FORMAT_PROTOBUF_WRAPPED_IN_ANY,
    {
        UPayload { payload: data, format: UPayloadFormat::UPAYLOAD_FORMAT_PROTOBUF_WRAPPED_IN_ANY }
    }
}

} // verus!
