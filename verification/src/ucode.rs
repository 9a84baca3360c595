use vstd::prelude::*;

verus! {

/// The status codes of uProtocol, as numbered in `uprotocol/v1/ucode.proto`.
#[derive(Clone, Copy, Debug, PartialEq, Eq, Structural)]
#[allow(non_camel_case_types)]
pub enum UCode {
    OK,
    CANCELLED,
    UNKNOWN,
    INVALID_ARGUMENT,
    DEADLINE_EXCEEDED,
    NOT_FOUND,
    ALREADY_EXISTS,
    PERMISSION_DENIED,
    UNAUTHENTICATED,
    RESOURCE_EXHAUSTED,
    FAILED_PRECONDITION,
    ABORTED,
    OUT_OF_RANGE,
    UNIMPLEMENTED,
    INTERNAL,
    UNAVAILABLE,
    DATA_LOSS,
}

impl UCode {
    /// The wire number of the code.
    pub open spec fn spec_value(self) -> i32 {
        match self {
            UCode::OK => 0,
            UCode::CANCELLED => 1,
            UCode::UNKNOWN => 2,
            UCode::INVALID_ARGUMENT => 3,
            UCode::DEADLINE_EXCEEDED => 4,
            UCode::NOT_FOUND => 5,
            UCode::ALREADY_EXISTS => 6,
            UCode::PERMISSION_DENIED => 7,
            UCode::UNAUTHENTICATED => 16,
            UCode::RESOURCE_EXHAUSTED => 8,
            UCode::FAILED_PRECONDITION => 9,
            UCode::ABORTED => 10,
            UCode::OUT_OF_RANGE => 11,
            UCode::UNIMPLEMENTED => 12,
            UCode::INTERNAL => 13,
            UCode::UNAVAILABLE => 14,
            UCode::DATA_LOSS => 15,
        }
    }

    /// The code with a given wire number, if there is one.
    pub open spec fn spec_from_i32(v: i32) -> Option<UCode> {
        if v == 0 { Some(UCode::OK) }
        else if v == 1 { Some(UCode::CANCELLED) }
        else if v == 2 { Some(UCode::UNKNOWN) }
        else if v == 3 { Some(UCode::INVALID_ARGUMENT) }
        else if v == 4 { Some(UCode::DEADLINE_EXCEEDED) }
        else if v == 5 { Some(UCode::NOT_FOUND) }
        else if v == 6 { Some(UCode::ALREADY_EXISTS) }
        else if v == 7 { Some(UCode::PERMISSION_DENIED) }
        else if v == 8 { Some(UCode::RESOURCE_EXHAUSTED) }
        else if v == 9 { Some(UCode::FAILED_PRECONDITION) }
        else if v == 10 { Some(UCode::ABORTED) }
        else if v == 11 { Some(UCode::OUT_OF_RANGE) }
        else if v == 12 { Some(UCode::UNIMPLEMENTED) }
        else if v == 13 { Some(UCode::INTERNAL) }
        else if v == 14 { Some(UCode::UNAVAILABLE) }
        else if v == 15 { Some(UCode::DATA_LOSS) }
        else if v == 16 { Some(UCode::UNAUTHENTICATED) }
        else { None }
    }

    /// The name under which the code is printed (its identifier in the protocol definition).
    pub open spec fn spec_name(self) -> Seq<char> {
        match self {
            UCode::OK => "OK"@,
            UCode::CANCELLED => "CANCELLED"@,
            UCode::UNKNOWN => "UNKNOWN"@,
            UCode::INVALID_ARGUMENT => "INVALID_ARGUMENT"@,
            UCode::DEADLINE_EXCEEDED => "DEADLINE_EXCEEDED"@,
            UCode::NOT_FOUND => "NOT_FOUND"@,
            UCode::ALREADY_EXISTS => "ALREADY_EXISTS"@,
            UCode::PERMISSION_DENIED => "PERMISSION_DENIED"@,
            UCode::UNAUTHENTICATED => "UNAUTHENTICATED"@,
            UCode::RESOURCE_EXHAUSTED => "RESOURCE_EXHAUSTED"@,
            UCode::FAILED_PRECONDITION => "FAILED_PRECONDITION"@,
            UCode::ABORTED => "ABORTED"@,
            UCode::OUT_OF_RANGE => "OUT_OF_RANGE"@,
            UCode::UNIMPLEMENTED => "UNIMPLEMENTED"@,
            UCode::INTERNAL => "INTERNAL"@,
            UCode::UNAVAILABLE => "UNAVAILABLE"@,
            UCode::DATA_LOSS => "DATA_LOSS"@,
        }
    }

    /// Returns the wire number of the code.
    pub fn value(&self) -> (r: i32)
        ensures
            r == self.spec_value(),
    {
        match self {
            UCode::OK => 0,
            UCode::CANCELLED => 1,
            UCode::UNKNOWN => 2,
            UCode::INVALID_ARGUMENT => 3,
            UCode::DEADLINE_EXCEEDED => 4,
            UCode::NOT_FOUND => 5,
            UCode::ALREADY_EXISTS => 6,
            UCode::PERMISSION_DENIED => 7,
            UCode::UNAUTHENTICATED => 16,
            UCode::RESOURCE_EXHAUSTED => 8,
            UCode::FAILED_PRECONDITION => 9,
            UCode::ABORTED => 10,
            UCode::OUT_OF_RANGE => 11,
            UCode::UNIMPLEMENTED => 12,
            UCode::INTERNAL => 13,
            UCode::UNAVAILABLE => 14,
            UCode::DATA_LOSS => 15,
        }
    }

    /// Returns the code with wire number `v`, or `None` where `v` numbers no code.
    pub fn from_i32(v: i32) -> (r: Option<UCode>)
        ensures
            r == UCode::spec_from_i32(v),
    {
        if v == 0 { Some(UCode::OK) }
        else if v == 1 { Some(UCode::CANCELLED) }
        else if v == 2 { Some(UCode::UNKNOWN) }
        else if v == 3 { Some(UCode::INVALID_ARGUMENT) }
        else if v == 4 { Some(UCode::DEADLINE_EXCEEDED) }
        else if v == 5 { Some(UCode::NOT_FOUND) }
        else if v == 6 { Some(UCode::ALREADY_EXISTS) }
        else if v == 7 { Some(UCode::PERMISSION_DENIED) }
        else if v == 8 { Some(UCode::RESOURCE_EXHAUSTED) }
        else if v == 9 { Some(UCode::FAILED_PRECONDITION) }
        else if v == 10 { Some(UCode::ABORTED) }
        else if v == 11 { Some(UCode::OUT_OF_RANGE) }
        else if v == 12 { Some(UCode::UNIMPLEMENTED) }
        else if v == 13 { Some(UCode::INTERNAL) }
        else if v == 14 { Some(UCode::UNAVAILABLE) }
        else if v == 15 { Some(UCode::DATA_LOSS) }
        else if v == 16 { Some(UCode::UNAUTHENTICATED) }
        else { None }
    }

    /// Returns the printed name of the code, such as `NOT_FOUND`.
    pub fn name(&self) -> (r: String)
        ensures
            r@ == self.spec_name(),
    {
        match self {
            UCode::OK => String::from_str("OK"),
            UCode::CANCELLED => String::from_str("CANCELLED"),
            UCode::UNKNOWN => String::from_str("UNKNOWN"),
            UCode::INVALID_ARGUMENT => String::from_str("INVALID_ARGUMENT"),
            UCode::DEADLINE_EXCEEDED => String::from_str("DEADLINE_EXCEEDED"),
            UCode::NOT_FOUND => String::from_str("NOT_FOUND"),
            UCode::ALREADY_EXISTS => String::from_str("ALREADY_EXISTS"),
            UCode::PERMISSION_DENIED => String::from_str("PERMISSION_DENIED"),
            UCode::UNAUTHENTICATED => String::from_str("UNAUTHENTICATED"),
            UCode::RESOURCE_EXHAUSTED => String::from_str("RESOURCE_EXHAUSTED"),
            UCode::FAILED_PRECONDITION => String::from_str("FAILED_PRECONDITION"),
            UCode::ABORTED => String::from_str("ABORTED"),
            UCode::OUT_OF_RANGE => String::from_str("OUT_OF_RANGE"),
            UCode::UNIMPLEMENTED => String::from_str("UNIMPLEMENTED"),
            UCode::INTERNAL => String::from_str("INTERNAL"),
            UCode::UNAVAILABLE => String::from_str("UNAVAILABLE"),
            UCode::DATA_LOSS => String::from_str("DATA_LOSS"),
        }
    }
}

/// The status codes carry the wire numbers and names of `uprotocol/v1/ucode.proto`: each
/// number from 0 to 16 reads as the code of that number there, each code has that number and
/// prints as its identifier there, and no other number reads as a code.
pub proof fn ucode_protocol_table(v: i32)
    ensures
        UCode::spec_from_i32(0) == Some(UCode::OK),
        UCode::spec_from_i32(1) == Some(UCode::CANCELLED),
        UCode::spec_from_i32(2) == Some(UCode::UNKNOWN),
        UCode::spec_from_i32(3) == Some(UCode::INVALID_ARGUMENT),
        UCode::spec_from_i32(4) == Some(UCode::DEADLINE_EXCEEDED),
        UCode::spec_from_i32(5) == Some(UCode::NOT_FOUND),
        UCode::spec_from_i32(6) == Some(UCode::ALREADY_EXISTS),
        UCode::spec_from_i32(7) == Some(UCode::PERMISSION_DENIED),
        UCode::spec_from_i32(8) == Some(UCode::RESOURCE_EXHAUSTED),
        UCode::spec_from_i32(9) == Some(UCode::FAILED_PRECONDITION),
        UCode::spec_from_i32(10) == Some(UCode::ABORTED),
        UCode::spec_from_i32(11) == Some(UCode::OUT_OF_RANGE),
        UCode::spec_from_i32(12) == Some(UCode::UNIMPLEMENTED),
        UCode::spec_from_i32(13) == Some(UCode::INTERNAL),
        UCode::spec_from_i32(14) == Some(UCode::UNAVAILABLE),
        UCode::spec_from_i32(15) == Some(UCode::DATA_LOSS),
        UCode::spec_from_i32(16) == Some(UCode::UNAUTHENTICATED),
        UCode::OK.spec_value() == 0,
        UCode::CANCELLED.spec_value() == 1,
        UCode::UNKNOWN.spec_value() == 2,
        UCode::INVALID_ARGUMENT.spec_value() == 3,
        UCode::DEADLINE_EXCEEDED.spec_value() == 4,
        UCode::NOT_FOUND.spec_value() == 5,
        UCode::ALREADY_EXISTS.spec_value() == 6,
        UCode::PERMISSION_DENIED.spec_value() == 7,
        UCode::RESOURCE_EXHAUSTED.spec_value() == 8,
        UCode::FAILED_PRECONDITION.spec_value() == 9,
        UCode::ABORTED.spec_value() == 10,
        UCode::OUT_OF_RANGE.spec_value() == 11,
        UCode::UNIMPLEMENTED.spec_value() == 12,
        UCode::INTERNAL.spec_value() == 13,
        UCode::UNAVAILABLE.spec_value() == 14,
        UCode::DATA_LOSS.spec_value() == 15,
        UCode::UNAUTHENTICATED.spec_value() == 16,
        UCode::OK.spec_name() == "OK"@,
        UCode::CANCELLED.spec_name() == "CANCELLED"@,
        UCode::UNKNOWN.spec_name() == "UNKNOWN"@,
        UCode::INVALID_ARGUMENT.spec_name() == "INVALID_ARGUMENT"@,
        UCode::DEADLINE_EXCEEDED.spec_name() == "DEADLINE_EXCEEDED"@,
        UCode::NOT_FOUND.spec_name() == "NOT_FOUND"@,
        UCode::ALREADY_EXISTS.spec_name() == "ALREADY_EXISTS"@,
        UCode::PERMISSION_DENIED.spec_name() == "PERMISSION_DENIED"@,
        UCode::RESOURCE_EXHAUSTED.spec_name() == "RESOURCE_EXHAUSTED"@,
        UCode::FAILED_PRECONDITION.spec_name() == "FAILED_PRECONDITION"@,
        UCode::ABORTED.spec_name() == "ABORTED"@,
        UCode::OUT_OF_RANGE.spec_name() == "OUT_OF_RANGE"@,
        UCode::UNIMPLEMENTED.spec_name() == "UNIMPLEMENTED"@,
        UCode::INTERNAL.spec_name() == "INTERNAL"@,
        UCode::UNAVAILABLE.spec_name() == "UNAVAILABLE"@,
        UCode::DATA_LOSS.spec_name() == "DATA_LOSS"@,
        UCode::UNAUTHENTICATED.spec_name() == "UNAUTHENTICATED"@,
        v < 0 || v > 16 ==> UCode::spec_from_i32(v) is None,
{
}

/// Distinct status codes print distinctly, so the printed code of a status names its code.
pub proof fn ucode_names_distinct(c1: UCode, c2: UCode)
    ensures
        c1.spec_name() == c2.spec_name() ==> c1 == c2,
{
    reveal_strlit("OK");
    reveal_strlit("CANCELLED");
    reveal_strlit("UNKNOWN");
    reveal_strlit("INVALID_ARGUMENT");
    reveal_strlit("DEADLINE_EXCEEDED");
    reveal_strlit("NOT_FOUND");
    reveal_strlit("ALREADY_EXISTS");
    reveal_strlit("PERMISSION_DENIED");
    reveal_strlit("RESOURCE_EXHAUSTED");
    reveal_strlit("FAILED_PRECONDITION");
    reveal_strlit("ABORTED");
    reveal_strlit("OUT_OF_RANGE");
    reveal_strlit("UNIMPLEMENTED");
    reveal_strlit("INTERNAL");
    reveal_strlit("UNAVAILABLE");
    reveal_strlit("DATA_LOSS");
    reveal_strlit("UNAUTHENTICATED");
    if c1.spec_name() == c2.spec_name() && c1 != c2 {
        let a = c1.spec_name();
        let b = c2.spec_name();
        assert(a.len() == b.len());
        assert(a[0] == b[0]);
    }
}

/// Reading a code back from its wire number gives the same code, and a number
/// that reads as a code is that code's number.
pub proof fn ucode_number_round_trip(c: UCode, v: i32)
    ensures
        UCode::spec_from_i32(c.spec_value()) == Some(c),
        UCode::spec_from_i32(v) matches Some(d) ==> d.spec_value() == v,
{
}

/// A detail attached to a status: a protobuf `Any`, its type URL and its encoded value.
pub struct StatusDetail {
    pub type_url: String,
    pub value: Vec<u8>,
}

/// The mathematical value of a [`StatusDetail`]: type URL and encoded value.
pub type StatusDetailView = (Seq<char>, Seq<u8>);

impl View for StatusDetail {
    type V = StatusDetailView;

    open spec fn view(&self) -> StatusDetailView {
        (self.type_url@, self.value@)
    }
}

/// A uProtocol status: a code (kept as its wire number, which may name no code),
/// an optional message, and attached details.
pub struct UStatus {
    pub code: i32,
    pub message: Option<String>,
    pub details: Vec<StatusDetail>,
}

impl UStatus {
    /// The code of the status; a wire number that names no code reads as `OK`.
    pub open spec fn spec_code(&self) -> UCode {
        match UCode::spec_from_i32(self.code) {
            Some(c) => c,
            None => UCode::OK,
        }
    }

    /// The message of the status; an absent message reads as the empty text.
    pub open spec fn spec_message(&self) -> Seq<char> {
        match self.message {
            Some(m) => m@,
            None => Seq::empty(),
        }
    }

    /// The details of the status, as values.
    pub open spec fn spec_details(&self) -> Seq<StatusDetailView> {
        self.details@.map_values(|d: StatusDetail| d@)
    }

    /// Returns the status code (`OK` where the stored number names no code).
    pub fn get_code(&self) -> (r: UCode)
        ensures
            r == self.spec_code(),
    {
        match UCode::from_i32(self.code) {
            Some(c) => c,
            None => UCode::OK,
        }
    }

    /// Returns the status message (empty where none is set).
    pub fn get_message(&self) -> (r: String)
        ensures
            r@ == self.spec_message(),
    {
        match &self.message {
            Some(m) => m.clone(),
            None => String::new(),
        }
    }
}

/// A status reads as the code its number names, and as `OK` where the number names none; its
/// message reads as the one it carries, and as the empty text where it carries none.
pub proof fn status_reads_its_fields(s: UStatus)
    ensures
        UCode::spec_from_i32(s.code) matches Some(c) ==> s.spec_code() == c,
        UCode::spec_from_i32(s.code) is None ==> s.spec_code() == UCode::OK,
        s.message matches Some(m) ==> s.spec_message() == m@,
        s.message is None ==> s.spec_message().len() == 0,
{
}

} // verus!
