//! Why a packet could not be decoded.

use vstd::prelude::*;

verus! {

/// The part of a packet that a decoder was reading.
#[derive(Clone, Copy, Debug, PartialEq, Eq, Structural)]
pub enum Field {
    OptionsStatus,
    MobileIdLength,
    MobileId,
    MobileIdType,
    AuthenticationWorld,
    Routing,
    Forwarding,
    ResponseRedirection,
    OptionsExtension,
    ServiceType,
    MessageType,
    SequenceNumber,
    UpdateTime,
    TimeOfFix,
    Latitude,
    Longitude,
    Altitude,
    Speed,
    Heading,
    Satellites,
    FixStatus,
    Carrier,
    Rssi,
    CommState,
    Hdop,
    Inputs,
    UnitStatus,
    EventIndex,
    EventCode,
    Accums,
    Append,
    AccumList,
}

/// The class of a decoding failure.
#[derive(Clone, Copy, Debug, PartialEq, Eq, Structural)]
pub enum DecodeErrorKind {
    /// The packet does not start with the options header marker.
    StructuralMismatch,
    /// An option is announced whose encoding this decoder does not know.
    UnsupportedOption,
    /// Fewer bytes remain than the field needs.
    Truncated,
    /// A byte is no code of the enumeration it stands for.
    InvalidEnumCode,
    /// The message type announces a body other than an event report.
    UnsupportedBody,
}

/// A decoding failure: its class, the field at which decoding stopped, the
/// offset of that field from the start of the decoder's input, and what was
/// expected there against what was found. For an unsupported option the
/// offset is that of the first optional field.
///
/// | kind                 | `expected`                 | `actual`             |
/// |----------------------|----------------------------|----------------------|
/// | `StructuralMismatch` | the marker byte            | the byte found       |
/// | `UnsupportedOption`  | 0, the flag clear          | 1, the flag set      |
/// | `Truncated`          | bytes the field needs      | bytes that remain    |
/// | `InvalidEnumCode`    | number of valid codes      | the code found       |
/// | `UnsupportedBody`    | the event report's code    | the code found       |
#[derive(Clone, Copy, Debug, PartialEq, Eq, Structural)]
pub struct DecodeError {
    pub kind: DecodeErrorKind,
    pub field: Field,
    pub offset: usize,
    pub expected: usize,
    pub actual: usize,
}

impl DecodeError {
    /// The same failure seen from a buffer in which the decoder's input
    /// starts `base` bytes in.
    pub open spec fn shifted(self, base: int) -> DecodeError {
        DecodeError { offset: (self.offset + base) as usize, ..self }
    }

    /// Moves the offset by `base` bytes: the failure as seen from an
    /// enclosing buffer.
    pub fn at(self, base: usize) -> (r: DecodeError)
        requires
            self.offset + base <= usize::MAX,
        ensures
            r == self.shifted(base as int),
    {
        DecodeError { offset: self.offset + base, ..self }
    }
}

/// The failure of a read of `expected` bytes at `offset` where only `actual`
/// bytes remain.
pub open spec fn truncated(field: Field, offset: int, expected: int, actual: int) -> DecodeError {
    DecodeError {
        kind: DecodeErrorKind::Truncated,
        field,
        offset: offset as usize,
        expected: expected as usize,
        actual: actual as usize,
    }
}

/// The failure on a byte `code` at `offset` that is none of the `valid`
/// codes of the enumeration read for `field`.
pub open spec fn invalid_code(field: Field, offset: int, valid: int, code: u8) -> DecodeError {
    DecodeError {
        kind: DecodeErrorKind::InvalidEnumCode,
        field,
        offset: offset as usize,
        expected: valid as usize,
        actual: code as usize,
    }
}

/// The failure on a first byte `found` at `offset` that is not the options
/// header marker `marker`.
pub open spec fn structural_mismatch(offset: int, marker: u8, found: u8) -> DecodeError {
    DecodeError {
        kind: DecodeErrorKind::StructuralMismatch,
        field: Field::OptionsStatus,
        offset: offset as usize,
        expected: marker as usize,
        actual: found as usize,
    }
}

/// The failure on an announced option `field` whose encoding is unknown;
/// `offset` is where the optional fields start.
pub open spec fn unsupported_option(field: Field, offset: int) -> DecodeError {
    DecodeError {
        kind: DecodeErrorKind::UnsupportedOption,
        field,
        offset: offset as usize,
        expected: 0,
        actual: 1,
    }
}

/// The failure on a message type with the byte `code` at `offset` that
/// announces another body than the one with the byte `supported`.
pub open spec fn unsupported_body(offset: int, supported: u8, code: u8) -> DecodeError {
    DecodeError {
        kind: DecodeErrorKind::UnsupportedBody,
        field: Field::MessageType,
        offset: offset as usize,
        expected: supported as usize,
        actual: code as usize,
    }
}

/// Whether `t` holds the first bytes of `s`, in order, and nothing else.
pub open spec fn is_prefix(t: Seq<u8>, s: Seq<u8>) -> bool {
    &&& t.len() <= s.len()
    &&& forall|i: int| 0 <= i < t.len() ==> #[trigger] t[i] == s[i]
}

/// Whether `r` is a failure of the kind `kind`.
pub open spec fn fails_as<T>(r: Result<T, DecodeError>, kind: DecodeErrorKind) -> bool {
    match r {
        Ok(_) => false,
        Err(e) => e.kind == kind,
    }
}

/// Whether `r` is a failure of the kind `Truncated`.
pub open spec fn is_truncated<T>(r: Result<T, DecodeError>) -> bool {
    fails_as(r, DecodeErrorKind::Truncated)
}

/// How a decoder treats a prefix `t` of a buffer in which it finds a value
/// that ends at `end`: where the prefix ends before `end`, the decoder fails
/// on it as truncated; where it reaches `end`, the decoder finds in it what
/// it finds in the buffer.
pub open spec fn cut_short<T>(
    t: Seq<u8>,
    whole: Result<(T, int), DecodeError>,
    cut: Result<(T, int), DecodeError>,
) -> bool {
    match whole {
        Ok((_, end)) => if t.len() < end {
            is_truncated(cut)
        } else {
            cut == whole
        },
        Err(_) => true,
    }
}

/// Whether a failure `e` on a buffer of `len` bytes lies within the buffer.
/// A truncated field starts in the buffer or at its end, the bytes that
/// remain from there on are all that the buffer holds, and they are fewer
/// than the field needs. Every other failure is at a byte of the buffer.
pub open spec fn within(e: DecodeError, len: int) -> bool {
    if e.kind == DecodeErrorKind::Truncated {
        e.offset + e.actual == len && e.actual < e.expected
    } else {
        e.offset < len
    }
}

/// A result with its value replaced by the value's view.
pub open spec fn viewed<T: View>(r: Result<T, DecodeError>) -> Result<T::V, DecodeError> {
    match r {
        Ok(v) => Ok(v@),
        Err(e) => Err(e),
    }
}

} // verus!
