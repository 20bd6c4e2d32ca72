//! The options header: the options byte and the optional fields that it
//! announces.

use vstd::prelude::*;
use crate::bits::{bit_at, BitReader};
use crate::cursor::Cursor;
use crate::error::{
    cut_short, fails_as, invalid_code, is_prefix, structural_mismatch, truncated,
    unsupported_option, viewed, DecodeError, DecodeErrorKind, Field,
};
use crate::text::{hex, hex_string};

verus! {

/// The options byte of every packet that this decoder accepts.
pub const OPTIONS_HEADER: u8 = 0x83;

/// What kind of identifier the mobile ID is.
#[derive(Clone, Copy, Debug, PartialEq, Eq, Structural)]
pub enum MobileIDType {
    /// No mobile ID
    Off,
    /// Electronic Serial Number (ESN) of the unit
    Esn,
    /// International Mobile Equipment Identifier (IMEI) or Electronic
    /// Identifier (EID) of the wireless modem
    Equipment,
    /// International Mobile Subscriber Identifier (IMSI) of the SIM card
    /// (GSM/GPRS devices only)
    Subscriber,
    /// User defined mobile ID
    Defined,
    /// Phone number of the mobile, if available
    PhoneNumber,
    /// The current IP address of the unit
    IpAddress,
    /// CDMA Mobile Equipment ID (MEID) or International Mobile Equipment
    /// Identifier (IMEI) of the wireless modem
    Cdma,
}

impl MobileIDType {
    /// The mobile ID type that the byte `code` stands for, if any.
    pub open spec fn of_code(code: u8) -> Option<MobileIDType> {
        if code == 0 {
            Some(MobileIDType::Off)
        } else if code == 1 {
            Some(MobileIDType::Esn)
        } else if code == 2 {
            Some(MobileIDType::Equipment)
        } else if code == 3 {
            Some(MobileIDType::Subscriber)
        } else if code == 4 {
            Some(MobileIDType::Defined)
        } else if code == 5 {
            Some(MobileIDType::PhoneNumber)
        } else if code == 6 {
            Some(MobileIDType::IpAddress)
        } else if code == 7 {
            Some(MobileIDType::Cdma)
        } else {
            None
        }
    }

    /// The name of this mobile ID type as text.
    pub open spec fn label(self) -> Seq<char> {
        match self {
            MobileIDType::Off => "MobileIDType::Off"@,
            MobileIDType::Esn => "MobileIDType::Esn"@,
            MobileIDType::Equipment => "MobileIDType::Equipament"@,
            MobileIDType::Subscriber => "MobileIDType::Subscriber"@,
            MobileIDType::Defined => "MobileIDType::Defined"@,
            MobileIDType::PhoneNumber => "MobileIDType::PhoneNumber"@,
            MobileIDType::IpAddress => "MobileIDType::IpAddress"@,
            MobileIDType::Cdma => "MobileIDType::Cdma"@,
        }
    }

    /// What the two bytes at `at` in `s` decode to: the mobile ID type and the
    /// position after it, or why there is none. The field is a reserved
    /// byte, which may hold anything, and the byte of the type's code.
    pub open spec fn decoded_at(s: Seq<u8>, at: int) -> Result<(MobileIDType, int), DecodeError> {
        if s.len() - at < 2 {
            Err(truncated(Field::MobileIdType, at, 2, s.len() - at))
        } else {
            match MobileIDType::of_code(s[at + 1]) {
                Some(v) => Ok((v, at + 2)),
                None => Err(invalid_code(Field::MobileIdType, at + 1, 8, s[at + 1])),
            }
        }
    }

    /// The mobile ID type that the byte `code` stands for, if any.
    pub fn from_code(code: u8) -> (r: Option<MobileIDType>)
        ensures
            r == MobileIDType::of_code(code),
    {
        match code {
            0 => Some(MobileIDType::Off),
            1 => Some(MobileIDType::Esn),
            2 => Some(MobileIDType::Equipment),
            3 => Some(MobileIDType::Subscriber),
            4 => Some(MobileIDType::Defined),
            5 => Some(MobileIDType::PhoneNumber),
            6 => Some(MobileIDType::IpAddress),
            7 => Some(MobileIDType::Cdma),
            _ => None,
        }
    }

    /// The byte that stands for this mobile ID type.
    pub fn code(&self) -> (r: u8)
        ensures
            MobileIDType::of_code(r) == Some(*self),
    {
        match self {
            MobileIDType::Off => 0,
            MobileIDType::Esn => 1,
            MobileIDType::Equipment => 2,
            MobileIDType::Subscriber => 3,
            MobileIDType::Defined => 4,
            MobileIDType::PhoneNumber => 5,
            MobileIDType::IpAddress => 6,
            MobileIDType::Cdma => 7,
        }
    }

    /// The name of this mobile ID type as text.
    pub fn to_string(&self) -> (r: String)
        ensures
            r@ == self.label(),
    {
        let name = match self {
            MobileIDType::Off => "MobileIDType::Off",
            MobileIDType::Esn => "MobileIDType::Esn",
            MobileIDType::Equipment => "MobileIDType::Equipament",
            MobileIDType::Subscriber => "MobileIDType::Subscriber",
            MobileIDType::Defined => "MobileIDType::Defined",
            MobileIDType::PhoneNumber => "MobileIDType::PhoneNumber",
            MobileIDType::IpAddress => "MobileIDType::IpAddress",
            MobileIDType::Cdma => "MobileIDType::Cdma",
        };
        name.to_owned()
    }

    /// Decodes a mobile ID type from the two bytes at the cursor.
    pub fn read(c: &mut Cursor) -> (r: Result<MobileIDType, DecodeError>)
        ensures
            final(c).decodes(
                *old(c),
                r,
                MobileIDType::decoded_at(old(c).bytes(), old(c).position()),
            ),
    {
        let at = c.offset();
        let left = c.len();
        if left < 2 {
            return Err(
                DecodeError {
                    kind: DecodeErrorKind::Truncated,
                    field: Field::MobileIdType,
                    offset: at,
                    expected: 2,
                    actual: left,
                },
            );
        }
        let _ = c.read_u8(Field::MobileIdType)?;
        let code = c.read_u8(Field::MobileIdType)?;
        match MobileIDType::from_code(code) {
            Some(v) => Ok(v),
            None => Err(
                DecodeError {
                    kind: DecodeErrorKind::InvalidEnumCode,
                    field: Field::MobileIdType,
                    offset: at + 1,
                    expected: 8,
                    actual: code as usize,
                },
            ),
        }
    }

    /// Decodes a mobile ID type from the first two bytes of `input`, and
    /// hands out the bytes after them.
    pub fn parse<'a>(input: &'a [u8]) -> (r: Result<(&'a [u8], MobileIDType), DecodeError>)
        ensures
            match (r, MobileIDType::decoded_at(input@, 0)) {
                (Ok((rest, v)), Ok((value, end))) => v == value && 0 <= end <= input@.len()
                    && rest@ == input@.skip(end),
                (Err(e), Err(failure)) => e == failure,
                _ => false,
            },
    {
        let mut c = Cursor::new(input);
        let v = MobileIDType::read(&mut c)?;
        Ok((c.remaining(), v))
    }
}

/// The identifier of the sending unit: the bytes as they stand in the
/// packet, borrowed from it.
#[derive(Clone, Copy, Debug, PartialEq, Eq)]
pub struct MobileID<'a>(&'a [u8]);

impl<'a> View for MobileID<'a> {
    type V = Seq<u8>;

    closed spec fn view(&self) -> Seq<u8> {
        self.0@
    }
}

impl<'a> MobileID<'a> {
    /// What the bytes from `at` on in `s` decode to: the bytes of the mobile
    /// ID and the position after them, or why there are none. The field is
    /// one byte that holds a length, and that many bytes.
    pub open spec fn decoded_at(s: Seq<u8>, at: int) -> Result<(Seq<u8>, int), DecodeError> {
        if s.len() - at < 1 {
            Err(truncated(Field::MobileIdLength, at, 1, s.len() - at))
        } else if s.len() - (at + 1) < s[at] {
            Err(truncated(Field::MobileId, at + 1, s[at] as int, s.len() - (at + 1)))
        } else {
            Ok((s.subrange(at + 1, at + 1 + s[at]), at + 1 + s[at]))
        }
    }

    /// The number of bytes of the identifier.
    pub fn len(&self) -> (n: usize)
        ensures
            n == self@.len(),
    {
        self.0.len()
    }

    /// Whether the identifier has no bytes.
    pub fn is_empty(&self) -> (r: bool)
        ensures
            r <==> self@.len() == 0,
    {
        self.len() == 0
    }

    /// The bytes of the identifier.
    pub fn as_bytes(&self) -> (r: &'a [u8])
        ensures
            r@ == self@,
    {
        self.0
    }

    /// The identifier in hexadecimal, two lower-case digits to the byte.
    pub fn to_string(&self) -> (r: String)
        ensures
            r@ == hex(self@),
    {
        hex_string(self.0)
    }

    /// Decodes a mobile ID from the bytes at the cursor.
    pub fn read(c: &mut Cursor<'a>) -> (r: Result<MobileID<'a>, DecodeError>)
        ensures
            final(c).decodes(
                *old(c),
                viewed(r),
                MobileID::decoded_at(old(c).bytes(), old(c).position()),
            ),
    {
        let count = c.read_u8(Field::MobileIdLength)?;
        let id = c.read_bytes(count, Field::MobileId)?;
        Ok(MobileID(id))
    }

    /// Decodes a mobile ID from the start of `input`, and hands out the
    /// bytes after it.
    pub fn parse(input: &'a [u8]) -> (r: Result<(&'a [u8], MobileID<'a>), DecodeError>)
        ensures
            match (r, MobileID::decoded_at(input@, 0)) {
                (Ok((rest, v)), Ok((value, end))) => v@ == value && 0 <= end <= input@.len()
                    && rest@ == input@.skip(end),
                (Err(e), Err(failure)) => e == failure,
                _ => false,
            },
    {
        let mut c = Cursor::new(input);
        let v = MobileID::read(&mut c)?;
        Ok((c.remaining(), v))
    }
}

/// The flags of the options byte: which optional fields follow it.
///
/// The byte is read from bit 7 down, and the flags come out in the reverse
/// order of the fields: `is_always_set` is bit 7 and `is_mobile_id` is bit 0.
/// Bits 2 to 6 announce the options whose encoding is not defined here.
#[derive(Clone, Copy, Debug, PartialEq, Eq, Structural)]
pub struct OptionsStatus {
    /// A mobile ID follows
    pub is_mobile_id: bool,
    /// A mobile ID type follows
    pub is_mobile_id_type: bool,
    /// An authentication word follows
    pub is_authentication_world: bool,
    /// A routing field follows
    pub is_routing: bool,
    /// A forwarding field follows
    pub is_forwarding: bool,
    /// A response redirection field follows
    pub is_response_redirection: bool,
    /// An options extension follows
    pub is_options_extension: bool,
    /// Marks the byte as an options header
    pub is_always_set: bool,
}

impl OptionsStatus {
    /// The flags that the byte `b` holds.
    pub open spec fn of_byte(b: u8) -> OptionsStatus {
        OptionsStatus {
            is_mobile_id: bit_at(b, 0),
            is_mobile_id_type: bit_at(b, 1),
            is_authentication_world: bit_at(b, 2),
            is_routing: bit_at(b, 3),
            is_forwarding: bit_at(b, 4),
            is_response_redirection: bit_at(b, 5),
            is_options_extension: bit_at(b, 6),
            is_always_set: bit_at(b, 7),
        }
    }

    /// The first announced option whose encoding is not defined, if there
    /// is one.
    pub open spec fn unsupported(self) -> Option<Field> {
        if self.is_authentication_world {
            Some(Field::AuthenticationWorld)
        } else if self.is_routing {
            Some(Field::Routing)
        } else if self.is_forwarding {
            Some(Field::Forwarding)
        } else if self.is_response_redirection {
            Some(Field::ResponseRedirection)
        } else if self.is_options_extension {
            Some(Field::OptionsExtension)
        } else {
            None
        }
    }

    /// What the byte at `at` in `s` decodes to: the flags and the position
    /// after them, or why there are none.
    pub open spec fn decoded_at(s: Seq<u8>, at: int) -> Result<(OptionsStatus, int), DecodeError> {
        if s.len() - at < 1 {
            Err(truncated(Field::OptionsStatus, at, 1, s.len() - at))
        } else {
            Ok((OptionsStatus::of_byte(s[at]), at + 1))
        }
    }

    /// The flags that the byte `b` holds.
    pub fn from_byte(b: u8) -> (r: OptionsStatus)
        ensures
            r == OptionsStatus::of_byte(b),
    {
        let mut bits = BitReader::new(b);
        let is_always_set = bits.flag();
        let is_options_extension = bits.flag();
        let is_response_redirection = bits.flag();
        let is_forwarding = bits.flag();
        let is_routing = bits.flag();
        let is_authentication_world = bits.flag();
        let is_mobile_id_type = bits.flag();
        let is_mobile_id = bits.flag();
        OptionsStatus {
            is_mobile_id,
            is_mobile_id_type,
            is_authentication_world,
            is_routing,
            is_forwarding,
            is_response_redirection,
            is_options_extension,
            is_always_set,
        }
    }

    /// The first announced option whose encoding is not defined, if there
    /// is one.
    pub fn first_unsupported(&self) -> (r: Option<Field>)
        ensures
            r == self.unsupported(),
    {
        if self.is_authentication_world {
            Some(Field::AuthenticationWorld)
        } else if self.is_routing {
            Some(Field::Routing)
        } else if self.is_forwarding {
            Some(Field::Forwarding)
        } else if self.is_response_redirection {
            Some(Field::ResponseRedirection)
        } else if self.is_options_extension {
            Some(Field::OptionsExtension)
        } else {
            None
        }
    }

    /// Decodes the flags from the byte at the cursor.
    pub fn read(c: &mut Cursor) -> (r: Result<OptionsStatus, DecodeError>)
        ensures
            final(c).decodes(
                *old(c),
                r,
                OptionsStatus::decoded_at(old(c).bytes(), old(c).position()),
            ),
    {
        let b = c.read_u8(Field::OptionsStatus)?;
        Ok(OptionsStatus::from_byte(b))
    }

    /// Whether a mobile ID follows.
    pub fn is_mobile_id(&self) -> (r: bool)
        ensures
            r == self.is_mobile_id,
    {
        self.is_mobile_id
    }

    /// Whether a mobile ID type follows.
    pub fn is_mobile_id_type(&self) -> (r: bool)
        ensures
            r == self.is_mobile_id_type,
    {
        self.is_mobile_id_type
    }

    /// Whether an authentication word follows.
    pub fn is_authentication_world(&self) -> (r: bool)
        ensures
            r == self.is_authentication_world,
    {
        self.is_authentication_world
    }

    /// Whether a routing field follows.
    pub fn is_routing(&self) -> (r: bool)
        ensures
            r == self.is_routing,
    {
        self.is_routing
    }

    /// Whether a forwarding field follows.
    pub fn is_forwarding(&self) -> (r: bool)
        ensures
            r == self.is_forwarding,
    {
        self.is_forwarding
    }

    /// Whether a response redirection field follows.
    pub fn is_response_redirection(&self) -> (r: bool)
        ensures
            r == self.is_response_redirection,
    {
        self.is_response_redirection
    }

    /// Whether an options extension follows.
    pub fn is_options_extension(&self) -> (r: bool)
        ensures
            r == self.is_options_extension,
    {
        self.is_options_extension
    }

    /// Whether the bit is set that marks an options byte.
    pub fn is_always_set(&self) -> (r: bool)
        ensures
            r == self.is_always_set,
    {
        self.is_always_set
    }

}

/// Whether `input` is the options byte that this decoder accepts.
pub fn is_options_header(input: u8) -> (r: bool)
    ensures
        r <==> input == OPTIONS_HEADER,
{
    input == OPTIONS_HEADER
}

/// Decodes the flags from the first byte of `input`, and hands out the bytes
/// after it.
pub fn parse_options_status<'a>(input: &'a [u8]) -> (r: Result<
    (&'a [u8], OptionsStatus),
    DecodeError,
>)
    ensures
        match (r, OptionsStatus::decoded_at(input@, 0)) {
            (Ok((rest, v)), Ok((value, end))) => v == value && 0 <= end <= input@.len() && rest@
                == input@.skip(end),
            (Err(e), Err(failure)) => e == failure,
            _ => false,
        },
{
    let mut c = Cursor::new(input);
    let v = OptionsStatus::read(&mut c)?;
    Ok((c.remaining(), v))
}

/// The optional fields in front of the message header. A field is `None`
/// where the options byte does not announce it.
#[derive(Clone, Copy, Debug, PartialEq, Eq)]
pub struct OptionsHeader<'a> {
    /// Mobile ID
    pub mobile_id: Option<MobileID<'a>>,
    /// Mobile ID type
    pub mobile_id_type: Option<MobileIDType>,
    /// Authentication word
    pub authentication_world: Option<bool>,
    /// Routing
    pub routing: Option<bool>,
    /// Forwarding
    pub forwarding: Option<bool>,
    /// Response redirection
    pub response_redirection: Option<bool>,
    /// Options extension
    pub options_extension: Option<bool>,
}

/// An options header as plain values: the mobile ID as its bytes.
pub struct OptionsHeaderView {
    pub mobile_id: Option<Seq<u8>>,
    pub mobile_id_type: Option<MobileIDType>,
    pub authentication_world: Option<bool>,
    pub routing: Option<bool>,
    pub forwarding: Option<bool>,
    pub response_redirection: Option<bool>,
    pub options_extension: Option<bool>,
}

impl<'a> View for OptionsHeader<'a> {
    type V = OptionsHeaderView;

    open spec fn view(&self) -> OptionsHeaderView {
        OptionsHeaderView {
            mobile_id: match self.mobile_id {
                Some(id) => Some(id@),
                None => None,
            },
            mobile_id_type: self.mobile_id_type,
            authentication_world: self.authentication_world,
            routing: self.routing,
            forwarding: self.forwarding,
            response_redirection: self.response_redirection,
            options_extension: self.options_extension,
        }
    }
}

impl<'a> OptionsHeader<'a> {
    /// What the optional fields from `at` on in `s` decode to under the
    /// flags `status`: the header and the position after it, or the first
    /// failure.
    ///
    /// An announced option whose encoding is not defined fails before any
    /// field is read. Otherwise the mobile ID is decoded if it is announced,
    /// then the mobile ID type if it is announced.
    pub open spec fn fields_at(s: Seq<u8>, at: int, status: OptionsStatus) -> Result<
        (OptionsHeaderView, int),
        DecodeError,
    > {
        if let Some(field) = status.unsupported() {
            Err(unsupported_option(field, at))
        } else {
            let id = if status.is_mobile_id {
                match MobileID::decoded_at(s, at) {
                    Ok((v, end)) => Ok((Some(v), end)),
                    Err(e) => Err(e),
                }
            } else {
                Ok((None, at))
            };
            match id {
                Err(e) => Err(e),
                Ok((mobile_id, after_id)) => {
                    let id_type = if status.is_mobile_id_type {
                        match MobileIDType::decoded_at(s, after_id) {
                            Ok((v, end)) => Ok((Some(v), end)),
                            Err(e) => Err(e),
                        }
                    } else {
                        Ok((None, after_id))
                    };
                    match id_type {
                        Err(e) => Err(e),
                        Ok((mobile_id_type, end)) => Ok(
                            (
                                OptionsHeaderView {
                                    mobile_id,
                                    mobile_id_type,
                                    authentication_world: None,
                                    routing: None,
                                    forwarding: None,
                                    response_redirection: None,
                                    options_extension: None,
                                },
                                end,
                            ),
                        ),
                    }
                },
            }
        }
    }

    /// What the bytes from `at` on in `s` decode to: the options header and
    /// the position after it, or the first failure.
    ///
    /// The byte at `at` is the options byte. It must be the marker
    /// `OPTIONS_HEADER`, and its bits are the flags under which the fields
    /// after it are decoded.
    pub open spec fn decoded_at(s: Seq<u8>, at: int) -> Result<
        (OptionsHeaderView, int),
        DecodeError,
    > {
        if s.len() - at < 1 {
            Err(truncated(Field::OptionsStatus, at, 1, s.len() - at))
        } else if s[at] != OPTIONS_HEADER {
            Err(structural_mismatch(at, OPTIONS_HEADER, s[at]))
        } else {
            OptionsHeader::fields_at(s, at + 1, OptionsStatus::of_byte(s[at]))
        }
    }

    /// The marker announces a mobile ID and a mobile ID type, and no other
    /// field.
    pub proof fn lemma_marker_flags()
        ensures
            OptionsStatus::of_byte(OPTIONS_HEADER) == (OptionsStatus {
                is_mobile_id: true,
                is_mobile_id_type: true,
                is_authentication_world: false,
                is_routing: false,
                is_forwarding: false,
                is_response_redirection: false,
                is_options_extension: false,
                is_always_set: true,
            }),
    {
        reveal(bit_at);
    }

    /// Where the first byte at `at` is not the marker, the options header
    /// fails as a structural mismatch, whatever follows the byte.
    pub proof fn lemma_wrong_marker(s: Seq<u8>, at: int)
        requires
            0 <= at < s.len(),
            s[at] != OPTIONS_HEADER,
        ensures
            OptionsHeader::decoded_at(s, at) == Err::<(OptionsHeaderView, int), DecodeError>(
                structural_mismatch(at, OPTIONS_HEADER, s[at]),
            ),
    {
    }

    /// Under flags that announce an authentication word, a routing, a
    /// forwarding, a response redirection or an options extension, the
    /// optional fields fail as an unsupported option, whatever the bytes.
    pub proof fn lemma_unsupported_option(s: Seq<u8>, at: int, status: OptionsStatus)
        requires
            status.is_authentication_world || status.is_routing || status.is_forwarding
                || status.is_response_redirection || status.is_options_extension,
        ensures
            status.unsupported() is Some,
            OptionsHeader::fields_at(s, at, status) == Err::<(OptionsHeaderView, int), DecodeError>(
                unsupported_option(status.unsupported().unwrap(), at),
            ),
    {
    }

    /// An options byte with one of the bits 2 to 6 set announces an option
    /// whose encoding is not defined: under its flags the optional fields
    /// fail as an unsupported option, whatever the bytes.
    pub proof fn lemma_unsupported_bit(s: Seq<u8>, at: int, options: u8, index: u8)
        requires
            2 <= index <= 6,
            bit_at(options, index),
        ensures
            fails_as(
                OptionsHeader::fields_at(s, at, OptionsStatus::of_byte(options)),
                DecodeErrorKind::UnsupportedOption,
            ),
    {
    }

    /// An options header that decodes ends within the buffer, after the
    /// options byte, the length byte and the bytes of the mobile ID, and the
    /// two bytes of the mobile ID type.
    pub proof fn lemma_end(s: Seq<u8>, at: int)
        requires
            0 <= at,
            OptionsHeader::decoded_at(s, at) is Ok,
        ensures
            ({
                let (v, end) = OptionsHeader::decoded_at(s, at).unwrap();
                &&& v.mobile_id is Some
                &&& v.mobile_id_type is Some
                &&& end == at + 4 + v.mobile_id.unwrap().len()
                &&& end <= s.len()
            }),
    {
        OptionsHeader::lemma_marker_flags();
    }

    /// Of a buffer in which an options header stands at `at`, a prefix that
    /// ends within the header fails as truncated, and a prefix that holds
    /// the header whole decodes to the same header.
    pub proof fn lemma_prefix(s: Seq<u8>, t: Seq<u8>, at: int)
        requires
            0 <= at,
            is_prefix(t, s),
        ensures
            cut_short(t, OptionsHeader::decoded_at(s, at), OptionsHeader::decoded_at(t, at)),
    {
        OptionsHeader::lemma_marker_flags();
        if let Ok((v, end)) = OptionsHeader::decoded_at(s, at) {
            if t.len() >= end {
                if let Ok((id, after_id)) = MobileID::decoded_at(s, at + 1) {
                    assert(s.subrange(at + 2, after_id) =~= t.subrange(at + 2, after_id));
                }
            }
        }
    }

    /// Decodes the optional fields that `status` announces from the bytes at
    /// the cursor.
    pub fn read_fields(c: &mut Cursor<'a>, status: &OptionsStatus) -> (r: Result<
        OptionsHeader<'a>,
        DecodeError,
    >)
        ensures
            final(c).decodes(
                *old(c),
                viewed(r),
                OptionsHeader::fields_at(old(c).bytes(), old(c).position(), *status),
            ),
    {
        let at = c.offset();
        if let Some(field) = status.first_unsupported() {
            return Err(
                DecodeError {
                    kind: DecodeErrorKind::UnsupportedOption,
                    field,
                    offset: at,
                    expected: 0,
                    actual: 1,
                },
            );
        }
        let mut header = OptionsHeader {
            mobile_id: None,
            mobile_id_type: None,
            authentication_world: None,
            routing: None,
            forwarding: None,
            response_redirection: None,
            options_extension: None,
        };
        if status.is_mobile_id() {
            let id = MobileID::read(c)?;
            header.mobile_id = Some(id);
        }
        if status.is_mobile_id_type() {
            let id_type = MobileIDType::read(c)?;
            header.mobile_id_type = Some(id_type);
        }
        Ok(header)
    }

    /// Decodes an options header from the bytes at the cursor.
    pub fn read(c: &mut Cursor<'a>) -> (r: Result<OptionsHeader<'a>, DecodeError>)
        ensures
            final(c).decodes(
                *old(c),
                viewed(r),
                OptionsHeader::decoded_at(old(c).bytes(), old(c).position()),
            ),
    {
        let at = c.offset();
        let rest = c.remaining();
        if rest.len() < 1 {
            return Err(
                DecodeError {
                    kind: DecodeErrorKind::Truncated,
                    field: Field::OptionsStatus,
                    offset: at,
                    expected: 1,
                    actual: 0,
                },
            );
        }
        let marker = rest[0];
        if !is_options_header(marker) {
            return Err(
                DecodeError {
                    kind: DecodeErrorKind::StructuralMismatch,
                    field: Field::OptionsStatus,
                    offset: at,
                    expected: OPTIONS_HEADER as usize,
                    actual: marker as usize,
                },
            );
        }
        let status = OptionsStatus::read(c)?;
        OptionsHeader::read_fields(c, &status)
    }

    /// Decodes an options header from the start of `input`, and hands out
    /// the bytes after it.
    pub fn parse(input: &'a [u8]) -> (r: Result<(&'a [u8], Option<OptionsHeader<'a>>), DecodeError>)
        ensures
            match (r, OptionsHeader::decoded_at(input@, 0)) {
                (Ok((rest, Some(v))), Ok((value, end))) => v@ == value && 0 <= end <= input@.len()
                    && rest@ == input@.skip(end),
                (Err(e), Err(failure)) => e == failure,
                _ => false,
            },
    {
        let mut c = Cursor::new(input);
        let v = OptionsHeader::read(&mut c)?;
        Ok((c.remaining(), Some(v)))
    }
}

} // verus!
