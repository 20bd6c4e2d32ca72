//! The message header: service type, message type and sequence number.

use vstd::prelude::*;
use crate::cursor::Cursor;
use crate::error::{
    cut_short, invalid_code, is_prefix, truncated, DecodeError, DecodeErrorKind, Field,
};
use crate::text::{decimal, decimal_string};
use crate::utils::be_u16_at;

verus! {

/// The kind of body that follows the message header.
#[derive(Clone, Copy, Debug, PartialEq, Eq, Structural)]
pub enum MessageType {
    Null,
    AckNak,
    EventReport,
    IDReport,
    UserData,
    ApplicationData,
    ConfigurationParameter,
    UnitRequest,
    LocateReport,
    UserDataWithAccumulators,
    MiniEventReport,
    MiniUserData,
    MiniApplication,
    DeviceVersion,
    ApplicationMessageWithAccumulators,
}

impl MessageType {
    /// The message type that the byte `code` stands for, if any.
    pub open spec fn of_code(code: u8) -> Option<MessageType> {
        if code == 0 {
            Some(MessageType::Null)
        } else if code == 1 {
            Some(MessageType::AckNak)
        } else if code == 2 {
            Some(MessageType::EventReport)
        } else if code == 3 {
            Some(MessageType::IDReport)
        } else if code == 4 {
            Some(MessageType::UserData)
        } else if code == 5 {
            Some(MessageType::ApplicationData)
        } else if code == 6 {
            Some(MessageType::ConfigurationParameter)
        } else if code == 7 {
            Some(MessageType::UnitRequest)
        } else if code == 8 {
            Some(MessageType::LocateReport)
        } else if code == 9 {
            Some(MessageType::UserDataWithAccumulators)
        } else if code == 10 {
            Some(MessageType::MiniEventReport)
        } else if code == 11 {
            Some(MessageType::MiniUserData)
        } else if code == 12 {
            Some(MessageType::MiniApplication)
        } else if code == 13 {
            Some(MessageType::DeviceVersion)
        } else if code == 14 {
            Some(MessageType::ApplicationMessageWithAccumulators)
        } else {
            None
        }
    }

    /// The name of this message type as text.
    pub open spec fn label(self) -> Seq<char> {
        match self {
            MessageType::Null => "MessageType::Null"@,
            MessageType::AckNak => "MessageType::AckNak"@,
            MessageType::EventReport => "MessageType::EventReport"@,
            MessageType::IDReport => "MessageType::IDReport"@,
            MessageType::UserData => "MessageType::UserData"@,
            MessageType::ApplicationData => "MessageType::ApplicationData"@,
            MessageType::ConfigurationParameter => "MessageType::ConfigurationParameter"@,
            MessageType::UnitRequest => "MessageType::UnitRequest"@,
            MessageType::LocateReport => "MessageType::LocateReport"@,
            MessageType::UserDataWithAccumulators => "MessageType::UserDataWithAccumulators"@,
            MessageType::MiniEventReport => "MessageType::MiniEventReport"@,
            MessageType::MiniUserData => "MessageType::MiniUserData"@,
            MessageType::MiniApplication => "MessageType::MiniApplication"@,
            MessageType::DeviceVersion => "MessageType::DeviceVersion"@,
            MessageType::ApplicationMessageWithAccumulators => {
                "MessageType::ApplicationMessageWithAccumulators"@
            },
        }
    }

    /// What the byte at `at` in `s` decodes to: the message type and the
    /// position after it, or why there is none.
    pub open spec fn decoded_at(s: Seq<u8>, at: int) -> Result<(MessageType, int), DecodeError> {
        if s.len() - at < 1 {
            Err(truncated(Field::MessageType, at, 1, s.len() - at))
        } else {
            match MessageType::of_code(s[at]) {
                Some(v) => Ok((v, at + 1)),
                None => Err(invalid_code(Field::MessageType, at, 15, s[at])),
            }
        }
    }

    /// The message type that the byte `code` stands for, if any.
    pub fn from_code(code: u8) -> (r: Option<MessageType>)
        ensures
            r == MessageType::of_code(code),
    {
        match code {
            0 => Some(MessageType::Null),
            1 => Some(MessageType::AckNak),
            2 => Some(MessageType::EventReport),
            3 => Some(MessageType::IDReport),
            4 => Some(MessageType::UserData),
            5 => Some(MessageType::ApplicationData),
            6 => Some(MessageType::ConfigurationParameter),
            7 => Some(MessageType::UnitRequest),
            8 => Some(MessageType::LocateReport),
            9 => Some(MessageType::UserDataWithAccumulators),
            10 => Some(MessageType::MiniEventReport),
            11 => Some(MessageType::MiniUserData),
            12 => Some(MessageType::MiniApplication),
            13 => Some(MessageType::DeviceVersion),
            14 => Some(MessageType::ApplicationMessageWithAccumulators),
            _ => None,
        }
    }

    /// The byte that stands for this message type.
    pub fn code(&self) -> (r: u8)
        ensures
            MessageType::of_code(r) == Some(*self),
    {
        match self {
            MessageType::Null => 0,
            MessageType::AckNak => 1,
            MessageType::EventReport => 2,
            MessageType::IDReport => 3,
            MessageType::UserData => 4,
            MessageType::ApplicationData => 5,
            MessageType::ConfigurationParameter => 6,
            MessageType::UnitRequest => 7,
            MessageType::LocateReport => 8,
            MessageType::UserDataWithAccumulators => 9,
            MessageType::MiniEventReport => 10,
            MessageType::MiniUserData => 11,
            MessageType::MiniApplication => 12,
            MessageType::DeviceVersion => 13,
            MessageType::ApplicationMessageWithAccumulators => 14,
        }
    }

    /// The name of this message type as text.
    pub fn to_string(&self) -> (r: String)
        ensures
            r@ == self.label(),
    {
        let name = match self {
            MessageType::Null => "MessageType::Null",
            MessageType::AckNak => "MessageType::AckNak",
            MessageType::EventReport => "MessageType::EventReport",
            MessageType::IDReport => "MessageType::IDReport",
            MessageType::UserData => "MessageType::UserData",
            MessageType::ApplicationData => "MessageType::ApplicationData",
            MessageType::ConfigurationParameter => "MessageType::ConfigurationParameter",
            MessageType::UnitRequest => "MessageType::UnitRequest",
            MessageType::LocateReport => "MessageType::LocateReport",
            MessageType::UserDataWithAccumulators => "MessageType::UserDataWithAccumulators",
            MessageType::MiniEventReport => "MessageType::MiniEventReport",
            MessageType::MiniUserData => "MessageType::MiniUserData",
            MessageType::MiniApplication => "MessageType::MiniApplication",
            MessageType::DeviceVersion => "MessageType::DeviceVersion",
            MessageType::ApplicationMessageWithAccumulators => {
                "MessageType::ApplicationMessageWithAccumulators"
            },
        };
        name.to_owned()
    }

    /// Decodes a message type from the byte at the cursor.
    pub fn read(c: &mut Cursor) -> (r: Result<MessageType, DecodeError>)
        ensures
            final(c).decodes(
                *old(c),
                r,
                MessageType::decoded_at(old(c).bytes(), old(c).position()),
            ),
    {
        let at = c.offset();
        let code = c.read_u8(Field::MessageType)?;
        match MessageType::from_code(code) {
            Some(v) => Ok(v),
            None => Err(
                DecodeError {
                    kind: DecodeErrorKind::InvalidEnumCode,
                    field: Field::MessageType,
                    offset: at,
                    expected: 15,
                    actual: code as usize,
                },
            ),
        }
    }

    /// Decodes a message type from the first byte of `input`, and hands out
    /// the bytes after it.
    pub fn parse<'a>(input: &'a [u8]) -> (r: Result<(&'a [u8], MessageType), DecodeError>)
        ensures
            match (r, MessageType::decoded_at(input@, 0)) {
                (Ok((rest, v)), Ok((value, end))) => v == value && 0 <= end <= input@.len()
                    && rest@ == input@.skip(end),
                (Err(e), Err(failure)) => e == failure,
                _ => false,
            },
    {
        let mut c = Cursor::new(input);
        let v = MessageType::read(&mut c)?;
        Ok((c.remaining(), v))
    }
}

/// Whether the sender expects an acknowledgement.
#[derive(Clone, Copy, Debug, PartialEq, Eq, Structural)]
pub enum ServiceType {
    /// Unacknowledged request
    Unacknowledged,
    /// Acknowledged request
    Acknowledged,
    /// Response to an acknowledged request
    ResponseToAnAcknowledged,
}

impl ServiceType {
    /// The service type that the byte `code` stands for, if any.
    pub open spec fn of_code(code: u8) -> Option<ServiceType> {
        if code == 0 {
            Some(ServiceType::Unacknowledged)
        } else if code == 1 {
            Some(ServiceType::Acknowledged)
        } else if code == 2 {
            Some(ServiceType::ResponseToAnAcknowledged)
        } else {
            None
        }
    }

    /// The name of this service type as text.
    pub open spec fn label(self) -> Seq<char> {
        match self {
            ServiceType::Unacknowledged => "ServiceType::Unacknowledged"@,
            ServiceType::Acknowledged => "ServiceType::Acknowledged"@,
            ServiceType::ResponseToAnAcknowledged => "ServiceType::ResponseToAnAcknowledged"@,
        }
    }

    /// What the byte at `at` in `s` decodes to: the service type and the
    /// position after it, or why there is none.
    pub open spec fn decoded_at(s: Seq<u8>, at: int) -> Result<(ServiceType, int), DecodeError> {
        if s.len() - at < 1 {
            Err(truncated(Field::ServiceType, at, 1, s.len() - at))
        } else {
            match ServiceType::of_code(s[at]) {
                Some(v) => Ok((v, at + 1)),
                None => Err(invalid_code(Field::ServiceType, at, 3, s[at])),
            }
        }
    }

    /// The service type that the byte `code` stands for, if any.
    pub fn from_code(code: u8) -> (r: Option<ServiceType>)
        ensures
            r == ServiceType::of_code(code),
    {
        match code {
            0 => Some(ServiceType::Unacknowledged),
            1 => Some(ServiceType::Acknowledged),
            2 => Some(ServiceType::ResponseToAnAcknowledged),
            _ => None,
        }
    }

    /// The byte that stands for this service type.
    pub fn code(&self) -> (r: u8)
        ensures
            ServiceType::of_code(r) == Some(*self),
    {
        match self {
            ServiceType::Unacknowledged => 0,
            ServiceType::Acknowledged => 1,
            ServiceType::ResponseToAnAcknowledged => 2,
        }
    }

    /// The name of this service type as text.
    pub fn to_string(&self) -> (r: String)
        ensures
            r@ == self.label(),
    {
        let name = match self {
            ServiceType::Unacknowledged => "ServiceType::Unacknowledged",
            ServiceType::Acknowledged => "ServiceType::Acknowledged",
            ServiceType::ResponseToAnAcknowledged => "ServiceType::ResponseToAnAcknowledged",
        };
        name.to_owned()
    }

    /// Decodes a service type from the byte at the cursor.
    pub fn read(c: &mut Cursor) -> (r: Result<ServiceType, DecodeError>)
        ensures
            final(c).decodes(
                *old(c),
                r,
                ServiceType::decoded_at(old(c).bytes(), old(c).position()),
            ),
    {
        let at = c.offset();
        let code = c.read_u8(Field::ServiceType)?;
        match ServiceType::from_code(code) {
            Some(v) => Ok(v),
            None => Err(
                DecodeError {
                    kind: DecodeErrorKind::InvalidEnumCode,
                    field: Field::ServiceType,
                    offset: at,
                    expected: 3,
                    actual: code as usize,
                },
            ),
        }
    }

    /// Decodes a service type from the first byte of `input`, and hands out
    /// the bytes after it.
    pub fn parse<'a>(input: &'a [u8]) -> (r: Result<(&'a [u8], ServiceType), DecodeError>)
        ensures
            match (r, ServiceType::decoded_at(input@, 0)) {
                (Ok((rest, v)), Ok((value, end))) => v == value && 0 <= end <= input@.len()
                    && rest@ == input@.skip(end),
                (Err(e), Err(failure)) => e == failure,
                _ => false,
            },
    {
        let mut c = Cursor::new(input);
        let v = ServiceType::read(&mut c)?;
        Ok((c.remaining(), v))
    }
}

/// Sequence number
///
/// A 16-bit number that identifies a message. The unit starts at 1 on a cold
/// boot and counts up with each message it originates, rolling over from
/// 65535 to 1 and skipping zero. It serves to match acknowledgements with
/// requests and to recognise a retransmitted copy. The decoder carries the
/// value and enforces nothing about it.
#[derive(Clone, Copy, Debug, PartialEq, Eq, Structural)]
pub struct SequenceNumber(pub u16);

impl SequenceNumber {
    /// What the two bytes at `at` in `s` decode to: the sequence number and
    /// the position after it, or why there is none.
    pub open spec fn decoded_at(s: Seq<u8>, at: int) -> Result<(SequenceNumber, int), DecodeError> {
        if s.len() - at < 2 {
            Err(truncated(Field::SequenceNumber, at, 2, s.len() - at))
        } else {
            Ok((SequenceNumber(be_u16_at(s, at) as u16), at + 2))
        }
    }

    /// The number itself.
    pub fn data(&self) -> (r: u16)
        ensures
            r == self.0,
    {
        self.0
    }

    /// The number in decimal.
    pub fn to_string(&self) -> (r: String)
        ensures
            r@ == decimal(self.0 as nat),
    {
        decimal_string(self.0)
    }

    /// Decodes a sequence number from the two bytes at the cursor.
    pub fn read(c: &mut Cursor) -> (r: Result<SequenceNumber, DecodeError>)
        ensures
            final(c).decodes(
                *old(c),
                r,
                SequenceNumber::decoded_at(old(c).bytes(), old(c).position()),
            ),
    {
        let v = c.read_u16(Field::SequenceNumber)?;
        Ok(SequenceNumber(v))
    }

    /// Decodes a sequence number from the first two bytes of `input`, and
    /// hands out the bytes after them.
    pub fn parse<'a>(input: &'a [u8]) -> (r: Result<(&'a [u8], SequenceNumber), DecodeError>)
        ensures
            match (r, SequenceNumber::decoded_at(input@, 0)) {
                (Ok((rest, v)), Ok((value, end))) => v == value && 0 <= end <= input@.len()
                    && rest@ == input@.skip(end),
                (Err(e), Err(failure)) => e == failure,
                _ => false,
            },
    {
        let mut c = Cursor::new(input);
        let v = SequenceNumber::read(&mut c)?;
        Ok((c.remaining(), v))
    }
}

/// The four bytes in front of every message body.
#[derive(Clone, Copy, Debug, PartialEq, Eq, Structural)]
pub struct MessageHeader {
    pub service_type: ServiceType,
    pub message_type: MessageType,
    pub sequence_number: SequenceNumber,
}

impl MessageHeader {
    /// The number of bytes of a message header.
    pub const LEN: usize = 4;

    /// What the bytes from `at` on in `s` decode to: the header and the
    /// position after it, or the failure of the first field that cannot be
    /// decoded. The fields stand in the order service type, message type,
    /// sequence number.
    pub open spec fn decoded_at(s: Seq<u8>, at: int) -> Result<(MessageHeader, int), DecodeError> {
        match ServiceType::decoded_at(s, at) {
            Err(e) => Err(e),
            Ok((service_type, after_service)) => match MessageType::decoded_at(s, after_service) {
                Err(e) => Err(e),
                Ok((message_type, after_type)) => match SequenceNumber::decoded_at(s, after_type) {
                    Err(e) => Err(e),
                    Ok((sequence_number, end)) => Ok(
                        (MessageHeader { service_type, message_type, sequence_number }, end),
                    ),
                },
            },
        }
    }

    /// Of a buffer in which a message header stands at `at`, a prefix that
    /// ends within the header fails as truncated, and a prefix that holds
    /// the header whole decodes to the same header.
    pub proof fn lemma_prefix(s: Seq<u8>, t: Seq<u8>, at: int)
        requires
            0 <= at,
            is_prefix(t, s),
        ensures
            cut_short(t, MessageHeader::decoded_at(s, at), MessageHeader::decoded_at(t, at)),
    {
    }

    /// Decodes a message header from the bytes at the cursor.
    pub fn read(c: &mut Cursor) -> (r: Result<MessageHeader, DecodeError>)
        ensures
            final(c).decodes(
                *old(c),
                r,
                MessageHeader::decoded_at(old(c).bytes(), old(c).position()),
            ),
    {
        let service_type = ServiceType::read(c)?;
        let message_type = MessageType::read(c)?;
        let sequence_number = SequenceNumber::read(c)?;
        Ok(MessageHeader { service_type, message_type, sequence_number })
    }

    /// Decodes a message header from the start of `input`, and hands out
    /// the bytes after it.
    pub fn parse<'a>(input: &'a [u8]) -> (r: Result<(&'a [u8], MessageHeader), DecodeError>)
        ensures
            match (r, MessageHeader::decoded_at(input@, 0)) {
                (Ok((rest, v)), Ok((value, end))) => v == value && 0 <= end <= input@.len()
                    && rest@ == input@.skip(end),
                (Err(e), Err(failure)) => e == failure,
                _ => false,
            },
    {
        let mut c = Cursor::new(input);
        let v = MessageHeader::read(&mut c)?;
        Ok((c.remaining(), v))
    }
}

} // verus!
