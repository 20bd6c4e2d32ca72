//! Decoder for the telemetry messages that CalAmp location units send to a
//! server: an options header, a message header and an event report body.
//!
//! [`Message::parse`] decodes one packet. It runs three decoders in turn on
//! one [`cursor::Cursor`]: [`options_header::OptionsHeader`], then
//! [`message_header::MessageHeader`], then
//! [`messages::event_report::EventReport`]. The first failure ends the
//! decoding, and an [`error::DecodeError`] tells its kind, the field, the
//! offset and what was expected against what was found.
//!
//! Every decoder comes with a function on sequences of bytes, `decoded_at`,
//! that says what it finds at a position, and the decoder is proved to return
//! exactly that. The first byte of a packet is the options byte: it must be
//! the marker `0x83`, and its bits are the flags that announce the optional
//! fields. Numbers are big-endian and kept as they stand in the packet.

use vstd::prelude::*;

pub mod bits;
pub mod cursor;
pub mod error;
pub mod message_header;
pub mod messages;
pub mod options_header;
pub mod text;
pub mod utils;

use crate::cursor::Cursor;
use crate::error::{
    cut_short, is_prefix, is_truncated, structural_mismatch, unsupported_body, viewed, within,
    DecodeError, DecodeErrorKind, Field,
};
use crate::message_header::{MessageHeader, MessageType};
use crate::messages::event_report::{EventReport, EventReportView, ACCUM_LEN, FIXED_LEN};
use crate::options_header::{OptionsHeader, OptionsHeaderView, OPTIONS_HEADER};

verus! {

/// The byte that stands for the message type of an event report.
pub const EVENT_REPORT: u8 = 2;

/// One decoded packet.
#[derive(Debug, PartialEq, Eq)]
pub struct Message<'a> {
    pub options_header: Option<OptionsHeader<'a>>,
    pub message_header: MessageHeader,
    pub msg: EventReport,
}

/// A message as plain values.
pub struct MessageView {
    pub options_header: Option<OptionsHeaderView>,
    pub message_header: MessageHeader,
    pub msg: EventReportView,
}

impl<'a> View for Message<'a> {
    type V = MessageView;

    open spec fn view(&self) -> MessageView {
        MessageView {
            options_header: match self.options_header {
                Some(h) => Some(h@),
                None => None,
            },
            message_header: self.message_header,
            msg: self.msg@,
        }
    }
}

impl<'a> Message<'a> {
    /// What the body after a message header `header` decodes to, where the
    /// header ends at `at` in `s`: an event report and the position after
    /// it, or the first failure. A message type other than that of an event
    /// report fails at the byte of the message type, which stands three
    /// bytes in front of the header's end.
    pub open spec fn body_at(s: Seq<u8>, at: int, header: MessageHeader) -> Result<
        (EventReportView, int),
        DecodeError,
    > {
        if header.message_type != MessageType::EventReport {
            Err(unsupported_body(at - 3, EVENT_REPORT, s[at - 3]))
        } else {
            EventReport::decoded_at(s, at)
        }
    }

    /// What the bytes from `at` on in `s` decode to: the message and the
    /// position after it, or the first failure. The options header comes
    /// first, then the message header, then the body.
    pub open spec fn decoded_at(s: Seq<u8>, at: int) -> Result<(MessageView, int), DecodeError> {
        match OptionsHeader::decoded_at(s, at) {
            Err(e) => Err(e),
            Ok((options, header_start)) => match MessageHeader::decoded_at(s, header_start) {
                Err(e) => Err(e),
                Ok((message_header, body_start)) => {
                    match Message::body_at(s, body_start, message_header) {
                        Err(e) => Err(e),
                        Ok((msg, end)) => Ok(
                            (
                                MessageView {
                                    options_header: Some(options),
                                    message_header,
                                    msg,
                                },
                                end,
                            ),
                        ),
                    }
                },
            },
        }
    }

    /// What the packet `s` decodes to: the message, or the first failure.
    pub open spec fn decoded(s: Seq<u8>) -> Result<MessageView, DecodeError> {
        match Message::decoded_at(s, 0) {
            Ok((v, _)) => Ok(v),
            Err(e) => Err(e),
        }
    }

    /// The number of bytes of a packet with a mobile ID of `id_len` bytes and
    /// `accums` accumulators: the options byte, the mobile ID with its
    /// length byte, the two bytes of the mobile ID type, the message header,
    /// the fixed fields of the event report and the accumulators.
    pub open spec fn packet_len(id_len: int, accums: int) -> int {
        1 + (1 + id_len) + 2 + MessageHeader::LEN + FIXED_LEN + ACCUM_LEN * accums
    }

    /// A message that decodes ends within the buffer, after as many bytes
    /// as its mobile ID and the number of its accumulators ask for; it is
    /// an event report, and holds as many accumulators as its field `accums`
    /// says.
    pub proof fn lemma_end(s: Seq<u8>, at: int)
        requires
            0 <= at,
            Message::decoded_at(s, at) is Ok,
        ensures
            ({
                let (v, end) = Message::decoded_at(s, at).unwrap();
                &&& v.options_header is Some
                &&& v.options_header.unwrap().mobile_id is Some
                &&& v.message_header.message_type == MessageType::EventReport
                &&& v.msg.accum_list.len() == v.msg.accums
                &&& end == at + Message::packet_len(
                    v.options_header.unwrap().mobile_id.unwrap().len() as int,
                    v.msg.accums as int,
                )
                &&& end <= s.len()
            }),
    {
        OptionsHeader::lemma_end(s, at);
        let (options, header_start) = OptionsHeader::decoded_at(s, at).unwrap();
        let (header, body_start) = MessageHeader::decoded_at(s, header_start).unwrap();
        EventReport::lemma_end(s, body_start);
    }

    /// A failure lies within the packet: no decoder reads past the end. Where
    /// a field is cut off, the failure is of the kind `Truncated`, starts
    /// where the field starts and counts the bytes that remain; every other
    /// failure is at a byte that the packet holds.
    pub proof fn lemma_failure_within(s: Seq<u8>)
        requires
            s.len() <= usize::MAX,
        ensures
            Message::decoded(s) matches Err(e) ==> within(e, s.len() as int),
    {
        OptionsHeader::lemma_marker_flags();
        if let Ok((options, header_start)) = OptionsHeader::decoded_at(s, 0) {
            OptionsHeader::lemma_end(s, 0);
        }
    }

    /// Decoding is a function of the bytes: two packets that hold the same
    /// bytes decode to the same message, or fail with the same failure.
    pub proof fn lemma_deterministic(a: Seq<u8>, b: Seq<u8>)
        requires
            a.len() == b.len(),
            forall|i: int| 0 <= i < a.len() ==> a[i] == b[i],
        ensures
            Message::decoded(a) == Message::decoded(b),
    {
        assert(a =~= b);
    }

    /// A packet whose first byte is not the marker fails as a structural
    /// mismatch, whatever follows the byte.
    pub proof fn lemma_wrong_marker(s: Seq<u8>)
        requires
            s.len() >= 1,
            s[0] != OPTIONS_HEADER,
        ensures
            Message::decoded(s) == Err::<MessageView, DecodeError>(
                structural_mismatch(0, OPTIONS_HEADER, s[0]),
            ),
    {
    }

    /// Of a buffer in which a message stands at `at`, a prefix that ends
    /// within the message fails as truncated, and a prefix that holds the
    /// message whole decodes to the same message.
    pub proof fn lemma_prefix(s: Seq<u8>, t: Seq<u8>, at: int)
        requires
            0 <= at,
            is_prefix(t, s),
        ensures
            cut_short(t, Message::decoded_at(s, at), Message::decoded_at(t, at)),
    {
        OptionsHeader::lemma_prefix(s, t, at);
        if let Ok((options, header_start)) = OptionsHeader::decoded_at(s, at) {
            MessageHeader::lemma_prefix(s, t, header_start);
            if let Ok((header, body_start)) = MessageHeader::decoded_at(s, header_start) {
                EventReport::lemma_prefix(s, t, body_start);
            }
        }
    }

    /// A packet that is cut off before its message ends fails as truncated:
    /// of a packet `s` that decodes, no proper prefix of the bytes of its
    /// message decodes, and each fails with the kind `Truncated`.
    pub proof fn lemma_short_packet_is_truncated(s: Seq<u8>, n: int)
        requires
            Message::decoded_at(s, 0) is Ok,
            0 <= n < Message::decoded_at(s, 0).unwrap().1,
        ensures
            is_truncated(Message::decoded(s.take(n))),
    {
        Message::lemma_end(s, 0);
        Message::lemma_prefix(s, s.take(n), 0);
    }

    /// Decodes a message from the bytes at the cursor. Bytes after the
    /// message are left where they are.
    pub fn read(c: &mut Cursor<'a>) -> (r: Result<Message<'a>, DecodeError>)
        ensures
            final(c).decodes(
                *old(c),
                viewed(r),
                Message::decoded_at(old(c).bytes(), old(c).position()),
            ),
    {
        let options = OptionsHeader::read(c)?;
        let message_header = MessageHeader::read(c)?;
        match message_header.message_type {
            MessageType::EventReport => {},
            other => {
                let at = c.offset();
                return Err(
                    DecodeError {
                        kind: DecodeErrorKind::UnsupportedBody,
                        field: Field::MessageType,
                        offset: at - 3,
                        expected: EVENT_REPORT as usize,
                        actual: other.code() as usize,
                    },
                );
            },
        }
        let msg = EventReport::read(c)?;
        Ok(Message { options_header: Some(options), message_header, msg })
    }

    /// Decodes the packet `input`.
    pub fn parse(input: &'a [u8]) -> (r: Result<Message<'a>, DecodeError>)
        ensures
            viewed(r) == Message::decoded(input@),
    {
        let mut c = Cursor::new(input);
        Message::read(&mut c)
    }
}

} // verus!
