use calamp_rs::cursor::Cursor;
use calamp_rs::error::{DecodeError, DecodeErrorKind, Field};
use calamp_rs::message_header::{MessageHeader, MessageType, SequenceNumber, ServiceType};
use calamp_rs::messages::event_report::EventReport;
use calamp_rs::options_header::{MobileID, MobileIDType, OptionsHeader, OptionsStatus};
use calamp_rs::Message;

/// A packet of 117 bytes: a mobile ID of five bytes and sixteen accumulators.
fn packet() -> Vec<u8> {
    vec![
        0x83, 0x05, 0x46, 0x34, 0x66, 0x32, 0x35, 0x01, 0x01, 0x01, 0x02, 0x3a, 0x86, 0x5f, 0xf1,
        0x3a, 0x54, 0x5f, 0xf1, 0x3a, 0x57, 0xf1, 0xe2, 0x85, 0x78, 0xe4, 0x22, 0xd6, 0x40, 0x00,
        0x01, 0x36, 0xf8, 0x00, 0x00, 0x00, 0x0b, 0x00, 0x00, 0x06, 0x20, 0x00, 0x00, 0xff, 0x8d,
        0x02, 0x1e, 0x1e, 0x00, 0x7b, 0x21, 0x10, 0x00, 0x00, 0x00, 0x31, 0xe0, 0x00, 0x00, 0x10,
        0x1a, 0x00, 0x00, 0x00, 0x00, 0x00, 0x22, 0x2a, 0x32, 0x00, 0x00, 0x03, 0xf1, 0x00, 0x00,
        0x00, 0x00, 0x00, 0x00, 0x00, 0x00, 0x01, 0xc8, 0x2d, 0x3f, 0x01, 0xc8, 0x2d, 0x3f, 0x00,
        0x00, 0x00, 0x00, 0x00, 0x00, 0x00, 0x00, 0x00, 0x00, 0x00, 0x00, 0x00, 0x00, 0x00, 0x00,
        0x00, 0x00, 0x40, 0x01, 0x00, 0x00, 0x00, 0x00, 0x00, 0x00, 0x00, 0x00,
    ]
}

#[test]
fn every_short_packet_is_truncated() {
    let data = packet();
    for n in 0..data.len() {
        let e = Message::parse(&data[..n]).unwrap_err();
        assert_eq!(e.kind, DecodeErrorKind::Truncated, "at length {}", n);
        assert!(e.offset <= n);
        assert_eq!(e.offset + e.actual, n);
        assert!(e.actual < e.expected);
    }
    assert!(Message::parse(&data).is_ok());
}

#[test]
fn a_short_packet_names_the_field_that_is_cut() {
    let data = packet();
    let field = |n: usize| Message::parse(&data[..n]).unwrap_err().field;
    assert_eq!(field(0), Field::OptionsStatus);
    assert_eq!(field(1), Field::MobileIdLength);
    assert_eq!(field(2), Field::MobileId);
    assert_eq!(field(6), Field::MobileId);
    assert_eq!(field(7), Field::MobileIdType);
    assert_eq!(field(8), Field::MobileIdType);
    assert_eq!(field(9), Field::ServiceType);
    assert_eq!(field(10), Field::MessageType);
    assert_eq!(field(11), Field::SequenceNumber);
    assert_eq!(field(12), Field::SequenceNumber);
    assert_eq!(field(13), Field::UpdateTime);
    assert_eq!(field(17), Field::TimeOfFix);
    assert_eq!(field(21), Field::Latitude);
    assert_eq!(field(25), Field::Longitude);
    assert_eq!(field(29), Field::Altitude);
    assert_eq!(field(33), Field::Speed);
    assert_eq!(field(37), Field::Heading);
    assert_eq!(field(39), Field::Satellites);
    assert_eq!(field(40), Field::FixStatus);
    assert_eq!(field(41), Field::Carrier);
    assert_eq!(field(43), Field::Rssi);
    assert_eq!(field(45), Field::CommState);
    assert_eq!(field(46), Field::Hdop);
    assert_eq!(field(47), Field::Inputs);
    assert_eq!(field(48), Field::UnitStatus);
    assert_eq!(field(49), Field::EventIndex);
    assert_eq!(field(50), Field::EventCode);
    assert_eq!(field(51), Field::Accums);
    assert_eq!(field(52), Field::Append);
    assert_eq!(field(53), Field::AccumList);
    assert_eq!(field(116), Field::AccumList);
}

#[test]
fn a_truncated_failure_tells_what_is_missing() {
    let data = packet();
    assert_eq!(
        Message::parse(&data[..4]).unwrap_err(),
        DecodeError {
            kind: DecodeErrorKind::Truncated,
            field: Field::MobileId,
            offset: 2,
            expected: 5,
            actual: 2,
        }
    );
    assert_eq!(
        Message::parse(&data[..8]).unwrap_err(),
        DecodeError {
            kind: DecodeErrorKind::Truncated,
            field: Field::MobileIdType,
            offset: 7,
            expected: 2,
            actual: 1,
        }
    );
    assert_eq!(
        Message::parse(&data[..15]).unwrap_err(),
        DecodeError {
            kind: DecodeErrorKind::Truncated,
            field: Field::UpdateTime,
            offset: 13,
            expected: 4,
            actual: 2,
        }
    );
    assert_eq!(
        Message::parse(&data[..63]).unwrap_err(),
        DecodeError {
            kind: DecodeErrorKind::Truncated,
            field: Field::AccumList,
            offset: 61,
            expected: 4,
            actual: 2,
        }
    );
    assert_eq!(
        EventReport::parse(&data[13..116]).unwrap_err(),
        DecodeError {
            kind: DecodeErrorKind::Truncated,
            field: Field::AccumList,
            offset: 100,
            expected: 4,
            actual: 3,
        }
    );
}

#[test]
fn any_other_first_byte_is_a_structural_mismatch() {
    let mut data = packet();
    for first in 0..=255u8 {
        if first == 0x83 {
            continue;
        }
        data[0] = first;
        assert_eq!(
            Message::parse(&data).unwrap_err(),
            DecodeError {
                kind: DecodeErrorKind::StructuralMismatch,
                field: Field::OptionsStatus,
                offset: 0,
                expected: 0x83,
                actual: first as usize,
            }
        );
        assert_eq!(
            Message::parse(&[first]).unwrap_err().kind,
            DecodeErrorKind::StructuralMismatch
        );
        assert_eq!(
            OptionsHeader::parse(&[first, 0xff, 0xff]).unwrap_err().kind,
            DecodeErrorKind::StructuralMismatch
        );
    }
}

#[test]
fn an_announced_option_without_encoding_is_unsupported() {
    let data = packet();
    let flags = [
        (0x04u8, Field::AuthenticationWorld),
        (0x08, Field::Routing),
        (0x10, Field::Forwarding),
        (0x20, Field::ResponseRedirection),
        (0x40, Field::OptionsExtension),
    ];
    for (bit, field) in flags {
        for others in [0x00u8, 0x01, 0x02, 0x03, 0x80, 0x83] {
            let status = OptionsStatus::from_byte(bit | others);
            assert_eq!(status.first_unsupported(), Some(field));
            for buffer in [&data[1..], &data[1..3], &[][..], &[0xffu8, 0xff][..]] {
                let mut c = Cursor::new(buffer);
                assert_eq!(
                    OptionsHeader::read_fields(&mut c, &status).unwrap_err(),
                    DecodeError {
                        kind: DecodeErrorKind::UnsupportedOption,
                        field,
                        offset: 0,
                        expected: 0,
                        actual: 1,
                    }
                );
                assert_eq!(c.offset(), 0);
            }
        }
    }
    let status = OptionsStatus::from_byte(0x7c);
    assert_eq!(status.first_unsupported(), Some(Field::AuthenticationWorld));
    let status = OptionsStatus::from_byte(0x60);
    assert_eq!(status.first_unsupported(), Some(Field::ResponseRedirection));
}

#[test]
fn the_flags_decide_which_fields_are_read() {
    let bytes = [2u8, 0xaa, 0xbb, 0x00, 0x07, 0x99];

    let mut c = Cursor::new(&bytes);
    let header = OptionsHeader::read_fields(&mut c, &OptionsStatus::from_byte(0x80)).unwrap();
    assert!(header.mobile_id.is_none());
    assert!(header.mobile_id_type.is_none());
    assert_eq!(c.offset(), 0);

    let mut c = Cursor::new(&bytes);
    let header = OptionsHeader::read_fields(&mut c, &OptionsStatus::from_byte(0x81)).unwrap();
    assert_eq!(header.mobile_id.unwrap().as_bytes(), &[0xaau8, 0xbb][..]);
    assert!(header.mobile_id_type.is_none());
    assert_eq!(c.offset(), 3);

    let mut c = Cursor::new(&bytes[3..]);
    let header = OptionsHeader::read_fields(&mut c, &OptionsStatus::from_byte(0x82)).unwrap();
    assert!(header.mobile_id.is_none());
    assert_eq!(header.mobile_id_type, Some(MobileIDType::Cdma));
    assert_eq!(c.offset(), 2);

    let mut c = Cursor::new(&bytes);
    let header = OptionsHeader::read_fields(&mut c, &OptionsStatus::from_byte(0x83)).unwrap();
    assert_eq!(header.mobile_id.unwrap().to_string(), "aabb");
    assert_eq!(header.mobile_id_type, Some(MobileIDType::Cdma));
    assert_eq!(c.offset(), 5);
    assert_eq!(c.remaining(), &[0x99u8][..]);
}

#[test]
fn an_unknown_code_is_an_invalid_enum_code() {
    let mut data = packet();
    data[8] = 8;
    assert_eq!(
        Message::parse(&data).unwrap_err(),
        DecodeError {
            kind: DecodeErrorKind::InvalidEnumCode,
            field: Field::MobileIdType,
            offset: 8,
            expected: 8,
            actual: 8,
        }
    );
    let mut data = packet();
    data[9] = 3;
    assert_eq!(
        Message::parse(&data).unwrap_err(),
        DecodeError {
            kind: DecodeErrorKind::InvalidEnumCode,
            field: Field::ServiceType,
            offset: 9,
            expected: 3,
            actual: 3,
        }
    );
    let mut data = packet();
    data[10] = 15;
    assert_eq!(
        Message::parse(&data).unwrap_err(),
        DecodeError {
            kind: DecodeErrorKind::InvalidEnumCode,
            field: Field::MessageType,
            offset: 10,
            expected: 15,
            actual: 15,
        }
    );
    assert_eq!(
        ServiceType::parse(&[0xff]).unwrap_err(),
        DecodeError {
            kind: DecodeErrorKind::InvalidEnumCode,
            field: Field::ServiceType,
            offset: 0,
            expected: 3,
            actual: 255,
        }
    );
    assert_eq!(
        MessageType::parse(&[200, 1]).unwrap_err().kind,
        DecodeErrorKind::InvalidEnumCode
    );
    assert_eq!(
        MobileIDType::parse(&[0, 9]).unwrap_err(),
        DecodeError {
            kind: DecodeErrorKind::InvalidEnumCode,
            field: Field::MobileIdType,
            offset: 1,
            expected: 8,
            actual: 9,
        }
    );
}

#[test]
fn the_reserved_byte_of_the_mobile_id_type_may_hold_anything() {
    for reserved in [0u8, 1, 0x7f, 0xff] {
        let bytes = [reserved, 5, 0x42];
        let (rest, id_type) = MobileIDType::parse(&bytes).unwrap();
        assert_eq!(id_type, MobileIDType::PhoneNumber);
        assert_eq!(rest, &[0x42u8][..]);
    }
    assert_eq!(
        MobileIDType::parse(&[1]).unwrap_err(),
        DecodeError {
            kind: DecodeErrorKind::Truncated,
            field: Field::MobileIdType,
            offset: 0,
            expected: 2,
            actual: 1,
        }
    );
    assert_eq!(
        MobileIDType::parse(&[9]).unwrap_err().kind,
        DecodeErrorKind::Truncated
    );
}

#[test]
fn a_body_other_than_an_event_report_is_unsupported() {
    for code in 0..15u8 {
        let mut data = packet();
        data[10] = code;
        let r = Message::parse(&data);
        if code == 2 {
            assert!(r.is_ok());
        } else {
            assert_eq!(
                r.unwrap_err(),
                DecodeError {
                    kind: DecodeErrorKind::UnsupportedBody,
                    field: Field::MessageType,
                    offset: 10,
                    expected: 2,
                    actual: code as usize,
                }
            );
        }
    }
    let short = &packet()[..13];
    let mut other = short.to_vec();
    other[10] = 3;
    assert_eq!(Message::parse(&other).unwrap_err().kind, DecodeErrorKind::UnsupportedBody);
}

#[test]
fn a_header_fails_at_its_first_bad_field() {
    assert_eq!(
        MessageHeader::parse(&[9, 99]).unwrap_err(),
        DecodeError {
            kind: DecodeErrorKind::InvalidEnumCode,
            field: Field::ServiceType,
            offset: 0,
            expected: 3,
            actual: 9,
        }
    );
    assert_eq!(
        MessageHeader::parse(&[1, 99]).unwrap_err(),
        DecodeError {
            kind: DecodeErrorKind::InvalidEnumCode,
            field: Field::MessageType,
            offset: 1,
            expected: 15,
            actual: 99,
        }
    );
    assert_eq!(
        MessageHeader::parse(&[1, 2, 0]).unwrap_err(),
        DecodeError {
            kind: DecodeErrorKind::Truncated,
            field: Field::SequenceNumber,
            offset: 2,
            expected: 2,
            actual: 1,
        }
    );
    assert_eq!(
        SequenceNumber::parse(&[]).unwrap_err(),
        DecodeError {
            kind: DecodeErrorKind::Truncated,
            field: Field::SequenceNumber,
            offset: 0,
            expected: 2,
            actual: 0,
        }
    );
    assert_eq!(
        MobileID::parse(&[4, 1, 2, 3]).unwrap_err(),
        DecodeError {
            kind: DecodeErrorKind::Truncated,
            field: Field::MobileId,
            offset: 1,
            expected: 4,
            actual: 3,
        }
    );
    assert_eq!(
        MobileID::parse(&[]).unwrap_err(),
        DecodeError {
            kind: DecodeErrorKind::Truncated,
            field: Field::MobileIdLength,
            offset: 0,
            expected: 1,
            actual: 0,
        }
    );
}
