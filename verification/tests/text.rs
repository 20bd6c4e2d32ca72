use calamp_rs::message_header::{MessageType, SequenceNumber, ServiceType};
use calamp_rs::options_header::{MobileID, MobileIDType};
use calamp_rs::text::{decimal_string, digit, hex_string};

#[test]
fn digits_are_lower_case() {
    let all: Vec<&str> = (0..16u8).map(digit).collect();
    assert_eq!(
        all,
        vec!["0", "1", "2", "3", "4", "5", "6", "7", "8", "9", "a", "b", "c", "d", "e", "f"]
    );
}

#[test]
fn decimal_has_no_leading_zeros() {
    assert_eq!(decimal_string(0), "0");
    assert_eq!(decimal_string(7), "7");
    assert_eq!(decimal_string(10), "10");
    assert_eq!(decimal_string(14982), "14982");
    assert_eq!(decimal_string(65535), "65535");
    assert_eq!(decimal_string(1000), "1000");
    for n in [0u16, 9, 99, 100, 4096, 60000] {
        assert_eq!(decimal_string(n), format!("{}", n));
    }
}

#[test]
fn hexadecimal_takes_two_digits_to_the_byte() {
    assert_eq!(hex_string(&[]), "");
    assert_eq!(hex_string(&[0x00]), "00");
    assert_eq!(hex_string(&[0x05]), "05");
    assert_eq!(hex_string(&[0xab, 0xcd, 0xef]), "abcdef");
    assert_eq!(hex_string(&[0x46, 0x34, 0x66, 0x32, 0x35]), "4634663235");
    assert_eq!(hex_string(&[0xff, 0x10, 0x01]), "ff1001");
}

#[test]
fn a_mobile_id_renders_in_hexadecimal() {
    let (rest, id) = MobileID::parse(&[3, 0x0a, 0xb0, 0x7f, 0x55]).unwrap();
    assert_eq!(rest, &[0x55u8][..]);
    assert_eq!(id.len(), 3);
    assert!(!id.is_empty());
    assert_eq!(id.as_bytes(), &[0x0au8, 0xb0, 0x7f][..]);
    assert_eq!(id.to_string(), "0ab07f");
}

#[test]
fn a_mobile_id_may_be_empty() {
    let (rest, id) = MobileID::parse(&[0, 0x55]).unwrap();
    assert_eq!(rest, &[0x55u8][..]);
    assert_eq!(id.len(), 0);
    assert!(id.is_empty());
    assert_eq!(id.to_string(), "");
}

#[test]
fn a_sequence_number_renders_in_decimal() {
    assert_eq!(SequenceNumber(1).to_string(), "1");
    assert_eq!(SequenceNumber(65535).to_string(), "65535");
    assert_eq!(SequenceNumber(0).data(), 0);
}

#[test]
fn message_types_have_labels_and_codes() {
    let all = [
        (MessageType::Null, "MessageType::Null"),
        (MessageType::AckNak, "MessageType::AckNak"),
        (MessageType::EventReport, "MessageType::EventReport"),
        (MessageType::IDReport, "MessageType::IDReport"),
        (MessageType::UserData, "MessageType::UserData"),
        (MessageType::ApplicationData, "MessageType::ApplicationData"),
        (MessageType::ConfigurationParameter, "MessageType::ConfigurationParameter"),
        (MessageType::UnitRequest, "MessageType::UnitRequest"),
        (MessageType::LocateReport, "MessageType::LocateReport"),
        (MessageType::UserDataWithAccumulators, "MessageType::UserDataWithAccumulators"),
        (MessageType::MiniEventReport, "MessageType::MiniEventReport"),
        (MessageType::MiniUserData, "MessageType::MiniUserData"),
        (MessageType::MiniApplication, "MessageType::MiniApplication"),
        (MessageType::DeviceVersion, "MessageType::DeviceVersion"),
        (
            MessageType::ApplicationMessageWithAccumulators,
            "MessageType::ApplicationMessageWithAccumulators",
        ),
    ];
    for (code, (message_type, label)) in all.iter().enumerate() {
        assert_eq!(message_type.to_string(), *label);
        assert_eq!(message_type.code() as usize, code);
        assert_eq!(MessageType::from_code(code as u8), Some(*message_type));
    }
    for code in 15..=255u8 {
        assert_eq!(MessageType::from_code(code), None);
    }
}

#[test]
fn service_types_have_labels_and_codes() {
    let all = [
        (ServiceType::Unacknowledged, "ServiceType::Unacknowledged"),
        (ServiceType::Acknowledged, "ServiceType::Acknowledged"),
        (ServiceType::ResponseToAnAcknowledged, "ServiceType::ResponseToAnAcknowledged"),
    ];
    for (code, (service_type, label)) in all.iter().enumerate() {
        assert_eq!(service_type.to_string(), *label);
        assert_eq!(service_type.code() as usize, code);
        assert_eq!(ServiceType::from_code(code as u8), Some(*service_type));
    }
    for code in 3..=255u8 {
        assert_eq!(ServiceType::from_code(code), None);
    }
}

#[test]
fn mobile_id_types_have_labels_and_codes() {
    let all = [
        (MobileIDType::Off, "MobileIDType::Off"),
        (MobileIDType::Esn, "MobileIDType::Esn"),
        (MobileIDType::Equipment, "MobileIDType::Equipament"),
        (MobileIDType::Subscriber, "MobileIDType::Subscriber"),
        (MobileIDType::Defined, "MobileIDType::Defined"),
        (MobileIDType::PhoneNumber, "MobileIDType::PhoneNumber"),
        (MobileIDType::IpAddress, "MobileIDType::IpAddress"),
        (MobileIDType::Cdma, "MobileIDType::Cdma"),
    ];
    for (code, (id_type, label)) in all.iter().enumerate() {
        assert_eq!(id_type.to_string(), *label);
        assert_eq!(id_type.code() as usize, code);
        assert_eq!(MobileIDType::from_code(code as u8), Some(*id_type));
    }
    for code in 8..=255u8 {
        assert_eq!(MobileIDType::from_code(code), None);
    }
}
