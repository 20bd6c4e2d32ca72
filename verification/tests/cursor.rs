use calamp_rs::cursor::Cursor;
use calamp_rs::error::{DecodeError, DecodeErrorKind, Field};

#[test]
fn new_cursor_stands_at_the_start() {
    let buf = [1u8, 2, 3];
    let c = Cursor::new(&buf);
    assert_eq!(c.offset(), 0);
    assert_eq!(c.len(), 3);
    assert_eq!(c.remaining(), &[1u8, 2, 3][..]);
}

#[test]
fn read_u8_takes_the_byte_at_the_position() {
    let buf = [0x7fu8, 0x80];
    let mut c = Cursor::new(&buf);
    assert_eq!(c.read_u8(Field::Satellites), Ok(0x7f));
    assert_eq!(c.offset(), 1);
    assert_eq!(c.read_u8(Field::Satellites), Ok(0x80));
    assert_eq!(c.offset(), 2);
    assert_eq!(c.len(), 0);
}

#[test]
fn read_u16_is_big_endian() {
    let buf = [0x3au8, 0x86, 0xff];
    let mut c = Cursor::new(&buf);
    assert_eq!(c.read_u16(Field::SequenceNumber), Ok(14982));
    assert_eq!(c.offset(), 2);
    assert_eq!(c.remaining(), &[0xffu8][..]);
}

#[test]
fn read_u32_is_big_endian() {
    let buf = [0x5fu8, 0xf1, 0x3a, 0x54];
    let mut c = Cursor::new(&buf);
    assert_eq!(c.read_u32(Field::UpdateTime), Ok(1609644628));
    assert_eq!(c.offset(), 4);

    let buf = [0xffu8, 0xff, 0xff, 0xff];
    let mut c = Cursor::new(&buf);
    assert_eq!(c.read_u32(Field::UpdateTime), Ok(u32::MAX));

    let buf = [0x01u8, 0x02, 0x03, 0x04];
    let mut c = Cursor::new(&buf);
    assert_eq!(c.read_u32(Field::UpdateTime), Ok(0x01020304));
}

#[test]
fn read_i16_is_twos_complement() {
    let buf = [0xffu8, 0x8d, 0x7f, 0xff, 0x80, 0x00];
    let mut c = Cursor::new(&buf);
    assert_eq!(c.read_i16(Field::Rssi), Ok(-115));
    assert_eq!(c.read_i16(Field::Rssi), Ok(i16::MAX));
    assert_eq!(c.read_i16(Field::Rssi), Ok(i16::MIN));
    assert_eq!(c.offset(), 6);
}

#[test]
fn read_i32_is_twos_complement() {
    let buf = [0xf1u8, 0xe2, 0x85, 0x78, 0x00, 0x01, 0x36, 0xf8, 0x80, 0x00, 0x00, 0x00];
    let mut c = Cursor::new(&buf);
    assert_eq!(c.read_i32(Field::Latitude), Ok(-236812936));
    assert_eq!(c.read_i32(Field::Altitude), Ok(79608));
    assert_eq!(c.read_i32(Field::Speed), Ok(i32::MIN));
    assert_eq!(c.offset(), 12);
}

#[test]
fn read_bytes_borrows_the_bytes_at_the_position() {
    let buf = [9u8, 0x46, 0x34, 0x66, 7];
    let mut c = Cursor::new(&buf);
    assert_eq!(c.read_u8(Field::MobileIdLength), Ok(9));
    assert_eq!(c.read_bytes(3, Field::MobileId), Ok(&[0x46u8, 0x34, 0x66][..]));
    assert_eq!(c.offset(), 4);
    assert_eq!(c.remaining(), &[7u8][..]);
    assert_eq!(c.read_bytes(0, Field::MobileId), Ok(&[][..]));
    assert_eq!(c.offset(), 4);
}

#[test]
fn a_read_past_the_end_fails_and_leaves_the_cursor() {
    let buf = [1u8, 2, 3];
    let mut c = Cursor::new(&buf);
    assert_eq!(c.read_u8(Field::Hdop), Ok(1));
    assert_eq!(
        c.read_u32(Field::UpdateTime),
        Err(DecodeError {
            kind: DecodeErrorKind::Truncated,
            field: Field::UpdateTime,
            offset: 1,
            expected: 4,
            actual: 2,
        })
    );
    assert_eq!(c.offset(), 1);
    assert_eq!(
        c.read_i32(Field::Latitude),
        Err(DecodeError {
            kind: DecodeErrorKind::Truncated,
            field: Field::Latitude,
            offset: 1,
            expected: 4,
            actual: 2,
        })
    );
    assert_eq!(
        c.read_bytes(3, Field::MobileId),
        Err(DecodeError {
            kind: DecodeErrorKind::Truncated,
            field: Field::MobileId,
            offset: 1,
            expected: 3,
            actual: 2,
        })
    );
    assert_eq!(c.read_u16(Field::Heading), Ok(0x0203));
    assert_eq!(
        c.read_u16(Field::Heading),
        Err(DecodeError {
            kind: DecodeErrorKind::Truncated,
            field: Field::Heading,
            offset: 3,
            expected: 2,
            actual: 0,
        })
    );
    assert_eq!(
        c.read_i16(Field::Rssi),
        Err(DecodeError {
            kind: DecodeErrorKind::Truncated,
            field: Field::Rssi,
            offset: 3,
            expected: 2,
            actual: 0,
        })
    );
    assert_eq!(
        c.read_u8(Field::Hdop),
        Err(DecodeError {
            kind: DecodeErrorKind::Truncated,
            field: Field::Hdop,
            offset: 3,
            expected: 1,
            actual: 0,
        })
    );
    assert_eq!(c.offset(), 3);
}

#[test]
fn the_position_never_passes_the_end() {
    let buf = [0u8; 7];
    let mut c = Cursor::new(&buf);
    let mut last = 0;
    for _ in 0..10 {
        let _ = c.read_u16(Field::Heading);
        assert!(c.offset() >= last);
        assert!(c.offset() <= buf.len());
        assert_eq!(c.offset() + c.len(), buf.len());
        last = c.offset();
    }
    assert_eq!(c.offset(), 6);
}

#[test]
fn a_failure_is_moved_by_the_offset_of_its_input() {
    let e = DecodeError {
        kind: DecodeErrorKind::InvalidEnumCode,
        field: Field::ServiceType,
        offset: 2,
        expected: 3,
        actual: 9,
    };
    let moved = e.at(9);
    assert_eq!(moved.offset, 11);
    assert_eq!(moved.kind, DecodeErrorKind::InvalidEnumCode);
    assert_eq!(moved.field, Field::ServiceType);
    assert_eq!(moved.expected, 3);
    assert_eq!(moved.actual, 9);
}
