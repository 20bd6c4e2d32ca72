//! The event report: fixed fields, four status bytes and a counted list of
//! accumulators.

use vstd::prelude::*;
use crate::bits::{bit_at, two_bits_at, BitReader};
use crate::cursor::Cursor;
use crate::error::{cut_short, is_prefix, truncated, viewed, DecodeError, Field};
use crate::utils::{be_i16_at, be_i32_at, be_u16_at, be_u32_at};

verus! {

/// The state of the GPS fix, one flag to the bit.
///
/// The byte is read from bit 7 down to bit 1, and the flags come out in the
/// reverse order of the fields: `invalid_time` is bit 7, `historic` bit 6,
/// `twod_fix` bit 5, `invalid_fix` bit 4, `last_know` bit 3, `diff_corrected`
/// bit 2 and `predicted` bit 1. Bit 0 is not read.
#[derive(Clone, Copy, Debug, PartialEq, Eq, Structural)]
pub struct FixStatus {
    /// Set when the position update has a horizontal position accuracy
    /// estimate below the configured threshold.
    pub predicted: bool,
    /// Set when WAAS DGPS is enabled and the position has been
    /// differentially corrected.
    pub diff_corrected: bool,
    /// Set when the current GPS fix is invalid but a previous fix's value is
    /// available.
    pub last_know: bool,
    /// Set only after a power-up or reset before a valid fix is obtained.
    pub invalid_fix: bool,
    /// Set when 3 or fewer satellites are used in the GPS fix, so that no
    /// altitude can be calculated.
    pub twod_fix: bool,
    /// Set when the message has been logged by the unit.
    pub historic: bool,
    /// Set only after a power-up or reset before a valid time-sync has been
    /// obtained.
    pub invalid_time: bool,
}

impl FixStatus {
    /// The value that the byte `b` holds.
    pub open spec fn of_byte(b: u8) -> FixStatus {
        FixStatus {
            predicted: bit_at(b, 1),
            diff_corrected: bit_at(b, 2),
            last_know: bit_at(b, 3),
            invalid_fix: bit_at(b, 4),
            twod_fix: bit_at(b, 5),
            historic: bit_at(b, 6),
            invalid_time: bit_at(b, 7),
        }
    }

    /// What the byte at `at` in `s` decodes to: the value and the position
    /// after it, or why there is none.
    pub open spec fn decoded_at(s: Seq<u8>, at: int) -> Result<(FixStatus, int), DecodeError> {
        if s.len() - at < 1 {
            Err(truncated(Field::FixStatus, at, 1, s.len() - at))
        } else {
            Ok((FixStatus::of_byte(s[at]), at + 1))
        }
    }

    /// The value that the byte `b` holds.
    pub fn from_byte(b: u8) -> (r: FixStatus)
        ensures
            r == FixStatus::of_byte(b),
    {
        let mut bits = BitReader::new(b);
        let invalid_time = bits.flag();
        let historic = bits.flag();
        let twod_fix = bits.flag();
        let invalid_fix = bits.flag();
        let last_know = bits.flag();
        let diff_corrected = bits.flag();
        let predicted = bits.flag();
        FixStatus {
            predicted,
            diff_corrected,
            last_know,
            invalid_fix,
            twod_fix,
            historic,
            invalid_time,
        }
    }

    /// Decodes the value from the byte at the cursor.
    pub fn read(c: &mut Cursor) -> (r: Result<FixStatus, DecodeError>)
        ensures
            final(c).decodes(*old(c), r, FixStatus::decoded_at(old(c).bytes(), old(c).position())),
    {
        let b = c.read_u8(Field::FixStatus)?;
        Ok(FixStatus::from_byte(b))
    }

    /// Decodes the value from the first byte of `input`, and hands out the
    /// bytes after it.
    pub fn parse<'a>(input: &'a [u8]) -> (r: Result<(&'a [u8], FixStatus), DecodeError>)
        ensures
            match (r, FixStatus::decoded_at(input@, 0)) {
                (Ok((rest, v)), Ok((value, end))) => v == value && 0 <= end <= input@.len()
                    && rest@ == input@.skip(end),
                (Err(e), Err(failure)) => e == failure,
                _ => false,
            },
    {
        let mut c = Cursor::new(input);
        let v = FixStatus::read(&mut c)?;
        Ok((c.remaining(), v))
    }
}

/// The generation of the network that the modem is on.
#[derive(Clone, Copy, Debug, PartialEq, Eq, Structural)]
pub enum NetworkTechnology {
    /// 2G
    CdmaGsm,
    /// 3G
    Umts,
    /// 4G
    Lte,
    /// Reserved network
    Reserved,
}

impl NetworkTechnology {
    /// The network technology that `code` stands for. The codes 0, 1 and 2
    /// are in use; every other code is reserved.
    pub open spec fn of_code(code: int) -> NetworkTechnology {
        if code == 0 {
            NetworkTechnology::CdmaGsm
        } else if code == 1 {
            NetworkTechnology::Umts
        } else if code == 2 {
            NetworkTechnology::Lte
        } else {
            NetworkTechnology::Reserved
        }
    }

    /// The name of this network technology as text.
    pub open spec fn label(self) -> Seq<char> {
        match self {
            NetworkTechnology::CdmaGsm => "NetworkTechnology::CdmaGsm"@,
            NetworkTechnology::Umts => "NetworkTechnology::Umts"@,
            NetworkTechnology::Lte => "NetworkTechnology::Lte"@,
            NetworkTechnology::Reserved => "NetworkTechnology::Reserved"@,
        }
    }

    /// The network technology that `input` stands for.
    pub fn parse(input: u8) -> (r: NetworkTechnology)
        ensures
            r == NetworkTechnology::of_code(input as int),
    {
        match input {
            0 => NetworkTechnology::CdmaGsm,
            1 => NetworkTechnology::Umts,
            2 => NetworkTechnology::Lte,
            _ => NetworkTechnology::Reserved,
        }
    }

    /// The name of this network technology as text.
    pub fn to_string(&self) -> (r: String)
        ensures
            r@ == self.label(),
    {
        let name = match self {
            NetworkTechnology::CdmaGsm => "NetworkTechnology::CdmaGsm",
            NetworkTechnology::Umts => "NetworkTechnology::Umts",
            NetworkTechnology::Lte => "NetworkTechnology::Lte",
            NetworkTechnology::Reserved => "NetworkTechnology::Reserved",
        };
        name.to_owned()
    }
}

/// The state of the wireless modem.
///
/// The byte is read from bit 7 down: bits 7 and 6 spell the network
/// technology, then the flags come out in the reverse order of the fields,
/// from `roaming`, bit 5, to `available`, bit 0.
#[derive(Clone, Copy, Debug, PartialEq, Eq, Structural)]
pub struct CommState {
    /// Available
    pub available: bool,
    /// Network service
    pub network_service: bool,
    /// Data service
    pub data_service: bool,
    /// Connected (PPP session up)
    pub connected: bool,
    /// Voice call is active
    pub voice_call_active: bool,
    /// Roaming
    pub roaming: bool,
    /// Network technology
    pub network_technology: NetworkTechnology,
}

impl CommState {
    /// The value that the byte `b` holds.
    pub open spec fn of_byte(b: u8) -> CommState {
        CommState {
            available: bit_at(b, 0),
            network_service: bit_at(b, 1),
            data_service: bit_at(b, 2),
            connected: bit_at(b, 3),
            voice_call_active: bit_at(b, 4),
            roaming: bit_at(b, 5),
            network_technology: NetworkTechnology::of_code(two_bits_at(b, 6)),
        }
    }

    /// What the byte at `at` in `s` decodes to: the value and the position
    /// after it, or why there is none.
    pub open spec fn decoded_at(s: Seq<u8>, at: int) -> Result<(CommState, int), DecodeError> {
        if s.len() - at < 1 {
            Err(truncated(Field::CommState, at, 1, s.len() - at))
        } else {
            Ok((CommState::of_byte(s[at]), at + 1))
        }
    }

    /// The value that the byte `b` holds.
    pub fn from_byte(b: u8) -> (r: CommState)
        ensures
            r == CommState::of_byte(b),
    {
        let mut bits = BitReader::new(b);
        let network_technology = NetworkTechnology::parse(bits.pair());
        let roaming = bits.flag();
        let voice_call_active = bits.flag();
        let connected = bits.flag();
        let data_service = bits.flag();
        let network_service = bits.flag();
        let available = bits.flag();
        CommState {
            available,
            network_service,
            data_service,
            connected,
            voice_call_active,
            roaming,
            network_technology,
        }
    }

    /// Decodes the value from the byte at the cursor.
    pub fn read(c: &mut Cursor) -> (r: Result<CommState, DecodeError>)
        ensures
            final(c).decodes(*old(c), r, CommState::decoded_at(old(c).bytes(), old(c).position())),
    {
        let b = c.read_u8(Field::CommState)?;
        Ok(CommState::from_byte(b))
    }

    /// Decodes the value from the first byte of `input`, and hands out the
    /// bytes after it.
    pub fn parse<'a>(input: &'a [u8]) -> (r: Result<(&'a [u8], CommState), DecodeError>)
        ensures
            match (r, CommState::decoded_at(input@, 0)) {
                (Ok((rest, v)), Ok((value, end))) => v == value && 0 <= end <= input@.len()
                    && rest@ == input@.skip(end),
                (Err(e), Err(failure)) => e == failure,
                _ => false,
            },
    {
        let mut c = Cursor::new(input);
        let v = CommState::read(&mut c)?;
        Ok((c.remaining(), v))
    }
}

/// The state of the inputs.
///
/// The byte is read from bit 7 down, and the flags come out in the reverse
/// order of the fields: `input_7` is bit 7 and `ignition` is bit 0.
#[derive(Clone, Copy, Debug, PartialEq, Eq, Structural)]
pub struct Inputs {
    /// Ignition
    pub ignition: bool,
    /// Input 1
    pub input_1: bool,
    /// Input 2
    pub input_2: bool,
    /// Input 3
    pub input_3: bool,
    /// Input 4
    pub input_4: bool,
    /// Input 5
    pub input_5: bool,
    /// Input 6
    pub input_6: bool,
    /// Input 7
    pub input_7: bool,
}

impl Inputs {
    /// The value that the byte `b` holds.
    pub open spec fn of_byte(b: u8) -> Inputs {
        Inputs {
            ignition: bit_at(b, 0),
            input_1: bit_at(b, 1),
            input_2: bit_at(b, 2),
            input_3: bit_at(b, 3),
            input_4: bit_at(b, 4),
            input_5: bit_at(b, 5),
            input_6: bit_at(b, 6),
            input_7: bit_at(b, 7),
        }
    }

    /// What the byte at `at` in `s` decodes to: the value and the position
    /// after it, or why there is none.
    pub open spec fn decoded_at(s: Seq<u8>, at: int) -> Result<(Inputs, int), DecodeError> {
        if s.len() - at < 1 {
            Err(truncated(Field::Inputs, at, 1, s.len() - at))
        } else {
            Ok((Inputs::of_byte(s[at]), at + 1))
        }
    }

    /// The value that the byte `b` holds.
    pub fn from_byte(b: u8) -> (r: Inputs)
        ensures
            r == Inputs::of_byte(b),
    {
        let mut bits = BitReader::new(b);
        let input_7 = bits.flag();
        let input_6 = bits.flag();
        let input_5 = bits.flag();
        let input_4 = bits.flag();
        let input_3 = bits.flag();
        let input_2 = bits.flag();
        let input_1 = bits.flag();
        let ignition = bits.flag();
        Inputs {
            ignition,
            input_1,
            input_2,
            input_3,
            input_4,
            input_5,
            input_6,
            input_7,
        }
    }

    /// Decodes the value from the byte at the cursor.
    pub fn read(c: &mut Cursor) -> (r: Result<Inputs, DecodeError>)
        ensures
            final(c).decodes(*old(c), r, Inputs::decoded_at(old(c).bytes(), old(c).position())),
    {
        let b = c.read_u8(Field::Inputs)?;
        Ok(Inputs::from_byte(b))
    }

    /// Decodes the value from the first byte of `input`, and hands out the
    /// bytes after it.
    pub fn parse<'a>(input: &'a [u8]) -> (r: Result<(&'a [u8], Inputs), DecodeError>)
        ensures
            match (r, Inputs::decoded_at(input@, 0)) {
                (Ok((rest, v)), Ok((value, end))) => v == value && 0 <= end <= input@.len()
                    && rest@ == input@.skip(end),
                (Err(e), Err(failure)) => e == failure,
                _ => false,
            },
    {
        let mut c = Cursor::new(input);
        let v = Inputs::read(&mut c)?;
        Ok((c.remaining(), v))
    }
}

/// The state of key modules within the unit.
///
/// A bit that is clear reports that the module is in order, and the field
/// of that bit is then `true`: each field says that all is well. The byte is
/// read from bit 7 down, and the flags come out in the reverse order of the
/// fields: `unused` is bit 7 and `ota_update` is bit 0.
#[derive(Clone, Copy, Debug, PartialEq, Eq, Structural)]
pub struct UnitStatus {
    /// HTTP OTA update status: `true` when bit 0 is clear, no error.
    pub ota_update: bool,
    /// GPS antenna status: `true` when bit 1 is clear, no error.
    pub gps_antenna: bool,
    /// GPS receiver self-test: `true` when bit 2 is clear, no error.
    pub gps_self_test: bool,
    /// GPS receiver tracking: `true` when bit 3 is clear, the receiver tracks.
    pub gps_tracking: bool,
    /// Reserved: `true` when bit 4 is clear.
    pub reserved_1: bool,
    /// Reserved: `true` when bit 5 is clear.
    pub reserved_2: bool,
    /// Reserved: `true` when bit 6 is clear.
    pub reserved_3: bool,
    /// Unused: `true` when bit 7 is clear.
    pub unused: bool,
}

impl UnitStatus {
    /// The value that the byte `b` holds.
    pub open spec fn of_byte(b: u8) -> UnitStatus {
        UnitStatus {
            ota_update: !bit_at(b, 0),
            gps_antenna: !bit_at(b, 1),
            gps_self_test: !bit_at(b, 2),
            gps_tracking: !bit_at(b, 3),
            reserved_1: !bit_at(b, 4),
            reserved_2: !bit_at(b, 5),
            reserved_3: !bit_at(b, 6),
            unused: !bit_at(b, 7),
        }
    }

    /// What the byte at `at` in `s` decodes to: the value and the position
    /// after it, or why there is none.
    pub open spec fn decoded_at(s: Seq<u8>, at: int) -> Result<(UnitStatus, int), DecodeError> {
        if s.len() - at < 1 {
            Err(truncated(Field::UnitStatus, at, 1, s.len() - at))
        } else {
            Ok((UnitStatus::of_byte(s[at]), at + 1))
        }
    }

    /// The value that the byte `b` holds.
    pub fn from_byte(b: u8) -> (r: UnitStatus)
        ensures
            r == UnitStatus::of_byte(b),
    {
        let mut bits = BitReader::new(b);
        let unused = !bits.flag();
        let reserved_3 = !bits.flag();
        let reserved_2 = !bits.flag();
        let reserved_1 = !bits.flag();
        let gps_tracking = !bits.flag();
        let gps_self_test = !bits.flag();
        let gps_antenna = !bits.flag();
        let ota_update = !bits.flag();
        UnitStatus {
            ota_update,
            gps_antenna,
            gps_self_test,
            gps_tracking,
            reserved_1,
            reserved_2,
            reserved_3,
            unused,
        }
    }

    /// Decodes the value from the byte at the cursor.
    pub fn read(c: &mut Cursor) -> (r: Result<UnitStatus, DecodeError>)
        ensures
            final(c).decodes(*old(c), r, UnitStatus::decoded_at(old(c).bytes(), old(c).position())),
    {
        let b = c.read_u8(Field::UnitStatus)?;
        Ok(UnitStatus::from_byte(b))
    }

    /// Decodes the value from the first byte of `input`, and hands out the
    /// bytes after it.
    pub fn parse<'a>(input: &'a [u8]) -> (r: Result<(&'a [u8], UnitStatus), DecodeError>)
        ensures
            match (r, UnitStatus::decoded_at(input@, 0)) {
                (Ok((rest, v)), Ok((value, end))) => v == value && 0 <= end <= input@.len()
                    && rest@ == input@.skip(end),
                (Err(e), Err(failure)) => e == failure,
                _ => false,
            },
    {
        let mut c = Cursor::new(input);
        let v = UnitStatus::read(&mut c)?;
        Ok((c.remaining(), v))
    }
    /// Whether the unit reports an error of the HTTP OTA update: bit 0 set.
    pub fn ota_update_error(&self) -> (r: bool)
        ensures
            r == !self.ota_update,
    {
        !self.ota_update
    }

    /// Whether the unit reports an error of the GPS antenna: bit 1 set.
    pub fn gps_antenna_error(&self) -> (r: bool)
        ensures
            r == !self.gps_antenna,
    {
        !self.gps_antenna
    }

    /// Whether the unit reports an error of the GPS receiver's self-test:
    /// bit 2 set.
    pub fn gps_self_test_error(&self) -> (r: bool)
        ensures
            r == !self.gps_self_test,
    {
        !self.gps_self_test
    }

    /// Whether the unit reports that the GPS receiver does not track: bit 3
    /// set.
    pub fn gps_not_tracking(&self) -> (r: bool)
        ensures
            r == !self.gps_tracking,
    {
        !self.gps_tracking
    }
}

/// The number of latitude or longitude units in one degree.
pub const DEGREE: i32 = 10_000_000;

/// The number of altitude units in one metre, and of speed units in one
/// metre per second.
pub const METRE: i32 = 100;

/// The number of bytes of an event report in front of its accumulators.
pub const FIXED_LEN: usize = 40;

/// The number of bytes of one accumulator.
pub const ACCUM_LEN: usize = 4;

/// Event report
///
/// A message that the unit's event generator initiates. Numbers are kept as
/// they stand in the packet: no field is scaled.
#[derive(Debug, PartialEq, Eq)]
pub struct EventReport {
    /// The time tag of the message, in seconds since the epoch.
    pub update_time: u32,
    /// The last known time of fix from the GPS satellites, in seconds since
    /// the epoch.
    pub time_of_fix: u32,
    /// The latitude reading of the GPS receiver, in units of which `DEGREE`
    /// make one degree.
    pub latitude: i32,
    /// The longitude reading of the GPS receiver, in units of which `DEGREE`
    /// make one degree.
    pub longitude: i32,
    /// The altitude reading of the GPS receiver above the WGS-84 datum, in
    /// units of which `METRE` make one metre.
    pub altitude: i32,
    /// The speed as reported by the GPS receiver, in units of which `METRE`
    /// make one metre per second.
    pub speed: i32,
    /// The heading in degrees from true North.
    pub heading: u16,
    /// The number of satellites used in the GPS solution.
    pub satellites: u8,
    /// The fix status of the GPS receiver.
    pub fix_status: FixStatus,
    /// The identifier of the carrier that the wireless modem is using: the
    /// mobile network code, or for CDMA networks the system identification
    /// number.
    pub carrier: u16,
    /// The received signal strength of the wireless modem in dBm.
    pub rssi: i16,
    /// The state of the wireless modem.
    pub comm_state: CommState,
    /// The GPS horizontal dilution of precision, in tenths.
    pub hdop: u8,
    /// The state of the inputs.
    pub inputs: Inputs,
    /// The status of key modules within the unit.
    pub unit_status: UnitStatus,
    /// The index number of the event that generated the report, from 0 to
    /// 249; 255 stands for a real time request.
    pub event_index: u8,
    /// The event code assigned to the report.
    pub event_code: u8,
    /// The number of values in `accum_list`.
    pub accums: u8,
    /// Which kinds of data are appended after the accumulators, one bit to
    /// the kind. Appended data is not decoded.
    pub append: u8,
    /// The accumulators, four bytes each, as many as `accums` says.
    pub accum_list: Vec<u32>,
}

/// An event report as plain values: the accumulators as a sequence.
pub struct EventReportView {
    pub update_time: u32,
    pub time_of_fix: u32,
    pub latitude: i32,
    pub longitude: i32,
    pub altitude: i32,
    pub speed: i32,
    pub heading: u16,
    pub satellites: u8,
    pub fix_status: FixStatus,
    pub carrier: u16,
    pub rssi: i16,
    pub comm_state: CommState,
    pub hdop: u8,
    pub inputs: Inputs,
    pub unit_status: UnitStatus,
    pub event_index: u8,
    pub event_code: u8,
    pub accums: u8,
    pub append: u8,
    pub accum_list: Seq<u32>,
}

impl View for EventReport {
    type V = EventReportView;

    open spec fn view(&self) -> EventReportView {
        EventReportView {
            update_time: self.update_time,
            time_of_fix: self.time_of_fix,
            latitude: self.latitude,
            longitude: self.longitude,
            altitude: self.altitude,
            speed: self.speed,
            heading: self.heading,
            satellites: self.satellites,
            fix_status: self.fix_status,
            carrier: self.carrier,
            rssi: self.rssi,
            comm_state: self.comm_state,
            hdop: self.hdop,
            inputs: self.inputs,
            unit_status: self.unit_status,
            event_index: self.event_index,
            event_code: self.event_code,
            accums: self.accums,
            append: self.append,
            accum_list: self.accum_list@,
        }
    }
}

impl EventReport {
    /// The failure of the first fixed field for which the `left` bytes from
    /// `at` on do not suffice, if there is one.
    pub open spec fn missing_field(at: int, left: int) -> Option<DecodeError> {
        if left < 4 {
            Some(truncated(Field::UpdateTime, at, 4, left))
        } else if left < 8 {
            Some(truncated(Field::TimeOfFix, at + 4, 4, left - 4))
        } else if left < 12 {
            Some(truncated(Field::Latitude, at + 8, 4, left - 8))
        } else if left < 16 {
            Some(truncated(Field::Longitude, at + 12, 4, left - 12))
        } else if left < 20 {
            Some(truncated(Field::Altitude, at + 16, 4, left - 16))
        } else if left < 24 {
            Some(truncated(Field::Speed, at + 20, 4, left - 20))
        } else if left < 26 {
            Some(truncated(Field::Heading, at + 24, 2, left - 24))
        } else if left < 27 {
            Some(truncated(Field::Satellites, at + 26, 1, left - 26))
        } else if left < 28 {
            Some(truncated(Field::FixStatus, at + 27, 1, left - 27))
        } else if left < 30 {
            Some(truncated(Field::Carrier, at + 28, 2, left - 28))
        } else if left < 32 {
            Some(truncated(Field::Rssi, at + 30, 2, left - 30))
        } else if left < 33 {
            Some(truncated(Field::CommState, at + 32, 1, left - 32))
        } else if left < 34 {
            Some(truncated(Field::Hdop, at + 33, 1, left - 33))
        } else if left < 35 {
            Some(truncated(Field::Inputs, at + 34, 1, left - 34))
        } else if left < 36 {
            Some(truncated(Field::UnitStatus, at + 35, 1, left - 35))
        } else if left < 37 {
            Some(truncated(Field::EventIndex, at + 36, 1, left - 36))
        } else if left < 38 {
            Some(truncated(Field::EventCode, at + 37, 1, left - 37))
        } else if left < 39 {
            Some(truncated(Field::Accums, at + 38, 1, left - 38))
        } else if left < 40 {
            Some(truncated(Field::Append, at + 39, 1, left - 39))
        } else {
            None
        }
    }

    /// The failure of the first of `count` accumulators for which the `left`
    /// bytes from `at` on do not suffice; none if they all fit.
    pub open spec fn missing_accum(at: int, left: int, count: int) -> Option<DecodeError> {
        if left < ACCUM_LEN * count {
            Some(
                truncated(
                    Field::AccumList,
                    at + ACCUM_LEN * (left / (ACCUM_LEN as int)),
                    ACCUM_LEN as int,
                    left % (ACCUM_LEN as int),
                ),
            )
        } else {
            None
        }
    }

    /// The `count` accumulators that stand in `s` from `at` on.
    pub open spec fn accums_at(s: Seq<u8>, at: int, count: int) -> Seq<u32> {
        Seq::new(count as nat, |k: int| be_u32_at(s, at + ACCUM_LEN * k) as u32)
    }

    /// What the bytes from `at` on in `s` decode to as `count` accumulators:
    /// their values and the position after them, or the failure of the first
    /// one for which the bytes do not suffice.
    pub open spec fn accums_decoded_at(s: Seq<u8>, at: int, count: int) -> Result<
        (Seq<u32>, int),
        DecodeError,
    > {
        if let Some(failure) = EventReport::missing_accum(at, s.len() - at, count) {
            Err(failure)
        } else {
            Ok((EventReport::accums_at(s, at, count), at + ACCUM_LEN * count))
        }
    }

    /// The fixed fields of the event report whose encoding starts at `at` in
    /// `s`, with no accumulator.
    pub open spec fn fixed_at(s: Seq<u8>, at: int) -> EventReportView {
        EventReportView {
            update_time: be_u32_at(s, at) as u32,
            time_of_fix: be_u32_at(s, at + 4) as u32,
            latitude: be_i32_at(s, at + 8) as i32,
            longitude: be_i32_at(s, at + 12) as i32,
            altitude: be_i32_at(s, at + 16) as i32,
            speed: be_i32_at(s, at + 20) as i32,
            heading: be_u16_at(s, at + 24) as u16,
            satellites: s[at + 26],
            fix_status: FixStatus::of_byte(s[at + 27]),
            carrier: be_u16_at(s, at + 28) as u16,
            rssi: be_i16_at(s, at + 30) as i16,
            comm_state: CommState::of_byte(s[at + 32]),
            hdop: s[at + 33],
            inputs: Inputs::of_byte(s[at + 34]),
            unit_status: UnitStatus::of_byte(s[at + 35]),
            event_index: s[at + 36],
            event_code: s[at + 37],
            accums: s[at + 38],
            append: s[at + 39],
            accum_list: Seq::empty(),
        }
    }

    /// What the bytes from `at` on in `s` decode to as the fixed fields of
    /// an event report: the report without accumulators and the position
    /// after the fixed fields, or the failure of the first field for which
    /// the bytes do not suffice.
    pub open spec fn fixed_decoded_at(s: Seq<u8>, at: int) -> Result<
        (EventReportView, int),
        DecodeError,
    > {
        if let Some(failure) = EventReport::missing_field(at, s.len() - at) {
            Err(failure)
        } else {
            Ok((EventReport::fixed_at(s, at), at + FIXED_LEN))
        }
    }

    /// What the bytes from `at` on in `s` decode to: the event report and the
    /// position after it, or the failure of the first field for which the
    /// bytes do not suffice. The fixed fields take `FIXED_LEN` bytes; the
    /// accumulators follow, as many as the field `accums` says.
    pub open spec fn decoded_at(s: Seq<u8>, at: int) -> Result<
        (EventReportView, int),
        DecodeError,
    > {
        match EventReport::fixed_decoded_at(s, at) {
            Err(failure) => Err(failure),
            Ok((fixed, after_fixed)) => {
                let count = fixed.accums as int;
                match EventReport::accums_decoded_at(s, after_fixed, count) {
                    Err(failure) => Err(failure),
                    Ok((accum_list, end)) => Ok((EventReportView { accum_list, ..fixed }, end)),
                }
            },
        }
    }

    /// An event report that decodes ends within the buffer, after the fixed
    /// fields and the accumulators, and holds as many accumulators as its
    /// field `accums` says.
    pub proof fn lemma_end(s: Seq<u8>, at: int)
        requires
            0 <= at,
            EventReport::decoded_at(s, at) is Ok,
        ensures
            ({
                let (v, end) = EventReport::decoded_at(s, at).unwrap();
                &&& v.accum_list.len() == v.accums
                &&& end == at + FIXED_LEN + ACCUM_LEN * v.accums
                &&& end <= s.len()
            }),
    {
    }

    /// Of a buffer in which an event report stands at `at`, a prefix that
    /// ends within the report fails as truncated, and a prefix that holds
    /// the report whole decodes to the same report.
    pub proof fn lemma_prefix(s: Seq<u8>, t: Seq<u8>, at: int)
        requires
            0 <= at,
            is_prefix(t, s),
        ensures
            cut_short(t, EventReport::decoded_at(s, at), EventReport::decoded_at(t, at)),
    {
        if let Ok((v, end)) = EventReport::decoded_at(s, at) {
            if t.len() >= end {
                let count = s[at + 38] as int;
                assert(EventReport::accums_at(s, at + FIXED_LEN, count) =~= EventReport::accums_at(
                    t,
                    at + FIXED_LEN,
                    count,
                ));
            }
        }
    }

    /// Decodes the fixed fields of an event report from the bytes at the
    /// cursor. The list of accumulators of the result is empty.
    pub fn read_fixed(c: &mut Cursor) -> (r: Result<EventReport, DecodeError>)
        ensures
            final(c).decodes(
                *old(c),
                viewed(r),
                EventReport::fixed_decoded_at(old(c).bytes(), old(c).position()),
            ),
    {
        // Each assertion states where the cursor stands after a field.
        let ghost at = c.position();
        let update_time = c.read_u32(Field::UpdateTime)?;
        assert(c.position() == at + 4);
        let time_of_fix = c.read_u32(Field::TimeOfFix)?;
        assert(c.position() == at + 8);
        let latitude = c.read_i32(Field::Latitude)?;
        assert(c.position() == at + 12);
        let longitude = c.read_i32(Field::Longitude)?;
        assert(c.position() == at + 16);
        let altitude = c.read_i32(Field::Altitude)?;
        assert(c.position() == at + 20);
        let speed = c.read_i32(Field::Speed)?;
        assert(c.position() == at + 24);
        let heading = c.read_u16(Field::Heading)?;
        assert(c.position() == at + 26);
        let satellites = c.read_u8(Field::Satellites)?;
        assert(c.position() == at + 27);
        let fix_status = FixStatus::read(c)?;
        assert(c.position() == at + 28);
        let carrier = c.read_u16(Field::Carrier)?;
        assert(c.position() == at + 30);
        let rssi = c.read_i16(Field::Rssi)?;
        assert(c.position() == at + 32);
        let comm_state = CommState::read(c)?;
        assert(c.position() == at + 33);
        let hdop = c.read_u8(Field::Hdop)?;
        assert(c.position() == at + 34);
        let inputs = Inputs::read(c)?;
        assert(c.position() == at + 35);
        let unit_status = UnitStatus::read(c)?;
        assert(c.position() == at + 36);
        let event_index = c.read_u8(Field::EventIndex)?;
        assert(c.position() == at + 37);
        let event_code = c.read_u8(Field::EventCode)?;
        assert(c.position() == at + 38);
        let accums = c.read_u8(Field::Accums)?;
        assert(c.position() == at + 39);
        let append = c.read_u8(Field::Append)?;
        assert(c.position() == at + 40);
        Ok(
            EventReport {
                update_time,
            time_of_fix,
            latitude,
            longitude,
            altitude,
            speed,
            heading,
            satellites,
            fix_status,
            carrier,
            rssi,
            comm_state,
            hdop,
            inputs,
            unit_status,
            event_index,
            event_code,
            accums,
            append,
                accum_list: Vec::new(),
            },
        )
    }

    /// Decodes `count` accumulators from the bytes at the cursor, in the
    /// order in which they stand.
    pub fn read_accums(c: &mut Cursor, count: u8) -> (r: Result<Vec<u32>, DecodeError>)
        ensures
            final(c).decodes(
                *old(c),
                viewed(r),
                EventReport::accums_decoded_at(old(c).bytes(), old(c).position(), count as int),
            ),
    {
        let ghost s = c.bytes();
        let at = c.offset();
        let mut accum_list: Vec<u32> = Vec::new();
        let mut k: u8 = 0;
        while k < count
            invariant
                0 <= k <= count,
                s == old(c).bytes(),
                at == old(c).position(),
                c.in_bounds(),
                c.bytes() == s,
                c.position() == at + ACCUM_LEN * k,
                accum_list@ == EventReport::accums_at(s, at as int, k as int),
            decreases count - k,
        {
            let v = match c.read_u32(Field::AccumList) {
                Ok(v) => v,
                Err(e) => {
                    proof {
                        let left = s.len() - at;
                        assert(ACCUM_LEN * k <= left < ACCUM_LEN * k + ACCUM_LEN);
                        assert(left / (ACCUM_LEN as int) == k);
                        assert(left % (ACCUM_LEN as int) == left - ACCUM_LEN * k);
                    }
                    return Err(e);
                },
            };
            accum_list.push(v);
            k = k + 1;
            assert(accum_list@ =~= EventReport::accums_at(s, at as int, k as int));
        }
        Ok(accum_list)
    }

    /// Decodes an event report from the bytes at the cursor. Bytes after the
    /// last accumulator are left where they are.
    pub fn read(c: &mut Cursor) -> (r: Result<EventReport, DecodeError>)
        ensures
            final(c).decodes(
                *old(c),
                viewed(r),
                EventReport::decoded_at(old(c).bytes(), old(c).position()),
            ),
    {
        let mut report = EventReport::read_fixed(c)?;
        let accum_list = EventReport::read_accums(c, report.accums)?;
        report.accum_list = accum_list;
        Ok(report)
    }

    /// Decodes an event report from the start of `input`.
    pub fn parse(input: &[u8]) -> (r: Result<EventReport, DecodeError>)
        ensures
            match (r, EventReport::decoded_at(input@, 0)) {
                (Ok(v), Ok((value, end))) => v@ == value && 0 <= end <= input@.len(),
                (Err(e), Err(failure)) => e == failure,
                _ => false,
            },
    {
        let mut c = Cursor::new(input);
        EventReport::read(&mut c)
    }
}

} // verus!
