use vstd::prelude::*;

verus! {

/// Size in bytes of one Forza Horizon Data Out datagram.
pub const PACKET_SIZE: usize = 324;

/// A decoded Data Out packet.
///
/// The wire format carries several quantities as IEEE-754 single-precision
/// floats. This type keeps those as their raw bit patterns (fields ending in
/// `_bits`); `f32::from_bits` turns them into values.
#[derive(Clone, Debug, PartialEq, Eq)]
pub struct Telemetry {
    pub race_on: bool,
    pub timestamp_ms: u32,
    pub engine_max_rpm_bits: u32,
    pub engine_idle_rpm_bits: u32,
    pub current_engine_rpm_bits: u32,
    pub yaw_bits: u32,
    pub power_w_bits: u32,
    pub torque_nm_bits: u32,
    pub race_position: u8,
    pub throttle: u8,
    pub car_ordinal: i32,
    pub num_cylinders: i32,
    pub position_bits: [u32; 3],
    pub speed_mps_bits: u32,
    pub boost_psi_bits: u32,
    pub fuel_bits: u32,
    pub distance_m_bits: u32,
    pub gear: u8,
}

/// Why a datagram was not accepted as a Data Out packet.
#[derive(Debug, PartialEq, Eq)]
pub enum ParseError {
    WrongSize { actual: usize },
}

/// The unsigned little-endian 32-bit word stored at `offset`.
pub open spec fn le_u32(bytes: Seq<u8>, offset: int) -> u32 {
    (bytes[offset] as int + bytes[offset + 1] as int * 0x100 + bytes[offset + 2] as int * 0x1_0000
        + bytes[offset + 3] as int * 0x100_0000) as u32
}

/// The two's-complement little-endian 32-bit word stored at `offset`.
pub open spec fn le_i32(bytes: Seq<u8>, offset: int) -> i32 {
    le_u32(bytes, offset) as i32
}

/// The packet layout: which bytes make up each field.
pub open spec fn decode(bytes: Seq<u8>) -> Telemetry {
    Telemetry {
        race_on: le_i32(bytes, 0) == 1,
        timestamp_ms: le_u32(bytes, 4),
        engine_max_rpm_bits: le_u32(bytes, 8),
        engine_idle_rpm_bits: le_u32(bytes, 12),
        current_engine_rpm_bits: le_u32(bytes, 16),
        yaw_bits: le_u32(bytes, 56),
        power_w_bits: le_u32(bytes, 260),
        torque_nm_bits: le_u32(bytes, 264),
        race_position: bytes[314],
        throttle: bytes[315],
        car_ordinal: le_i32(bytes, 212),
        num_cylinders: le_i32(bytes, 228),
        position_bits: [le_u32(bytes, 244), le_u32(bytes, 248), le_u32(bytes, 252)],
        speed_mps_bits: le_u32(bytes, 256),
        boost_psi_bits: le_u32(bytes, 284),
        fuel_bits: le_u32(bytes, 288),
        distance_m_bits: le_u32(bytes, 292),
        gear: bytes[319],
    }
}

/// Decodes a datagram; only datagrams of exactly `PACKET_SIZE` bytes are accepted.
pub fn parse(packet: &[u8]) -> (result: Result<Telemetry, ParseError>)
    ensures
        packet@.len() == PACKET_SIZE ==> result == Ok::<Telemetry, ParseError>(decode(packet@)),
        packet@.len() != PACKET_SIZE ==> result == Err::<Telemetry, ParseError>(
            ParseError::WrongSize { actual: packet@.len() as usize },
        ),
{
    if packet.len() != PACKET_SIZE {
        return Err(ParseError::WrongSize { actual: packet.len() });
    }
    let telemetry = Telemetry {
        race_on: i32_at(packet, 0) == 1,
        timestamp_ms: u32_at(packet, 4),
        engine_max_rpm_bits: u32_at(packet, 8),
        engine_idle_rpm_bits: u32_at(packet, 12),
        current_engine_rpm_bits: u32_at(packet, 16),
        yaw_bits: u32_at(packet, 56),
        power_w_bits: u32_at(packet, 260),
        torque_nm_bits: u32_at(packet, 264),
        race_position: packet[314],
        throttle: packet[315],
        car_ordinal: i32_at(packet, 212),
        num_cylinders: i32_at(packet, 228),
        position_bits: [u32_at(packet, 244), u32_at(packet, 248), u32_at(packet, 252)],
        speed_mps_bits: u32_at(packet, 256),
        boost_psi_bits: u32_at(packet, 284),
        fuel_bits: u32_at(packet, 288),
        distance_m_bits: u32_at(packet, 292),
        gear: packet[319],
    };
    Ok(telemetry)
}

fn i32_at(packet: &[u8], offset: usize) -> (value: i32)
    requires
        offset + 4 <= packet@.len(),
    ensures
        value == le_i32(packet@, offset as int),
{
    u32_at(packet, offset) as i32
}

fn u32_at(packet: &[u8], offset: usize) -> (value: u32)
    requires
        offset + 4 <= packet@.len(),
    ensures
        value == le_u32(packet@, offset as int),
{
    let b0 = packet[offset] as u32;
    let b1 = packet[offset + 1] as u32;
    let b2 = packet[offset + 2] as u32;
    let b3 = packet[offset + 3] as u32;
    b0 + b1 * 0x100 + b2 * 0x1_0000 + b3 * 0x100_0000
}

} // verus!

verus! {

/// Milliseconds from the previous sample to `now` that count toward distance,
/// fuel and refuelling: the wrapping difference of the packet timestamps when it
/// is at most one second, otherwise (and without a previous sample) zero.
pub open spec fn sample_interval(previous: Option<u32>, now: u32) -> u32 {
    match previous {
        Some(previous) => {
            let elapsed = now.wrapping_sub(previous);
            if elapsed <= 1000 {
                elapsed
            } else {
                0
            }
        },
        None => 0,
    }
}

pub fn sample_interval_ms(previous: Option<u32>, now: u32) -> (elapsed: u32)
    ensures
        elapsed == sample_interval(previous, now),
        elapsed <= 1000,
{
    match previous {
        Some(previous) => {
            let elapsed = now.wrapping_sub(previous);
            if elapsed <= 1000 {
                elapsed
            } else {
                0
            }
        },
        None => 0,
    }
}

/// Tracks the packets during which fuel is being pumped, so that each one adds
/// fuel for the time since the previous one of the same car.
pub struct RefuelTracker {
    last: Option<(i32, u32)>,
}

impl View for RefuelTracker {
    type V = Option<(i32, u32)>;

    closed spec fn view(&self) -> Option<(i32, u32)> {
        self.last
    }
}

/// The previous pumping sample's timestamp, if it was taken for `car`.
pub open spec fn previous_for(last: Option<(i32, u32)>, car: i32) -> Option<u32> {
    match last {
        Some((previous_car, timestamp)) => if previous_car == car {
            Some(timestamp)
        } else {
            None
        },
        None => None,
    }
}

impl RefuelTracker {
    pub fn new() -> (tracker: Self)
        ensures
            tracker@ is None,
    {
        RefuelTracker { last: None }
    }

    /// Takes one packet; `pumping` tells whether fuel is being pumped into `car`
    /// during it. Returns the milliseconds of pumping to credit.
    pub fn step(&mut self, pumping: bool, car: i32, timestamp_ms: u32) -> (pumped_ms: u32)
        ensures
            pumping ==> pumped_ms == sample_interval(previous_for(old(self)@, car), timestamp_ms)
                && final(self)@ == Some((car, timestamp_ms)),
            !pumping ==> pumped_ms == 0 && final(self)@ is None,
    {
        if pumping {
            let previous = match self.last {
                Some((previous_car, timestamp)) => if previous_car == car {
                    Some(timestamp)
                } else {
                    None
                },
                None => None,
            };
            self.last = Some((car, timestamp_ms));
            sample_interval_ms(previous, timestamp_ms)
        } else {
            self.last = None;
            0
        }
    }
}

} // verus!

verus! {

/// The four little-endian bytes of `value`.
pub open spec fn le_bytes(value: u32) -> Seq<u8> {
    seq![
        (value % 0x100) as u8,
        ((value / 0x100) % 0x100) as u8,
        ((value / 0x1_0000) % 0x100) as u8,
        (value / 0x100_0000) as u8,
    ]
}

/// A field reads back the value whose little-endian bytes were written at its
/// offset, for unsigned and for two's-complement fields alike.
pub proof fn lemma_field_reads_back_written_value(bytes: Seq<u8>, offset: int, value: u32, signed: i32)
    requires
        0 <= offset,
        offset + 4 <= bytes.len(),
        bytes.subrange(offset, offset + 4) == le_bytes(value),
    ensures
        le_u32(bytes, offset) == value,
        value == signed as u32 ==> le_i32(bytes, offset) == signed,
{
    assert(bytes[offset] == le_bytes(value)[0]);
    assert(bytes[offset + 1] == le_bytes(value)[1]);
    assert(bytes[offset + 2] == le_bytes(value)[2]);
    assert(bytes[offset + 3] == le_bytes(value)[3]);
    if value == signed as u32 {
        assert((signed as u32) as i32 == signed) by (bit_vector);
    }
}

} // verus!
