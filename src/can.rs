//! UATv4 protocol engine for the DRVEGRD CAN interface.
//!
//! Requests are three 8-byte frames sent on standard ID 0x3FB; the sensor
//! answers with four frames on ID 0x700.  Detected targets are broadcast as a
//! three-part header on ID 0x400 followed by two frames per target on IDs
//! 0x401 and up.  All CAN payloads are little-endian.
use vstd::prelude::*;
use crate::bytes::{le2, le4, u16_from_le, u16_to_le, u32_from_le, u32_to_le};

verus! {

/// Standard ID of outbound instruction frames.
pub const INSTRUCTION_ID: u32 = 0x3FB;

/// ID of inbound response frames.
pub const RESPONSE_ID: u32 = 0x700;

/// ID of inbound target-list header frames.
pub const HEADER_ID: u32 = 0x400;

/// ID of the frames that carry the first target.
pub const FIRST_TARGET_ID: u32 = 0x401;

/// Number of frames examined for a response header before giving up.
pub const RESPONSE_RETRIES: u32 = 100;

/// Protocol errors of the CAN interface.  Every one is recoverable.
#[derive(Debug, Clone, Copy, PartialEq, Eq, Structural)]
pub enum Error {
    /// A header frame carried a sub-header tag outside {0, 1, 2}.
    InvalidHeader(u8),
    /// A frame arrived out of order: the expected and the received sub-header
    /// tag or CAN ID.
    OutOfSequence(u32, u32),
    /// No CAN socket is available.
    NoSocket,
    /// A response frame carried an ID other than 0x700.
    InvalidResponseId(u16),
    /// The response used an unsupported protocol version.
    UATProtocolUnsupported(u16),
    /// The sensor reported a CRC error for the request.
    UATCRCError,
    /// The sensor reported a non-zero result code.
    UATError(u16),
}

/// Raw CAN message: its ID and its 8-byte payload read as a little-endian u64.
#[derive(Debug, Clone, Copy, PartialEq, Eq, Structural)]
pub struct Packet {
    pub id: u32,
    pub data: u64,
}

/// Radar frame header.  The cycle duration is in milliseconds (the wire
/// carries it in 64 ms units).
#[derive(Debug, Clone, Copy, PartialEq, Eq, Structural)]
pub struct Header {
    /// Timestamp seconds, zero unless set explicitly.
    pub seconds: u32,
    /// Timestamp nanoseconds, zero unless set explicitly.
    pub nanoseconds: u32,
    /// Cycle duration in milliseconds.
    pub cycle_duration: u32,
    /// Sequential cycle counter.
    pub cycle_counter: u32,
    /// Number of targets that follow the header.
    pub n_targets: usize,
    /// Active transmit antenna (0-3).
    pub tx_antenna: u8,
    /// Frequency sweep (0-3).
    pub frequency_sweep: u8,
    /// Center frequency (0-2).
    pub center_frequency: u8,
}

/// Detected target in polar coordinates, each quantity in hundredths of its
/// unit: range in cm, azimuth and elevation in 1/100 degree, speed in cm/s,
/// RCS in 1/100 dBsm, power and noise in 1/100 dBm.
#[derive(Debug, Clone, Copy, PartialEq, Eq, Structural)]
pub struct Target {
    pub range: u32,
    pub azimuth: i32,
    pub elevation: i32,
    pub speed: i32,
    pub rcs: i32,
    pub power: u32,
    pub noise: u32,
}

/// A complete target list: the header and `header.n_targets` targets.
#[derive(Debug, Clone, PartialEq)]
pub struct Frame {
    pub header: Header,
    pub targets: Vec<Target>,
}

/// UATv4 message types.
#[derive(Debug, Clone, Copy, PartialEq, Eq, Structural)]
pub enum MessageType {
    Command,
    StatusRequest,
    ParameterWrite,
    ParameterRead,
    ParameterWriteRead,
}

/// Configurable radar parameters.
#[derive(Debug, Clone, Copy, PartialEq, Eq, Structural)]
pub enum Parameter {
    /// Transmit antenna selection (0-3).
    TxAntenna,
    /// Center frequency setting.
    CenterFrequency,
    /// Frequency sweep bandwidth.
    FrequencySweep,
    /// Range mode toggle.
    RangeToggle,
    /// Detection sensitivity threshold.
    DetectionSensitivity,
    /// Enable or disable the target list output.
    EnableTargetList,
}

/// Status and version fields of the sensor.
#[derive(Debug, Clone, Copy, PartialEq, Eq, Structural)]
pub enum Status {
    SoftwareGeneration,
    MajorVersion,
    MinorVersion,
    PatchVersion,
    SerialNumber,
}

/// Sensor control commands.
#[derive(Debug, Clone, Copy, PartialEq, Eq, Structural)]
pub enum Command {
    FactoryReset,
    SensorReset,
    SaveParameters,
    ResetParameters,
    DefaultParameters,
    SetSeconds,
    SetFractionalSeconds,
}

impl MessageType {
    pub open spec fn spec_code(self) -> u8 {
        match self {
            MessageType::Command => 0,
            MessageType::StatusRequest => 1,
            MessageType::ParameterWrite => 2,
            MessageType::ParameterRead => 3,
            MessageType::ParameterWriteRead => 4,
        }
    }

    /// Wire code of the message type.
    pub fn code(&self) -> (r: u8)
        ensures
            r == self.spec_code(),
    {
        match self {
            MessageType::Command => 0,
            MessageType::StatusRequest => 1,
            MessageType::ParameterWrite => 2,
            MessageType::ParameterRead => 3,
            MessageType::ParameterWriteRead => 4,
        }
    }
}

impl Parameter {
    pub open spec fn spec_code(self) -> u16 {
        match self {
            Parameter::TxAntenna => 0,
            Parameter::CenterFrequency => 1,
            Parameter::FrequencySweep => 2,
            Parameter::RangeToggle => 5,
            Parameter::DetectionSensitivity => 13,
            Parameter::EnableTargetList => 200,
        }
    }

    /// Parameter number on the wire.
    pub fn code(&self) -> (r: u16)
        ensures
            r == self.spec_code(),
    {
        match self {
            Parameter::TxAntenna => 0,
            Parameter::CenterFrequency => 1,
            Parameter::FrequencySweep => 2,
            Parameter::RangeToggle => 5,
            Parameter::DetectionSensitivity => 13,
            Parameter::EnableTargetList => 200,
        }
    }
}

impl Status {
    pub open spec fn spec_code(self) -> u16 {
        match self {
            Status::SoftwareGeneration => 2,
            Status::MajorVersion => 3,
            Status::MinorVersion => 4,
            Status::PatchVersion => 5,
            Status::SerialNumber => 9,
        }
    }

    /// Status field number on the wire.
    pub fn code(&self) -> (r: u16)
        ensures
            r == self.spec_code(),
    {
        match self {
            Status::SoftwareGeneration => 2,
            Status::MajorVersion => 3,
            Status::MinorVersion => 4,
            Status::PatchVersion => 5,
            Status::SerialNumber => 9,
        }
    }
}

impl Command {
    pub open spec fn spec_code(self) -> u16 {
        match self {
            Command::FactoryReset => 340,
            Command::SensorReset => 342,
            Command::SaveParameters => 344,
            Command::ResetParameters => 345,
            Command::DefaultParameters => 346,
            Command::SetSeconds => 350,
            Command::SetFractionalSeconds => 351,
        }
    }

    /// Command number on the wire.
    pub fn code(&self) -> (r: u16)
        ensures
            r == self.spec_code(),
    {
        match self {
            Command::FactoryReset => 340,
            Command::SensorReset => 342,
            Command::SaveParameters => 344,
            Command::ResetParameters => 345,
            Command::DefaultParameters => 346,
            Command::SetSeconds => 350,
            Command::SetFractionalSeconds => 351,
        }
    }
}

// ---------------------------------------------------------------------------
// Bit fields of a little-endian CAN payload

/// The field of `data` that starts at bit `at`, masked by `mask`.
pub open spec fn bits(data: u64, at: u64, mask: u64) -> u64 {
    (data >> at) & mask
}

/// Extracts the field of `data` at bit `at` masked by `mask`.
fn field(data: u64, at: u64, mask: u64) -> (r: u64)
    requires
        at < 64,
    ensures
        r == bits(data, at, mask),
        r <= mask,
{
    let r = (data >> at) & mask;
    assert(r <= mask) by (bit_vector)
        requires
            r == (data >> at) & mask,
    ;
    r
}

/// Sub-header tag of a target-list header payload (its top two bits).
pub open spec fn header_tag(data: u64) -> u64 {
    bits(data, 62, 3)
}

/// Whether `data` is a target packet's second half (its lowest bit is set).
pub open spec fn is_second_half(data: u64) -> bool {
    bits(data, 0, 1) == 1
}

// ---------------------------------------------------------------------------
// Target list decoding

/// The header that sub-header 0 in `data` describes, with the timestamp
/// taken from `base`.
pub open spec fn spec_header_0(data: u64, base: Option<Header>) -> Header {
    Header {
        seconds: match base { Some(h) => h.seconds, None => 0 },
        nanoseconds: match base { Some(h) => h.nanoseconds, None => 0 },
        cycle_duration: (bits(data, 0, 0xFFF) * 64) as u32,
        cycle_counter: bits(data, 15, 0xFFFF_FFFF) as u32,
        n_targets: bits(data, 47, 0xFF) as usize,
        tx_antenna: bits(data, 56, 3) as u8,
        frequency_sweep: bits(data, 58, 3) as u8,
        center_frequency: bits(data, 60, 3) as u8,
    }
}

/// The all-zero header.
pub open spec fn empty_header() -> Header {
    Header {
        seconds: 0,
        nanoseconds: 0,
        cycle_duration: 0,
        cycle_counter: 0,
        n_targets: 0,
        tx_antenna: 0,
        frequency_sweep: 0,
        center_frequency: 0,
    }
}

/// What reading sub-header `tag` (1 or 2) from `data` yields: the header
/// accumulated so far, unchanged, or an error when the tag disagrees.
pub open spec fn spec_header_n(tag: u64, data: u64, base: Option<Header>) -> Result<Header, Error> {
    if header_tag(data) != tag {
        Err(Error::OutOfSequence(tag as u32, header_tag(data) as u32))
    } else {
        Ok(match base { Some(h) => h, None => empty_header() })
    }
}

/// What `read_header` yields for `data`.
pub open spec fn spec_read_header(data: u64, base: Option<Header>) -> Result<Header, Error> {
    let tag = header_tag(data);
    if tag == 0 {
        Ok(spec_header_0(data, base))
    } else if tag == 1 || tag == 2 {
        spec_header_n(tag, data, base)
    } else {
        Err(Error::InvalidHeader(tag as u8))
    }
}

fn header_tag_of(data: u64) -> (r: u64)
    ensures
        r == header_tag(data),
        r <= 3,
{
    let r = (data >> 62u64) & 3;
    assert(r <= 3) by (bit_vector)
        requires
            r == (data >> 62u64) & 3,
    ;
    r
}

fn read_header_0(data: u64, hdr: Option<Header>) -> (r: Result<Header, Error>)
    ensures
        header_tag(data) == 0 ==> r == Ok::<Header, Error>(spec_header_0(data, hdr)),
        header_tag(data) != 0 ==> r == Err::<Header, Error>(
            Error::OutOfSequence(0, header_tag(data) as u32),
        ),
        match r {
            Ok(h) => h.n_targets <= 0xFF,
            Err(_) => true,
        },
{
    let tag = header_tag_of(data);
    if tag != 0 {
        return Err(Error::OutOfSequence(0, tag as u32));
    }
    let duration = data & 0xFFF;
    let counter = (data >> 15u64) & 0xFFFF_FFFF;
    let n = (data >> 47u64) & 0xFF;
    assert(duration == bits(data, 0, 0xFFF) && duration <= 0xFFF && counter <= 0xFFFF_FFFF && n
        <= 0xFF) by (bit_vector)
        requires
            duration == data & 0xFFF,
            counter == (data >> 15u64) & 0xFFFF_FFFF,
            n == (data >> 47u64) & 0xFF,
    ;
    let (seconds, nanoseconds) = match hdr {
        Some(h) => (h.seconds, h.nanoseconds),
        None => (0, 0),
    };
    Ok(
        Header {
            seconds,
            nanoseconds,
            cycle_duration: duration as u32 * 64,
            cycle_counter: counter as u32,
            n_targets: n as usize,
            tx_antenna: ((data >> 56u64) & 3) as u8,
            frequency_sweep: ((data >> 58u64) & 3) as u8,
            center_frequency: ((data >> 60u64) & 3) as u8,
        },
    )
}

fn read_header_n(tag: u64, data: u64, hdr: Option<Header>) -> (r: Result<Header, Error>)
    requires
        tag == 1 || tag == 2,
    ensures
        r == spec_header_n(tag, data, hdr),
{
    let got = header_tag_of(data);
    if got != tag {
        return Err(Error::OutOfSequence(tag as u32, got as u32));
    }
    match hdr {
        Some(h) => Ok(h),
        None => Ok(
            Header {
                seconds: 0,
                nanoseconds: 0,
                cycle_duration: 0,
                cycle_counter: 0,
                n_targets: 0,
                tx_antenna: 0,
                frequency_sweep: 0,
                center_frequency: 0,
            },
        ),
    }
}

/// Parses one target-list header payload, carrying the fields of `hdr`
/// forward.  Sub-header 0 carries the cycle fields; sub-headers 1 and 2 are
/// reserved and leave the header as it was.
pub fn read_header(data: u64, hdr: Option<Header>) -> (r: Result<Header, Error>)
    ensures
        r == spec_read_header(data, hdr),
{
    let tag = header_tag_of(data);
    if tag == 0 {
        read_header_0(data, hdr)
    } else if tag == 1 || tag == 2 {
        read_header_n(tag, data, hdr)
    } else {
        Err(Error::InvalidHeader(tag as u8))
    }
}

/// The all-zero target.
pub open spec fn empty_target() -> Target {
    Target { range: 0, azimuth: 0, elevation: 0, speed: 0, rcs: 0, power: 0, noise: 0 }
}

/// Target after reading the first packet of a target from `data`: range,
/// azimuth and speed, the other fields kept from `base`.
pub open spec fn spec_data_0(data: u64, base: Option<Target>) -> Target {
    let t = match base { Some(t) => t, None => empty_target() };
    Target {
        range: (bits(data, 1, 0x1FFF) * 4) as u32,
        azimuth: ((bits(data, 22, 0x3FF) - 511) * 16) as i32,
        speed: ((bits(data, 39, 0xFFF) - 2992) * 4) as i32,
        ..t
    }
}

/// Target after reading the second packet of a target from `data`: RCS,
/// power, noise and elevation, the other fields kept from `base`.
pub open spec fn spec_data_1(data: u64, base: Option<Target>) -> Target {
    let t = match base { Some(t) => t, None => empty_target() };
    Target {
        rcs: ((bits(data, 1, 0xFF) - 75) * 20) as i32,
        power: (bits(data, 9, 0xFF) * 100) as u32,
        noise: (bits(data, 17, 0xFF) * 50) as u32,
        elevation: ((bits(data, 37, 0x3FF) - 511) * 4) as i32,
        ..t
    }
}

/// What `read_data` yields for `data`.
pub open spec fn spec_read_data(data: u64, base: Option<Target>) -> Target {
    if is_second_half(data) {
        spec_data_1(data, base)
    } else {
        spec_data_0(data, base)
    }
}

fn read_data_0(data: u64, tgt: Option<Target>) -> (r: Target)
    ensures
        r == spec_data_0(data, tgt),
{
    let range = (data >> 1u64) & 0x1FFF;
    let azimuth = (data >> 22u64) & 0x3FF;
    let speed = (data >> 39u64) & 0xFFF;
    assert(range <= 0x1FFF && azimuth <= 0x3FF && speed <= 0xFFF) by (bit_vector)
        requires
            range == (data >> 1u64) & 0x1FFF,
            azimuth == (data >> 22u64) & 0x3FF,
            speed == (data >> 39u64) & 0xFFF,
    ;
    let t = match tgt {
        Some(t) => t,
        None => Target {
            range: 0,
            azimuth: 0,
            elevation: 0,
            speed: 0,
            rcs: 0,
            power: 0,
            noise: 0,
        },
    };
    Target {
        range: range as u32 * 4,
        azimuth: (azimuth as i32 - 511) * 16,
        speed: (speed as i32 - 2992) * 4,
        ..t
    }
}

fn read_data_1(data: u64, tgt: Option<Target>) -> (r: Target)
    ensures
        r == spec_data_1(data, tgt),
{
    let rcs = (data >> 1u64) & 0xFF;
    let power = (data >> 9u64) & 0xFF;
    let noise = (data >> 17u64) & 0xFF;
    let elevation = (data >> 37u64) & 0x3FF;
    assert(rcs <= 0xFF && power <= 0xFF && noise <= 0xFF && elevation <= 0x3FF) by (bit_vector)
        requires
            rcs == (data >> 1u64) & 0xFF,
            power == (data >> 9u64) & 0xFF,
            noise == (data >> 17u64) & 0xFF,
            elevation == (data >> 37u64) & 0x3FF,
    ;
    let t = match tgt {
        Some(t) => t,
        None => Target {
            range: 0,
            azimuth: 0,
            elevation: 0,
            speed: 0,
            rcs: 0,
            power: 0,
            noise: 0,
        },
    };
    Target {
        rcs: (rcs as i32 - 75) * 20,
        power: power as u32 * 100,
        noise: noise as u32 * 50,
        elevation: (elevation as i32 - 511) * 4,
        ..t
    }
}

/// Parses one target packet, carrying the fields of `tgt` forward.  A packet
/// with its lowest bit clear holds range, azimuth and speed; one with it set
/// holds RCS, power, noise and elevation.
pub fn read_data(data: u64, tgt: Option<Target>) -> (r: Target)
    ensures
        r == spec_read_data(data, tgt),
{
    let half = data & 1;
    assert(half == 1 <==> bits(data, 0, 1) == 1) by (bit_vector)
        requires
            half == data & 1,
    ;
    if half == 1 {
        read_data_1(data, tgt)
    } else {
        read_data_0(data, tgt)
    }
}


// ---------------------------------------------------------------------------
// Instruction frames

/// First frame of an instruction: the header, which carries the CRC.
#[derive(Debug, Clone, Copy, PartialEq, Eq, Structural)]
pub struct InstructionHeader {
    pub uat_id: u16,
    pub message_index: u8,
    pub protocol_version: u8,
    pub device_id: u8,
    pub instructions: u8,
    pub crc: u16,
}

/// Second frame of an instruction: what is asked for.
#[derive(Debug, Clone, Copy, PartialEq, Eq, Structural)]
pub struct InstructionMessage1 {
    pub uat_id: u16,
    pub message_index: u8,
    pub message_type: u8,
    pub parnum: u16,
    pub dim0: u8,
    pub dim1: u8,
}

/// Third frame of an instruction: the value.
#[derive(Debug, Clone, Copy, PartialEq, Eq, Structural)]
pub struct InstructionMessage2 {
    pub uat_id: u16,
    pub message_index: u8,
    pub format: u8,
    pub value: u32,
}

/// The little-endian bytes of a `u16`.
pub open spec fn le_bytes2(x: u16) -> Seq<u8> {
    seq![(x % 0x100) as u8, (x / 0x100) as u8]
}

/// The little-endian bytes of a `u32`.
pub open spec fn le_bytes4(x: u32) -> Seq<u8> {
    seq![
        (x % 0x100) as u8,
        ((x / 0x100) % 0x100) as u8,
        ((x / 0x1_0000) % 0x100) as u8,
        (x / 0x100_0000) as u8,
    ]
}

impl InstructionHeader {
    /// The frame's bytes on the wire.
    pub open spec fn spec_bytes(self) -> Seq<u8> {
        le_bytes2(self.uat_id) + seq![
            self.message_index,
            self.protocol_version,
            self.device_id,
            self.instructions,
        ] + le_bytes2(self.crc)
    }

    /// Encodes the frame.
    pub fn to_bytes(&self) -> (r: [u8; 8])
        ensures
            r@ == self.spec_bytes(),
    {
        let (u0, u1) = u16_to_le(self.uat_id);
        let (c0, c1) = u16_to_le(self.crc);
        let r = [
            u0,
            u1,
            self.message_index,
            self.protocol_version,
            self.device_id,
            self.instructions,
            c0,
            c1,
        ];
        assert(r@ =~= self.spec_bytes());
        r
    }

    /// Decodes the frame.
    pub fn from_bytes(b: &[u8; 8]) -> (r: Self)
        ensures
            r.uat_id == le2(b@[0], b@[1]),
            r.message_index == b@[2],
            r.protocol_version == b@[3],
            r.device_id == b@[4],
            r.instructions == b@[5],
            r.crc == le2(b@[6], b@[7]),
    {
        InstructionHeader {
            uat_id: u16_from_le(b[0], b[1]),
            message_index: b[2],
            protocol_version: b[3],
            device_id: b[4],
            instructions: b[5],
            crc: u16_from_le(b[6], b[7]),
        }
    }
}

impl InstructionMessage1 {
    /// The frame's bytes on the wire.
    pub open spec fn spec_bytes(self) -> Seq<u8> {
        le_bytes2(self.uat_id) + seq![self.message_index, self.message_type] + le_bytes2(
            self.parnum,
        ) + seq![self.dim0, self.dim1]
    }

    /// Encodes the frame.
    pub fn to_bytes(&self) -> (r: [u8; 8])
        ensures
            r@ == self.spec_bytes(),
    {
        let (u0, u1) = u16_to_le(self.uat_id);
        let (p0, p1) = u16_to_le(self.parnum);
        let r = [u0, u1, self.message_index, self.message_type, p0, p1, self.dim0, self.dim1];
        assert(r@ =~= self.spec_bytes());
        r
    }

    /// Decodes the frame.
    pub fn from_bytes(b: &[u8; 8]) -> (r: Self)
        ensures
            r.uat_id == le2(b@[0], b@[1]),
            r.message_index == b@[2],
            r.message_type == b@[3],
            r.parnum == le2(b@[4], b@[5]),
            r.dim0 == b@[6],
            r.dim1 == b@[7],
    {
        InstructionMessage1 {
            uat_id: u16_from_le(b[0], b[1]),
            message_index: b[2],
            message_type: b[3],
            parnum: u16_from_le(b[4], b[5]),
            dim0: b[6],
            dim1: b[7],
        }
    }
}

impl InstructionMessage2 {
    /// The frame's bytes on the wire.
    pub open spec fn spec_bytes(self) -> Seq<u8> {
        le_bytes2(self.uat_id) + seq![self.message_index, self.format] + le_bytes4(self.value)
    }

    /// Encodes the frame.
    pub fn to_bytes(&self) -> (r: [u8; 8])
        ensures
            r@ == self.spec_bytes(),
    {
        let (u0, u1) = u16_to_le(self.uat_id);
        let v = u32_to_le(self.value);
        let r = [u0, u1, self.message_index, self.format, v[0], v[1], v[2], v[3]];
        assert(r@ =~= self.spec_bytes());
        r
    }

    /// Decodes the frame.
    pub fn from_bytes(b: &[u8; 8]) -> (r: Self)
        ensures
            r.uat_id == le2(b@[0], b@[1]),
            r.message_index == b@[2],
            r.format == b@[3],
            r.value == le4(b@[4], b@[5], b@[6], b@[7]),
    {
        InstructionMessage2 {
            uat_id: u16_from_le(b[0], b[1]),
            message_index: b[2],
            format: b[3],
            value: u32_from_le(b[4], b[5], b[6], b[7]),
        }
    }
}

proof fn lemma_le2_round_trip(x: u16)
    ensures
        le2((x % 0x100) as u8, (x / 0x100) as u8) == x,
{
}

proof fn lemma_le4_round_trip(x: u32)
    ensures
        le4(
            (x % 0x100) as u8,
            ((x / 0x100) % 0x100) as u8,
            ((x / 0x1_0000) % 0x100) as u8,
            (x / 0x100_0000) as u8,
        ) == x,
{
    assert(le4(
        (x % 0x100) as u8,
        ((x / 0x100) % 0x100) as u8,
        ((x / 0x1_0000) % 0x100) as u8,
        (x / 0x100_0000) as u8,
    ) == x) by (bit_vector);
}

/// Encoding an instruction triple and decoding the three frames gives back
/// the same triple.
pub proof fn lemma_instruction_round_trip(
    h: InstructionHeader,
    m1: InstructionMessage1,
    m2: InstructionMessage2,
    hb: [u8; 8],
    m1b: [u8; 8],
    m2b: [u8; 8],
    h2: InstructionHeader,
    m12: InstructionMessage1,
    m22: InstructionMessage2,
)
    requires
        hb@ == h.spec_bytes(),
        m1b@ == m1.spec_bytes(),
        m2b@ == m2.spec_bytes(),
        h2.uat_id == le2(hb@[0], hb@[1]),
        h2.message_index == hb@[2],
        h2.protocol_version == hb@[3],
        h2.device_id == hb@[4],
        h2.instructions == hb@[5],
        h2.crc == le2(hb@[6], hb@[7]),
        m12.uat_id == le2(m1b@[0], m1b@[1]),
        m12.message_index == m1b@[2],
        m12.message_type == m1b@[3],
        m12.parnum == le2(m1b@[4], m1b@[5]),
        m12.dim0 == m1b@[6],
        m12.dim1 == m1b@[7],
        m22.uat_id == le2(m2b@[0], m2b@[1]),
        m22.message_index == m2b@[2],
        m22.format == m2b@[3],
        m22.value == le4(m2b@[4], m2b@[5], m2b@[6], m2b@[7]),
    ensures
        h2 == h,
        m12 == m1,
        m22 == m2,
{
    lemma_le2_round_trip(h.uat_id);
    lemma_le2_round_trip(h.crc);
    lemma_le2_round_trip(m1.uat_id);
    lemma_le2_round_trip(m1.parnum);
    lemma_le2_round_trip(m2.uat_id);
    lemma_le4_round_trip(m2.value);
}

// ---------------------------------------------------------------------------
// CRC

/// CRC-16/CCITT-FALSE (polynomial 0x1021, initial value 0xFFFF, no
/// reflection, no final xor) of `data`.
pub uninterp spec fn crc16_ccitt_false(data: Seq<u8>) -> u16;

/// Relies on `crc16::State::<CCITT_FALSE>::calculate`: the CRC-16/CCITT-FALSE
/// checksum of the bytes, a function of the bytes alone.
#[verifier::external_body]
fn ccitt_false(data: &[u8]) -> (r: u16)
    ensures
        r == crc16_ccitt_false(data@),
{
    crc16::State::<crc16::CCITT_FALSE>::calculate(data)
}

/// The 22 bytes that the request CRC covers: the header's first six bytes,
/// then both message frames.
pub open spec fn crc_input(
    header: InstructionHeader,
    message1: InstructionMessage1,
    message2: InstructionMessage2,
) -> Seq<u8> {
    header.spec_bytes().subrange(0, 6) + message1.spec_bytes() + message2.spec_bytes()
}

/// Calculates the CRC-16/CCITT-FALSE checksum of an instruction triple.
pub fn message_crc(
    header: &InstructionHeader,
    message1: &InstructionMessage1,
    message2: &InstructionMessage2,
) -> (r: u16)
    ensures
        r == crc16_ccitt_false(crc_input(*header, *message1, *message2)),
{
    let hb = header.to_bytes();
    let m1 = message1.to_bytes();
    let m2 = message2.to_bytes();
    let mut data: Vec<u8> = Vec::new();
    let mut i: usize = 0;
    while i < 6
        invariant
            i <= 6,
            hb@ == header.spec_bytes(),
            data@ == hb@.subrange(0, i as int),
        decreases 6 - i,
    {
        data.push(hb[i]);
        i = i + 1;
    }
    let mut i: usize = 0;
    while i < 8
        invariant
            i <= 8,
            data@ == hb@.subrange(0, 6) + m1@.subrange(0, i as int),
        decreases 8 - i,
    {
        data.push(m1[i]);
        proof {
            assert(m1@.subrange(0, i + 1) =~= m1@.subrange(0, i as int).push(m1@[i as int]));
        }
        i = i + 1;
    }
    let mut i: usize = 0;
    while i < 8
        invariant
            i <= 8,
            data@ == hb@.subrange(0, 6) + m1@ + m2@.subrange(0, i as int),
        decreases 8 - i,
    {
        data.push(m2[i]);
        proof {
            assert(m2@.subrange(0, i + 1) =~= m2@.subrange(0, i as int).push(m2@[i as int]));
        }
        i = i + 1;
    }
    proof {
        assert(m1@.subrange(0, 8) =~= m1@);
        assert(m2@.subrange(0, 8) =~= m2@);
    }
    ccitt_false(data.as_slice())
}

/// The three frames of an instruction, with the CRC filled in.
pub open spec fn spec_instruction_frames(
    header: InstructionHeader,
    message1: InstructionMessage1,
    message2: InstructionMessage2,
) -> Seq<Seq<u8>> {
    seq![
        (InstructionHeader {
            crc: crc16_ccitt_false(crc_input(header, message1, message2)),
            ..header
        }).spec_bytes(),
        message1.spec_bytes(),
        message2.spec_bytes(),
    ]
}

/// The three frames of an instruction with `crc` in the header's CRC field.
pub fn seal_instruction(
    header: InstructionHeader,
    message1: InstructionMessage1,
    message2: InstructionMessage2,
    crc: u16,
) -> (r: [[u8; 8]; 3])
    ensures
        r@[0]@ == (InstructionHeader { crc, ..header }).spec_bytes(),
        r@[1]@ == message1.spec_bytes(),
        r@[2]@ == message2.spec_bytes(),
{
    let h = InstructionHeader { crc, ..header };
    [h.to_bytes(), message1.to_bytes(), message2.to_bytes()]
}

/// Encodes an instruction triple as the three frames to send on ID 0x3FB,
/// computing the CRC over the triple with the header's CRC field at zero.
pub fn encode_instruction(
    header: InstructionHeader,
    message1: InstructionMessage1,
    message2: InstructionMessage2,
) -> (r: [[u8; 8]; 3])
    ensures
        r@[0]@ == spec_instruction_frames(header, message1, message2)[0],
        r@[1]@ == spec_instruction_frames(header, message1, message2)[1],
        r@[2]@ == spec_instruction_frames(header, message1, message2)[2],
{
    let crc = message_crc(&header, &message1, &message2);
    seal_instruction(header, message1, message2, crc)
}

/// A UATv4 request: the three instruction frames before the CRC is computed.
#[derive(Debug, Clone, Copy, PartialEq, Eq, Structural)]
pub struct Request {
    pub header: InstructionHeader,
    pub message1: InstructionMessage1,
    pub message2: InstructionMessage2,
}

/// The request for `uat_id` with the given message type, parameter number
/// and value: protocol version 4, one instruction, device 0, message indices
/// 0, 1 and 2, CRC field zero.
pub open spec fn spec_request(uat_id: u16, message_type: u8, parnum: u16, value: u32) -> Request {
    Request {
        header: InstructionHeader {
            uat_id,
            message_index: 0,
            protocol_version: 4,
            device_id: 0,
            instructions: 1,
            crc: 0,
        },
        message1: InstructionMessage1 {
            uat_id,
            message_index: 1,
            message_type,
            parnum,
            dim0: 0,
            dim1: 0,
        },
        message2: InstructionMessage2 { uat_id, message_index: 2, format: 0, value },
    }
}

fn request(uat_id: u16, message_type: u8, parnum: u16, value: u32) -> (r: Request)
    ensures
        r == spec_request(uat_id, message_type, parnum, value),
{
    Request {
        header: InstructionHeader {
            uat_id,
            message_index: 0,
            protocol_version: 4,
            device_id: 0,
            instructions: 1,
            crc: 0,
        },
        message1: InstructionMessage1 {
            uat_id,
            message_index: 1,
            message_type,
            parnum,
            dim0: 0,
            dim1: 0,
        },
        message2: InstructionMessage2 { uat_id, message_index: 2, format: 0, value },
    }
}

/// UAT ID of sensor commands.
pub const COMMAND_UAT_ID: u16 = 1000;

/// UAT ID of parameter reads and writes.
pub const PARAMETER_UAT_ID: u16 = 2010;

/// UAT ID of status reads.
pub const STATUS_UAT_ID: u16 = 2012;

impl Request {
    /// Request that runs `command` with `value`.
    pub fn command(command: Command, value: u32) -> (r: Request)
        ensures
            r == spec_request(
                COMMAND_UAT_ID,
                MessageType::Command.spec_code(),
                command.spec_code(),
                value,
            ),
    {
        request(COMMAND_UAT_ID, MessageType::Command.code(), command.code(), value)
    }

    /// Request that writes `value` to `param`.
    pub fn write_parameter(param: Parameter, value: u32) -> (r: Request)
        ensures
            r == spec_request(
                PARAMETER_UAT_ID,
                MessageType::ParameterWrite.spec_code(),
                param.spec_code(),
                value,
            ),
    {
        request(PARAMETER_UAT_ID, MessageType::ParameterWrite.code(), param.code(), value)
    }

    /// Request that reads `param`.
    pub fn read_parameter(param: Parameter) -> (r: Request)
        ensures
            r == spec_request(
                PARAMETER_UAT_ID,
                MessageType::ParameterRead.spec_code(),
                param.spec_code(),
                0,
            ),
    {
        request(PARAMETER_UAT_ID, MessageType::ParameterRead.code(), param.code(), 0)
    }

    /// Request that reads the status field `status`.
    pub fn read_status(status: Status) -> (r: Request)
        ensures
            r == spec_request(
                STATUS_UAT_ID,
                MessageType::StatusRequest.spec_code(),
                status.spec_code(),
                0,
            ),
    {
        request(STATUS_UAT_ID, MessageType::StatusRequest.code(), status.code(), 0)
    }

    /// The three frames to send on ID 0x3FB, CRC filled in.
    pub fn frames(&self) -> (r: [[u8; 8]; 3])
        ensures
            r@[0]@ == spec_instruction_frames(self.header, self.message1, self.message2)[0],
            r@[1]@ == spec_instruction_frames(self.header, self.message1, self.message2)[1],
            r@[2]@ == spec_instruction_frames(self.header, self.message1, self.message2)[2],
    {
        encode_instruction(self.header, self.message1, self.message2)
    }
}


// ---------------------------------------------------------------------------
// Response frames

/// First response frame.
#[derive(Debug, Clone, Copy, PartialEq, Eq, Structural)]
pub struct ResponseHeader {
    pub udt_index: u16,
    pub protocol_version: u16,
    pub device_id: u8,
    pub instructions: u8,
    pub crc: u16,
}

/// Second response frame.
#[derive(Debug, Clone, Copy, PartialEq, Eq, Structural)]
pub struct ResponseMessage1 {
    pub udt_index: u16,
    pub message_index: u8,
    pub message_type: u8,
    pub uat_id: u16,
    pub parnum: u16,
}

/// Third response frame: the result code and the value.
#[derive(Debug, Clone, Copy, PartialEq, Eq, Structural)]
pub struct ResponseMessage2 {
    pub udt_index: u16,
    pub message_index: u8,
    pub result: u8,
    pub value: u32,
}

/// Fourth response frame.
#[derive(Debug, Clone, Copy, PartialEq, Eq, Structural)]
pub struct ResponseMessage3 {
    pub udt_index: u16,
    pub message_index: u8,
    pub format: u8,
    pub dim0: u8,
    pub dim1: u8,
}

impl ResponseHeader {
    /// Decodes the frame from its payload.
    pub fn from_data(data: u64) -> (r: Self)
        ensures
            r.udt_index == bits(data, 0, 0xFFFF),
            r.protocol_version == bits(data, 16, 0xFFFF),
            r.device_id == bits(data, 32, 0xFF),
            r.instructions == bits(data, 40, 0xFF),
            r.crc == bits(data, 48, 0xFFFF),
    {
        ResponseHeader {
            udt_index: field(data, 0, 0xFFFF) as u16,
            protocol_version: field(data, 16, 0xFFFF) as u16,
            device_id: field(data, 32, 0xFF) as u8,
            instructions: field(data, 40, 0xFF) as u8,
            crc: field(data, 48, 0xFFFF) as u16,
        }
    }
}

impl ResponseMessage1 {
    /// Decodes the frame from its payload.
    pub fn from_data(data: u64) -> (r: Self)
        ensures
            r.udt_index == bits(data, 0, 0xFFFF),
            r.message_index == bits(data, 16, 0xFF),
            r.message_type == bits(data, 24, 0xFF),
            r.uat_id == bits(data, 32, 0xFFFF),
            r.parnum == bits(data, 48, 0xFFFF),
    {
        ResponseMessage1 {
            udt_index: field(data, 0, 0xFFFF) as u16,
            message_index: field(data, 16, 0xFF) as u8,
            message_type: field(data, 24, 0xFF) as u8,
            uat_id: field(data, 32, 0xFFFF) as u16,
            parnum: field(data, 48, 0xFFFF) as u16,
        }
    }
}

impl ResponseMessage2 {
    /// Decodes the frame from its payload.
    pub fn from_data(data: u64) -> (r: Self)
        ensures
            r.udt_index == bits(data, 0, 0xFFFF),
            r.message_index == bits(data, 16, 0xFF),
            r.result == bits(data, 24, 0xFF),
            r.value == bits(data, 32, 0xFFFF_FFFF),
    {
        ResponseMessage2 {
            udt_index: field(data, 0, 0xFFFF) as u16,
            message_index: field(data, 16, 0xFF) as u8,
            result: field(data, 24, 0xFF) as u8,
            value: field(data, 32, 0xFFFF_FFFF) as u32,
        }
    }
}

impl ResponseMessage3 {
    /// Decodes the frame from its payload.
    pub fn from_data(data: u64) -> (r: Self)
        ensures
            r.udt_index == bits(data, 0, 0xFFFF),
            r.message_index == bits(data, 16, 0xFF),
            r.format == bits(data, 24, 0xFF),
            r.dim0 == bits(data, 32, 0xFF),
            r.dim1 == bits(data, 40, 0xFF),
    {
        ResponseMessage3 {
            udt_index: field(data, 0, 0xFFFF) as u16,
            message_index: field(data, 16, 0xFF) as u8,
            format: field(data, 24, 0xFF) as u8,
            dim0: field(data, 32, 0xFF) as u8,
            dim1: field(data, 40, 0xFF) as u8,
        }
    }
}

// ---------------------------------------------------------------------------
// Response state machine

/// Where a response exchange stands.
#[derive(Debug, Clone, Copy, PartialEq, Eq, Structural)]
pub enum ResponseStage {
    /// Waiting for the response header; the count of foreign frames
    /// discarded so far.
    Header(u32),
    /// Waiting for the second response frame.
    Message1,
    /// Waiting for the third response frame.
    Message2,
    /// Waiting for the fourth response frame; the result code and value that
    /// the third frame carried.
    Message3(u8, u32),
}

/// What one frame fed to a reader produced.
#[derive(Debug, Clone, Copy, PartialEq, Eq)]
pub enum ResponseStep {
    /// The exchange needs more frames.
    Pending,
    /// The exchange ended with the value or with an error.
    Done(Result<u32, Error>),
}

/// The stage and step that follow feeding `pkt` at stage `st`.  After an end
/// the reader waits for a new exchange.
pub open spec fn response_next(st: ResponseStage, pkt: Packet) -> (ResponseStage, ResponseStep) {
    let foreign = Error::InvalidResponseId(pkt.id as u16);
    match st {
        ResponseStage::Header(n) => if pkt.id != RESPONSE_ID {
            if n + 1 >= RESPONSE_RETRIES {
                (ResponseStage::Header(0), ResponseStep::Done(Err(foreign)))
            } else {
                (ResponseStage::Header((n + 1) as u32), ResponseStep::Pending)
            }
        } else {
            let version = bits(pkt.data, 16, 0xFFFF);
            if version == 2 {
                (ResponseStage::Header(0), ResponseStep::Done(Err(Error::UATCRCError)))
            } else if version != 5 {
                (
                    ResponseStage::Header(0),
                    ResponseStep::Done(Err(Error::UATProtocolUnsupported(version as u16))),
                )
            } else {
                (ResponseStage::Message1, ResponseStep::Pending)
            }
        },
        ResponseStage::Message1 => if pkt.id != RESPONSE_ID {
            (ResponseStage::Header(0), ResponseStep::Done(Err(foreign)))
        } else {
            (ResponseStage::Message2, ResponseStep::Pending)
        },
        ResponseStage::Message2 => if pkt.id != RESPONSE_ID {
            (ResponseStage::Header(0), ResponseStep::Done(Err(foreign)))
        } else {
            (
                ResponseStage::Message3(
                    bits(pkt.data, 24, 0xFF) as u8,
                    bits(pkt.data, 32, 0xFFFF_FFFF) as u32,
                ),
                ResponseStep::Pending,
            )
        },
        ResponseStage::Message3(result, value) => if pkt.id != RESPONSE_ID {
            (ResponseStage::Header(0), ResponseStep::Done(Err(foreign)))
        } else if result != 0 {
            (ResponseStage::Header(0), ResponseStep::Done(Err(Error::UATError(result as u16))))
        } else {
            (ResponseStage::Header(0), ResponseStep::Done(Ok(value)))
        },
    }
}

/// Receives the four-frame answer to a request, one CAN frame at a time.
///
/// Frames whose ID is not 0x700 are skipped while the response header is
/// awaited, up to 100 frames; after the header every frame must be a
/// response frame.
#[derive(Debug, Clone, Copy, PartialEq, Eq, Structural)]
pub struct ResponseReader {
    pub stage: ResponseStage,
}

impl ResponseReader {
    /// A reader waiting for a response header.
    pub fn new() -> (r: Self)
        ensures
            r.stage == ResponseStage::Header(0),
    {
        ResponseReader { stage: ResponseStage::Header(0) }
    }

    /// Feeds one received frame.
    pub fn push(&mut self, pkt: Packet) -> (r: ResponseStep)
        requires
            match old(self).stage {
                ResponseStage::Header(n) => n < RESPONSE_RETRIES,
                _ => true,
            },
        ensures
            (final(self).stage, r) == response_next(old(self).stage, pkt),
            match final(self).stage {
                ResponseStage::Header(n) => n < RESPONSE_RETRIES,
                _ => true,
            },
    {
        let foreign = Error::InvalidResponseId(pkt.id as u16);
        match self.stage {
            ResponseStage::Header(n) => {
                if pkt.id != RESPONSE_ID {
                    if n + 1 >= RESPONSE_RETRIES {
                        self.stage = ResponseStage::Header(0);
                        ResponseStep::Done(Err(foreign))
                    } else {
                        self.stage = ResponseStage::Header(n + 1);
                        ResponseStep::Pending
                    }
                } else {
                    let header = ResponseHeader::from_data(pkt.data);
                    if header.protocol_version == 2 {
                        self.stage = ResponseStage::Header(0);
                        ResponseStep::Done(Err(Error::UATCRCError))
                    } else if header.protocol_version != 5 {
                        self.stage = ResponseStage::Header(0);
                        ResponseStep::Done(Err(Error::UATProtocolUnsupported(header.protocol_version)))
                    } else {
                        self.stage = ResponseStage::Message1;
                        ResponseStep::Pending
                    }
                }
            },
            ResponseStage::Message1 => {
                if pkt.id != RESPONSE_ID {
                    self.stage = ResponseStage::Header(0);
                    ResponseStep::Done(Err(foreign))
                } else {
                    self.stage = ResponseStage::Message2;
                    ResponseStep::Pending
                }
            },
            ResponseStage::Message2 => {
                if pkt.id != RESPONSE_ID {
                    self.stage = ResponseStage::Header(0);
                    ResponseStep::Done(Err(foreign))
                } else {
                    let m2 = ResponseMessage2::from_data(pkt.data);
                    self.stage = ResponseStage::Message3(m2.result, m2.value);
                    ResponseStep::Pending
                }
            },
            ResponseStage::Message3(result, value) => {
                self.stage = ResponseStage::Header(0);
                if pkt.id != RESPONSE_ID {
                    ResponseStep::Done(Err(foreign))
                } else if result != 0 {
                    ResponseStep::Done(Err(Error::UATError(result as u16)))
                } else {
                    ResponseStep::Done(Ok(value))
                }
            },
        }
    }
}


// ---------------------------------------------------------------------------
// Target list state machine

/// Where the reading of a target list stands.
#[derive(Debug, Clone, Copy, PartialEq, Eq, Structural)]
pub enum FrameStage {
    /// Discarding frames until a header frame with sub-header 0 arrives.
    Search,
    /// Waiting for sub-header 1.
    Header1(Header),
    /// Waiting for sub-header 2.
    Header2(Header),
    /// Receiving targets; the first half of the target in progress, if any.
    Targets(Header, Option<Target>),
}

/// What one frame fed to a target list reader produced.
#[derive(Debug, PartialEq)]
pub enum FrameStep {
    /// The target list needs more frames.
    Pending,
    /// A complete target list, or the error that abandoned one.
    Done(Result<Frame, Error>),
}

/// A finished target list, as header and targets, or the error that ended it.
pub type FrameOutcome = Option<Result<(Header, Seq<Target>), Error>>;

/// The stage, the targets collected so far and the outcome that follow
/// feeding `pkt` at stage `st` with targets `ts` collected.
pub open spec fn frame_next(st: FrameStage, ts: Seq<Target>, pkt: Packet) -> (
    FrameStage,
    Seq<Target>,
    FrameOutcome,
) {
    let tag = header_tag(pkt.data);
    match st {
        FrameStage::Search => if pkt.id == HEADER_ID && tag == 0 {
            (FrameStage::Header1(spec_header_0(pkt.data, None)), seq![], None)
        } else {
            (FrameStage::Search, seq![], None)
        },
        FrameStage::Header1(h) => if tag != 1 {
            (FrameStage::Search, seq![], Some(Err(Error::OutOfSequence(1, tag as u32))))
        } else {
            (FrameStage::Header2(h), seq![], None)
        },
        FrameStage::Header2(h) => if tag != 2 {
            (FrameStage::Search, seq![], Some(Err(Error::OutOfSequence(2, tag as u32))))
        } else if h.n_targets == 0 {
            (FrameStage::Search, seq![], Some(Ok((h, seq![]))))
        } else {
            (FrameStage::Targets(h, None), seq![], None)
        },
        FrameStage::Targets(h, half) => {
            let expected = FIRST_TARGET_ID + ts.len();
            if pkt.id != expected {
                (
                    FrameStage::Search,
                    seq![],
                    Some(Err(Error::OutOfSequence(expected as u32, pkt.id))),
                )
            } else {
                match half {
                    None => (FrameStage::Targets(h, Some(spec_data_0(pkt.data, None))), ts, None),
                    Some(t) => {
                        let ts2 = ts.push(spec_data_1(pkt.data, Some(t)));
                        if ts2.len() == h.n_targets {
                            (FrameStage::Search, seq![], Some(Ok((h, ts2))))
                        } else {
                            (FrameStage::Targets(h, None), ts2, None)
                        }
                    },
                }
            }
        },
    }
}

/// Reassembles target lists from the CAN frame stream, one frame at a time.
///
/// Frames are dropped until a header frame (ID 0x400) with sub-header 0
/// arrives; sub-headers 1 and 2 must follow, then two frames per target on
/// IDs 0x401, 0x402, ...  A frame out of that order abandons the list, and
/// the search for the next header starts again.
pub struct TargetFrameReader {
    pub stage: FrameStage,
    pub targets: Vec<Target>,
}

impl TargetFrameReader {
    /// The reader's invariant: targets are collected only while receiving
    /// targets, and fewer than the header announces.
    pub open spec fn wf(&self) -> bool {
        match self.stage {
            FrameStage::Targets(h, _) => h.n_targets <= 0xFF && self.targets@.len()
                < h.n_targets,
            FrameStage::Header1(h) => h.n_targets <= 0xFF && self.targets@.len() == 0,
            FrameStage::Header2(h) => h.n_targets <= 0xFF && self.targets@.len() == 0,
            FrameStage::Search => self.targets@.len() == 0,
        }
    }

    /// A reader searching for a header.
    pub fn new() -> (r: Self)
        ensures
            r.wf(),
            r.stage == FrameStage::Search,
            r.targets@.len() == 0,
    {
        TargetFrameReader { stage: FrameStage::Search, targets: Vec::new() }
    }

    /// Feeds one received frame.
    pub fn push(&mut self, pkt: Packet) -> (r: FrameStep)
        requires
            old(self).wf(),
        ensures
            final(self).wf(),
            ({
                let (st, ts, out) = frame_next(old(self).stage, old(self).targets@, pkt);
                &&& final(self).stage == st
                &&& final(self).targets@ == ts
                &&& match r {
                    FrameStep::Pending => out.is_none(),
                    FrameStep::Done(Ok(f)) => out == Some(
                        Ok::<(Header, Seq<Target>), Error>((f.header, f.targets@)),
                    ),
                    FrameStep::Done(Err(e)) => out == Some(Err::<(Header, Seq<Target>), Error>(e)),
                }
            }),
    {
        let tag = header_tag_of(pkt.data);
        match self.stage {
            FrameStage::Search => {
                if pkt.id == HEADER_ID && tag == 0 {
                    match read_header_0(pkt.data, None) {
                        Ok(h) => {
                            self.stage = FrameStage::Header1(h);
                        },
                        Err(_) => {},
                    }
                }
                FrameStep::Pending
            },
            FrameStage::Header1(h) => {
                if tag != 1 {
                    self.stage = FrameStage::Search;
                    FrameStep::Done(Err(Error::OutOfSequence(1, tag as u32)))
                } else {
                    self.stage = FrameStage::Header2(h);
                    FrameStep::Pending
                }
            },
            FrameStage::Header2(h) => {
                if tag != 2 {
                    self.stage = FrameStage::Search;
                    FrameStep::Done(Err(Error::OutOfSequence(2, tag as u32)))
                } else if h.n_targets == 0 {
                    self.stage = FrameStage::Search;
                    FrameStep::Done(Ok(Frame { header: h, targets: Vec::new() }))
                } else {
                    self.stage = FrameStage::Targets(h, None);
                    FrameStep::Pending
                }
            },
            FrameStage::Targets(h, half) => {
                let expected = FIRST_TARGET_ID + self.targets.len() as u32;
                if pkt.id != expected {
                    self.stage = FrameStage::Search;
                    self.targets = Vec::new();
                    return FrameStep::Done(Err(Error::OutOfSequence(expected, pkt.id)));
                }
                match half {
                    None => {
                        self.stage = FrameStage::Targets(h, Some(read_data_0(pkt.data, None)));
                        FrameStep::Pending
                    },
                    Some(t) => {
                        self.targets.push(read_data_1(pkt.data, Some(t)));
                        if self.targets.len() == h.n_targets {
                            let mut targets = Vec::new();
                            std::mem::swap(&mut targets, &mut self.targets);
                            self.stage = FrameStage::Search;
                            FrameStep::Done(Ok(Frame { header: h, targets }))
                        } else {
                            self.stage = FrameStage::Targets(h, None);
                            FrameStep::Pending
                        }
                    },
                }
            },
        }
    }
}

} // verus!
