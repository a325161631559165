//! SMS (Smart Micro Systems) UDP protocol: header views and the radar cube
//! reassembler.  All multi-byte SMS fields are big-endian.
use vstd::prelude::*;
use crate::cube::{center_doppler_invert_range, idx4, rot, volume, Complex16};
use crate::bytes::{be2, be4, be8, read_be16, read_be32, read_be64, signed8, signed16, signed32, to_signed8, to_signed16, to_signed32};

verus! {

/// Fixed size of the SMS UDP packets.
pub const SMS_PACKET_SIZE: usize = 1458;

/// Start byte of every SMS transport header.
pub const START_PATTERN: u8 = 0x7E;

/// Application protocol of the debug port: a debug header precedes the port
/// header.
pub const DEBUG_PORT_PROTOCOL: u8 = 5;

/// Application protocol of a direct port: the port header comes first.
pub const DIRECT_PORT_PROTOCOL: u8 = 8;

/// Port ID of the radar cube stream.
pub const CUBE_PORT_ID: u32 = 5;

/// Port ID of the bin-properties stream.
pub const BIN_PROPERTIES_PORT_ID: u32 = 63;

/// Errors of the SMS codecs and of the cube reassembler.
#[derive(Debug, Clone, Copy, PartialEq, Eq, Structural)]
pub enum SMSError {
    StartPattern(u8),
    UnexpectedEndOfSlice(usize),
    InvalidHeaderLength(u8),
    InvalidPayloadLength(u16),
    InvalidPortId(u32),
    InvalidDebugFlags(u8),
    MessageCounterMissing,
    DebugHeaderMissing,
    PortHeaderMissing,
    CubeHeaderMissing,
    BinPropertiesMissing,
    MessageSequenceError,
    FrameCounterError,
    /// The cube that a header announces does not fit in memory.
    ShapeError,
    /// Elements written and elements expected when a frame ended early.
    MissingCubeData(usize, usize),
    DroppedMessages(u16),
}

/// The bytes that a parsed header view covers, or the error.
pub open spec fn bytes_of<T: View<V = Seq<u8>>>(r: Result<T, SMSError>) -> Result<Seq<u8>, SMSError> {
    match r {
        Ok(t) => Ok(t@),
        Err(e) => Err(e),
    }
}

/// The result of checking that `b` holds at least `len` bytes.
pub open spec fn at_least(b: Seq<u8>, len: int) -> Result<Seq<u8>, SMSError> {
    if b.len() < len {
        Err(SMSError::UnexpectedEndOfSlice(b.len() as usize))
    } else {
        Ok(b)
    }
}

// ---------------------------------------------------------------------------
// Transport header

/// Decoded SMS transport header.
#[derive(Debug, Clone, Copy, PartialEq, Eq, Structural)]
pub struct TransportHeader {
    pub start_pattern: u8,
    pub protocol_version: u8,
    pub header_length: u8,
    pub payload_length: u16,
    pub application_protocol: u8,
    pub flags: u32,
    pub message_counter: Option<u16>,
    pub client_id: Option<u32>,
    pub data_id: Option<u16>,
    pub segmentation: Option<u16>,
    pub crc: u16,
}

/// Length of the transport header's CRC field.
pub const TRANSPORT_CRC_LEN: usize = 2;

/// Maximum length of an SMS transport header.
pub const TRANSPORT_MAX_LEN: usize = 22;

/// Minimum length of an SMS transport header.
pub const TRANSPORT_MIN_LEN: usize = 12;

/// Size of the optional field that flag bit `bit` announces in the header
/// `b`: `size` when the bit is set in the low flags byte, else zero.
pub open spec fn opt_size(b: Seq<u8>, bit: u8, size: int) -> int {
    if b[9] & bit != 0 { size } else { 0 }
}

/// Size of the message counter field (flag 0x01).
pub open spec fn message_counter_size(b: Seq<u8>) -> int {
    opt_size(b, 0x01, 2)
}

/// Size of the client ID field (flag 0x08).
pub open spec fn client_id_size(b: Seq<u8>) -> int {
    opt_size(b, 0x08, 4)
}

/// Size of the data ID field (flag 0x20).
pub open spec fn data_id_size(b: Seq<u8>) -> int {
    opt_size(b, 0x20, 2)
}

/// Size of the segmentation field (flag 0x40).
pub open spec fn segmentation_size(b: Seq<u8>) -> int {
    opt_size(b, 0x40, 2)
}

/// Offset of the CRC field: the fixed fields, then the optional ones.
pub open spec fn crc_offset(b: Seq<u8>) -> int {
    10 + message_counter_size(b) + client_id_size(b) + data_id_size(b) + segmentation_size(b)
}

/// Length of the transport header `b` starts with.
pub open spec fn transport_len(b: Seq<u8>) -> int {
    crc_offset(b) + 2
}

/// Whether `b` holds a well-formed transport header and its whole payload:
/// the start pattern, a header length that agrees with the flags, and room
/// for header and payload.
pub open spec fn transport_valid(b: Seq<u8>) -> bool {
    &&& b.len() >= 12
    &&& b[0] == START_PATTERN
    &&& transport_len(b) <= b.len()
    &&& transport_len(b) == b[2]
    &&& b[2] + be2(b, 3) <= b.len()
}

/// The error that `from_slice` reports for `b`.
pub open spec fn transport_error(b: Seq<u8>) -> SMSError {
    if b.len() >= 12 && b[0] != START_PATTERN {
        SMSError::StartPattern(b[0])
    } else {
        SMSError::UnexpectedEndOfSlice(b.len() as usize)
    }
}

/// The payload after the transport header.
pub open spec fn transport_payload(b: Seq<u8>) -> Seq<u8> {
    b.subrange(transport_len(b), b.len() as int)
}

/// A slice that starts with a valid SMS transport header.
#[derive(Debug, Clone, Copy, PartialEq, Eq)]
pub struct TransportHeaderSlice<'a> {
    slice: &'a [u8],
}

impl<'a> View for TransportHeaderSlice<'a> {
    type V = Seq<u8>;

    /// The bytes of the whole packet.
    closed spec fn view(&self) -> Seq<u8> {
        self.slice@
    }
}

fn flag_size(slice: &[u8], bit: u8, size: usize) -> (r: usize)
    requires
        slice@.len() >= 12,
    ensures
        r == opt_size(slice@, bit, size as int),
{
    if slice[9] & bit != 0 {
        size
    } else {
        0
    }
}

fn crc_offset_of(slice: &[u8]) -> (r: usize)
    requires
        slice@.len() >= 12,
    ensures
        r == crc_offset(slice@),
        r <= 20,
{
    10 + flag_size(slice, 0x01, 2) + flag_size(slice, 0x08, 4) + flag_size(slice, 0x20, 2)
        + flag_size(slice, 0x40, 2)
}

impl<'a> TransportHeaderSlice<'a> {
    #[verifier::type_invariant]
    spec fn inv(self) -> bool {
        transport_valid(self.slice@)
    }

    /// Validates the transport header at the start of `slice`.
    pub fn from_slice(slice: &'a [u8]) -> (r: Result<TransportHeaderSlice<'a>, SMSError>)
        ensures
            r is Ok <==> transport_valid(slice@),
            r matches Ok(t) ==> t@ == slice@,
            r matches Err(e) ==> e == transport_error(slice@),
    {
        let len = slice.len();
        if len < TRANSPORT_MIN_LEN {
            return Err(SMSError::UnexpectedEndOfSlice(len));
        }
        if slice[0] != START_PATTERN {
            return Err(SMSError::StartPattern(slice[0]));
        }
        let crc = crc_offset_of(slice);
        if crc + TRANSPORT_CRC_LEN > len {
            return Err(SMSError::UnexpectedEndOfSlice(len));
        }
        if crc + TRANSPORT_CRC_LEN != slice[2] as usize {
            return Err(SMSError::UnexpectedEndOfSlice(len));
        }
        if len < slice[2] as usize + read_be16(slice, 3) as usize {
            return Err(SMSError::UnexpectedEndOfSlice(len));
        }
        Ok(TransportHeaderSlice { slice })
    }

    /// Decodes every field of the header.
    pub fn to_header(&self) -> (r: TransportHeader)
        ensures
            r.start_pattern == self@[0],
            r.protocol_version == self@[1],
            r.header_length == self@[2],
            r.payload_length == be2(self@, 3),
            r.application_protocol == self@[5],
            r.flags == be4(self@, 6),
            r.message_counter == self.spec_message_counter(),
            r.client_id == self.spec_client_id(),
            r.data_id == self.spec_data_id(),
            r.segmentation == self.spec_segmentation(),
            r.crc == be2(self@, crc_offset(self@)),
    {
        proof {
            use_type_invariant(self);
        }
        let crc = crc_offset_of(self.slice);
        TransportHeader {
            start_pattern: self.slice[0],
            protocol_version: self.slice[1],
            header_length: self.slice[2],
            payload_length: read_be16(self.slice, 3),
            application_protocol: self.slice[5],
            flags: read_be32(self.slice, 6),
            message_counter: self.message_counter(),
            client_id: self.client_id(),
            data_id: self.data_id(),
            segmentation: self.segmentation(),
            crc: read_be16(self.slice, crc),
        }
    }

    pub open spec fn spec_message_counter(&self) -> Option<u16> {
        if message_counter_size(self@) > 0 {
            Some(be2(self@, 10) as u16)
        } else {
            None
        }
    }

    pub open spec fn spec_client_id(&self) -> Option<u32> {
        if client_id_size(self@) > 0 {
            Some(be4(self@, 10 + message_counter_size(self@)) as u32)
        } else {
            None
        }
    }

    pub open spec fn spec_data_id(&self) -> Option<u16> {
        if data_id_size(self@) > 0 {
            Some(be2(self@, 10 + message_counter_size(self@) + client_id_size(self@)) as u16)
        } else {
            None
        }
    }

    pub open spec fn spec_segmentation(&self) -> Option<u16> {
        if segmentation_size(self@) > 0 {
            Some(
                be2(
                    self@,
                    10 + message_counter_size(self@) + client_id_size(self@) + data_id_size(
                        self@,
                    ),
                ) as u16,
            )
        } else {
            None
        }
    }

    /// The message counter, when the flags announce one.
    pub fn message_counter(&self) -> (r: Option<u16>)
        ensures
            r == self.spec_message_counter(),
    {
        proof {
            use_type_invariant(self);
        }
        if flag_size(self.slice, 0x01, 2) > 0 {
            Some(read_be16(self.slice, 10))
        } else {
            None
        }
    }

    /// The application protocol number.
    pub fn application_protocol(&self) -> (r: u8)
        ensures
            r == self@[5],
    {
        proof {
            use_type_invariant(self);
        }
        self.slice[5]
    }

    /// The client ID, when the flags announce one.
    pub fn client_id(&self) -> (r: Option<u32>)
        ensures
            r == self.spec_client_id(),
    {
        proof {
            use_type_invariant(self);
        }
        if flag_size(self.slice, 0x08, 4) > 0 {
            Some(read_be32(self.slice, 10 + flag_size(self.slice, 0x01, 2)))
        } else {
            None
        }
    }

    /// The data ID, when the flags announce one.
    pub fn data_id(&self) -> (r: Option<u16>)
        ensures
            r == self.spec_data_id(),
    {
        proof {
            use_type_invariant(self);
        }
        if flag_size(self.slice, 0x20, 2) > 0 {
            let at = 10 + flag_size(self.slice, 0x01, 2) + flag_size(self.slice, 0x08, 4);
            Some(read_be16(self.slice, at))
        } else {
            None
        }
    }

    /// The segmentation field, when the flags announce one.
    pub fn segmentation(&self) -> (r: Option<u16>)
        ensures
            r == self.spec_segmentation(),
    {
        proof {
            use_type_invariant(self);
        }
        if flag_size(self.slice, 0x40, 2) > 0 {
            let at = 10 + flag_size(self.slice, 0x01, 2) + flag_size(self.slice, 0x08, 4)
                + flag_size(self.slice, 0x20, 2);
            Some(read_be16(self.slice, at))
        } else {
            None
        }
    }

    /// The header length in bytes.
    pub fn len(&self) -> (r: usize)
        ensures
            r == transport_len(self@),
    {
        proof {
            use_type_invariant(self);
        }
        crc_offset_of(self.slice) + TRANSPORT_CRC_LEN
    }

    /// Whether the underlying slice is empty (never, for a valid header).
    pub fn is_empty(&self) -> (r: bool)
        ensures
            r == (self@.len() == 0),
            !r,
    {
        proof {
            use_type_invariant(self);
        }
        self.slice.len() == 0
    }

    /// The bytes after the transport header.
    pub fn payload(&self) -> (r: &'a [u8])
        ensures
            r@ == transport_payload(self@),
    {
        proof {
            use_type_invariant(self);
        }
        let n = self.len();
        vstd::slice::slice_subrange(self.slice, n, self.slice.len())
    }

    /// The debug header, present under the debug-port protocol.
    pub fn debug_header(&self) -> (r: Result<DebugHeaderSlice<'a>, SMSError>)
        ensures
            bytes_of(r) == spec_debug_header(self@),
    {
        if self.application_protocol() != DEBUG_PORT_PROTOCOL {
            return Err(SMSError::DebugHeaderMissing);
        }
        DebugHeaderSlice::from_slice(self.payload())
    }

    /// The port header: after the debug header on a start-of-frame or footer
    /// packet of the debug port, or first on a direct port.
    pub fn port_header(&self) -> (r: Result<PortHeaderSlice<'a>, SMSError>)
        ensures
            bytes_of(r) == spec_port_header(self@),
    {
        let protocol = self.application_protocol();
        if protocol == DEBUG_PORT_PROTOCOL {
            let debug = self.debug_header()?;
            let flags = debug.flags();
            if flags == START_OF_FRAME || flags == FRAME_FOOTER {
                PortHeaderSlice::from_slice(debug.payload())
            } else {
                Err(SMSError::PortHeaderMissing)
            }
        } else if protocol == DIRECT_PORT_PROTOCOL {
            PortHeaderSlice::from_slice(self.payload())
        } else {
            Err(SMSError::PortHeaderMissing)
        }
    }

    /// The cube header that follows the port header of the cube port.
    pub fn cube_header(&self) -> (r: Result<CubeHeaderSlice<'a>, SMSError>)
        ensures
            bytes_of(r) == (match spec_port_header(self@) {
                Ok(p) => spec_cube_header(p),
                Err(e) => Err(e),
            }),
    {
        self.port_header()?.cube_header()
    }

    /// The bin properties that follow the port header of the bin-properties
    /// port.
    pub fn bin_properties(&self) -> (r: Result<BinPropertiesSlice<'a>, SMSError>)
        ensures
            bytes_of(r) == (match spec_port_header(self@) {
                Ok(p) => spec_bin_properties(p),
                Err(e) => Err(e),
            }),
    {
        self.port_header()?.bin_properties()
    }

    /// The frame counter of the debug header, if there is one.
    pub fn frame_counter(&self) -> (r: Option<u32>)
        ensures
            r == (match spec_debug_header(self@) {
                Ok(d) => Some(be4(d, 0) as u32),
                Err(_) => None::<u32>,
            }),
    {
        match self.debug_header() {
            Ok(header) => Some(header.frame_counter()),
            Err(_) => None,
        }
    }
}

// ---------------------------------------------------------------------------
// Debug header

/// Flag of the debug header: frame data.
pub const FRAME_DATA: u8 = 0;

/// Flag of the debug header: first packet of a frame.
pub const START_OF_FRAME: u8 = 1;

/// Flag of the debug header: last data packet of a frame.
pub const END_OF_DATA: u8 = 2;

/// Flag of the debug header: the footer, which carries the bin properties.
pub const FRAME_FOOTER: u8 = 3;

/// Length of the debug header.
pub const DEBUG_HEADER_LEN: usize = 8;

/// Decoded SMS debug header.
#[derive(Debug, Clone, Copy, PartialEq, Eq, Structural)]
pub struct DebugHeader {
    pub frame_counter: u32,
    pub flags: u8,
    pub frame_delay: u8,
}

/// A slice that starts with a debug header.
#[derive(Debug, Clone, Copy, PartialEq, Eq)]
pub struct DebugHeaderSlice<'a> {
    slice: &'a [u8],
}

impl<'a> View for DebugHeaderSlice<'a> {
    type V = Seq<u8>;

    closed spec fn view(&self) -> Seq<u8> {
        self.slice@
    }
}

/// The bytes from the debug header on, in the transport packet `b`.
pub open spec fn spec_debug_header(b: Seq<u8>) -> Result<Seq<u8>, SMSError> {
    if b[5] != DEBUG_PORT_PROTOCOL {
        Err(SMSError::DebugHeaderMissing)
    } else {
        at_least(transport_payload(b), DEBUG_HEADER_LEN as int)
    }
}

/// The payload after the debug header `d`.
pub open spec fn debug_payload(d: Seq<u8>) -> Seq<u8> {
    d.subrange(DEBUG_HEADER_LEN as int, d.len() as int)
}

/// The bytes from the port header on, in the transport packet `b`.
pub open spec fn spec_port_header(b: Seq<u8>) -> Result<Seq<u8>, SMSError> {
    if b[5] == DEBUG_PORT_PROTOCOL {
        match spec_debug_header(b) {
            Ok(d) => if d[4] == START_OF_FRAME || d[4] == FRAME_FOOTER {
                at_least(debug_payload(d), PORT_HEADER_LEN as int)
            } else {
                Err(SMSError::PortHeaderMissing)
            },
            Err(e) => Err(e),
        }
    } else if b[5] == DIRECT_PORT_PROTOCOL {
        at_least(transport_payload(b), PORT_HEADER_LEN as int)
    } else {
        Err(SMSError::PortHeaderMissing)
    }
}

impl<'a> DebugHeaderSlice<'a> {
    #[verifier::type_invariant]
    spec fn inv(self) -> bool {
        self.slice@.len() >= DEBUG_HEADER_LEN
    }

    /// Checks that `slice` can hold a debug header.
    pub fn from_slice(slice: &'a [u8]) -> (r: Result<DebugHeaderSlice<'a>, SMSError>)
        ensures
            bytes_of(r) == at_least(slice@, DEBUG_HEADER_LEN as int),
    {
        if slice.len() < DEBUG_HEADER_LEN {
            return Err(SMSError::UnexpectedEndOfSlice(slice.len()));
        }
        Ok(DebugHeaderSlice { slice })
    }

    /// Decodes the header.
    pub fn to_header(&self) -> (r: DebugHeader)
        ensures
            r.frame_counter == be4(self@, 0),
            r.flags == self@[4],
            r.frame_delay == self@[5],
    {
        DebugHeader {
            frame_counter: self.frame_counter(),
            flags: self.flags(),
            frame_delay: self.frame_delay(),
        }
    }

    /// The frame counter.
    pub fn frame_counter(&self) -> (r: u32)
        ensures
            r == be4(self@, 0),
    {
        proof {
            use_type_invariant(self);
        }
        read_be32(self.slice, 0)
    }

    /// The flags: start of frame, frame data, end of data or footer.
    pub fn flags(&self) -> (r: u8)
        ensures
            r == self@[4],
    {
        proof {
            use_type_invariant(self);
        }
        self.slice[4]
    }

    /// The frame delay.
    pub fn frame_delay(&self) -> (r: u8)
        ensures
            r == self@[5],
    {
        proof {
            use_type_invariant(self);
        }
        self.slice[5]
    }

    /// The bytes after the debug header.
    pub fn payload(&self) -> (r: &'a [u8])
        ensures
            r@ == debug_payload(self@),
    {
        proof {
            use_type_invariant(self);
        }
        vstd::slice::slice_subrange(self.slice, DEBUG_HEADER_LEN, self.slice.len())
    }
}


// ---------------------------------------------------------------------------
// Port header

/// Length of the port header.
pub const PORT_HEADER_LEN: usize = 24;

/// Decoded SMS port header.
#[derive(Debug, Clone, Copy, PartialEq, Eq, Structural)]
pub struct PortHeader {
    pub id: u32,
    pub interface_version_major: i16,
    pub interface_version_minor: i16,
    pub timestamp: u64,
    pub size: u32,
    pub endianess: u8,
    pub index: u8,
    pub header_version_major: u8,
    pub header_version_minor: u8,
}

/// A slice that starts with a port header.
#[derive(Debug, Clone, Copy, PartialEq, Eq)]
pub struct PortHeaderSlice<'a> {
    slice: &'a [u8],
}

impl<'a> View for PortHeaderSlice<'a> {
    type V = Seq<u8>;

    closed spec fn view(&self) -> Seq<u8> {
        self.slice@
    }
}

/// The payload after the port header `p`.
pub open spec fn port_payload(p: Seq<u8>) -> Seq<u8> {
    p.subrange(PORT_HEADER_LEN as int, p.len() as int)
}

/// The bytes from the cube header on, after the port header `p`.
pub open spec fn spec_cube_header(p: Seq<u8>) -> Result<Seq<u8>, SMSError> {
    if be4(p, 0) == CUBE_PORT_ID {
        at_least(port_payload(p), CUBE_HEADER_LEN as int)
    } else {
        Err(SMSError::CubeHeaderMissing)
    }
}

/// The bytes from the bin properties on, after the port header `p`.
pub open spec fn spec_bin_properties(p: Seq<u8>) -> Result<Seq<u8>, SMSError> {
    if be4(p, 0) == BIN_PROPERTIES_PORT_ID {
        at_least(port_payload(p), BIN_PROPERTIES_LEN as int)
    } else {
        Err(SMSError::BinPropertiesMissing)
    }
}

impl<'a> PortHeaderSlice<'a> {
    #[verifier::type_invariant]
    spec fn inv(self) -> bool {
        self.slice@.len() >= PORT_HEADER_LEN
    }

    /// Checks that `slice` can hold a port header.
    pub fn from_slice(slice: &'a [u8]) -> (r: Result<PortHeaderSlice<'a>, SMSError>)
        ensures
            bytes_of(r) == at_least(slice@, PORT_HEADER_LEN as int),
    {
        if slice.len() < PORT_HEADER_LEN {
            return Err(SMSError::UnexpectedEndOfSlice(slice.len()));
        }
        Ok(PortHeaderSlice { slice })
    }

    /// Decodes the header.
    pub fn to_header(&self) -> (r: PortHeader)
        ensures
            r.id == be4(self@, 0),
            r.interface_version_major == signed16(be2(self@, 4)),
            r.interface_version_minor == signed16(be2(self@, 6)),
            r.timestamp == be8(self@, 8),
            r.size == be4(self@, 16),
            r.endianess == self@[20],
            r.index == self@[21],
            r.header_version_major == self@[22],
            r.header_version_minor == self@[23],
    {
        proof {
            use_type_invariant(self);
        }
        PortHeader {
            id: read_be32(self.slice, 0),
            interface_version_major: to_signed16(read_be16(self.slice, 4)),
            interface_version_minor: to_signed16(read_be16(self.slice, 6)),
            timestamp: read_be64(self.slice, 8),
            size: read_be32(self.slice, 16),
            endianess: self.slice[20],
            index: self.slice[21],
            header_version_major: self.slice[22],
            header_version_minor: self.slice[23],
        }
    }

    /// The port ID.
    pub fn id(&self) -> (r: u32)
        ensures
            r == be4(self@, 0),
    {
        proof {
            use_type_invariant(self);
        }
        read_be32(self.slice, 0)
    }

    /// The sensor timestamp.
    pub fn timestamp(&self) -> (r: u64)
        ensures
            r == be8(self@, 8),
    {
        proof {
            use_type_invariant(self);
        }
        read_be64(self.slice, 8)
    }

    /// The cube header, present on the cube port.
    pub fn cube_header(&self) -> (r: Result<CubeHeaderSlice<'a>, SMSError>)
        ensures
            bytes_of(r) == spec_cube_header(self@),
    {
        if self.id() == CUBE_PORT_ID {
            CubeHeaderSlice::from_slize(self.payload())
        } else {
            Err(SMSError::CubeHeaderMissing)
        }
    }

    /// The bin properties, present on the bin-properties port.
    pub fn bin_properties(&self) -> (r: Result<BinPropertiesSlice<'a>, SMSError>)
        ensures
            bytes_of(r) == spec_bin_properties(self@),
    {
        if self.id() == BIN_PROPERTIES_PORT_ID {
            BinPropertiesSlice::from_slize(self.payload())
        } else {
            Err(SMSError::BinPropertiesMissing)
        }
    }

    /// The bytes after the port header.
    pub fn payload(&self) -> (r: &'a [u8])
        ensures
            r@ == port_payload(self@),
    {
        proof {
            use_type_invariant(self);
        }
        vstd::slice::slice_subrange(self.slice, PORT_HEADER_LEN, self.slice.len())
    }
}

// ---------------------------------------------------------------------------
// Cube header

/// Length of the cube header.
pub const CUBE_HEADER_LEN: usize = 40;

/// Decoded radar cube header.
#[derive(Debug, Clone, Copy, PartialEq, Eq, Structural)]
pub struct CubeHeader {
    /// Memory offset from one element to its imaginary part.
    pub imag_offset: i32,
    /// Memory offset from one element to its real part.
    pub real_offset: i32,
    /// Memory offset between two range gates.
    pub range_gate_offset: i32,
    /// Memory offset between two doppler bins.
    pub doppler_bin_offset: i32,
    /// Memory offset between two RX channels.
    pub rx_channel_offset: i32,
    /// Memory offset between two chirp types.
    pub chirp_type_offset: i32,
    /// Number of range gates.
    pub range_gates: i16,
    /// Index of the first range gate stored.
    pub first_range_gate: i16,
    /// Number of doppler bins.
    pub doppler_bins: i16,
    /// Number of RX channels.
    pub rx_channels: i8,
    /// Number of chirp types.
    pub chirp_types: i8,
    /// Size of one element in bytes.
    pub element_size: i8,
    /// Type of the elements.
    pub element_type: i8,
    /// Number of padding bytes before the cube data.
    pub padding_bytes: i8,
}

/// A slice that starts with a cube header.
#[derive(Debug, Clone, Copy, PartialEq, Eq)]
pub struct CubeHeaderSlice<'a> {
    slice: &'a [u8],
}

impl<'a> View for CubeHeaderSlice<'a> {
    type V = Seq<u8>;

    closed spec fn view(&self) -> Seq<u8> {
        self.slice@
    }
}

/// Where the cube samples start after the cube header `c`: after the header
/// and its padding, or at the end when the padding overruns the slice.
pub open spec fn cube_data_start(c: Seq<u8>) -> int {
    let start = CUBE_HEADER_LEN + c[39];
    if start <= c.len() { start } else { c.len() as int }
}

/// The sample bytes after the cube header `c`.
pub open spec fn cube_payload(c: Seq<u8>) -> Seq<u8> {
    c.subrange(cube_data_start(c), c.len() as int)
}

impl<'a> CubeHeaderSlice<'a> {
    #[verifier::type_invariant]
    spec fn inv(self) -> bool {
        self.slice@.len() >= CUBE_HEADER_LEN
    }

    /// Checks that `slice` can hold a cube header.
    pub fn from_slize(slice: &'a [u8]) -> (r: Result<CubeHeaderSlice<'a>, SMSError>)
        ensures
            bytes_of(r) == at_least(slice@, CUBE_HEADER_LEN as int),
    {
        if slice.len() < CUBE_HEADER_LEN {
            return Err(SMSError::UnexpectedEndOfSlice(slice.len()));
        }
        Ok(CubeHeaderSlice { slice })
    }

    /// Decodes the header.
    pub fn to_header(&self) -> (r: CubeHeader)
        ensures
            r.imag_offset == signed32(be4(self@, 0)),
            r.real_offset == signed32(be4(self@, 4)),
            r.range_gate_offset == signed32(be4(self@, 8)),
            r.doppler_bin_offset == signed32(be4(self@, 12)),
            r.rx_channel_offset == signed32(be4(self@, 16)),
            r.chirp_type_offset == signed32(be4(self@, 20)),
            r.range_gates == signed16(be2(self@, 24)),
            r.first_range_gate == signed16(be2(self@, 26)),
            r.doppler_bins == signed16(be2(self@, 28)),
            r.rx_channels == signed8(self@[30] as int),
            r.chirp_types == signed8(self@[31] as int),
            r.element_size == signed8(self@[32] as int),
            r.element_type == signed8(self@[33] as int),
            r.padding_bytes == signed8(self@[39] as int),
    {
        proof {
            use_type_invariant(self);
        }
        CubeHeader {
            imag_offset: to_signed32(read_be32(self.slice, 0)),
            real_offset: to_signed32(read_be32(self.slice, 4)),
            range_gate_offset: to_signed32(read_be32(self.slice, 8)),
            doppler_bin_offset: to_signed32(read_be32(self.slice, 12)),
            rx_channel_offset: to_signed32(read_be32(self.slice, 16)),
            chirp_type_offset: to_signed32(read_be32(self.slice, 20)),
            range_gates: to_signed16(read_be16(self.slice, 24)),
            first_range_gate: to_signed16(read_be16(self.slice, 26)),
            doppler_bins: to_signed16(read_be16(self.slice, 28)),
            rx_channels: to_signed8(self.slice[30]),
            chirp_types: to_signed8(self.slice[31]),
            element_size: to_signed8(self.slice[32]),
            element_type: to_signed8(self.slice[33]),
            padding_bytes: to_signed8(self.slice[39]),
        }
    }

    /// The number of range gates.
    pub fn range_gates(&self) -> (r: i16)
        ensures
            r == signed16(be2(self@, 24)),
    {
        proof {
            use_type_invariant(self);
        }
        to_signed16(read_be16(self.slice, 24))
    }

    /// The number of doppler bins.
    pub fn doppler_bins(&self) -> (r: i16)
        ensures
            r == signed16(be2(self@, 28)),
    {
        proof {
            use_type_invariant(self);
        }
        to_signed16(read_be16(self.slice, 28))
    }

    /// The number of RX channels.
    pub fn rx_channels(&self) -> (r: i8)
        ensures
            r == signed8(self@[30] as int),
    {
        proof {
            use_type_invariant(self);
        }
        to_signed8(self.slice[30])
    }

    /// The number of chirp types.
    pub fn chirp_types(&self) -> (r: i8)
        ensures
            r == signed8(self@[31] as int),
    {
        proof {
            use_type_invariant(self);
        }
        to_signed8(self.slice[31])
    }

    /// The number of padding bytes before the cube data.
    pub fn padding_bytes(&self) -> (r: usize)
        ensures
            r == self@[39],
    {
        proof {
            use_type_invariant(self);
        }
        self.slice[39] as usize
    }

    /// The cube dimensions as unsigned wire values: chirp types, range gates,
    /// RX channels and doppler bins.
    pub fn dimensions(&self) -> (r: [usize; 4])
        ensures
            r@ == cube_dims(self@),
    {
        proof {
            use_type_invariant(self);
        }
        let r = [
            self.slice[31] as usize,
            read_be16(self.slice, 24) as usize,
            self.slice[30] as usize,
            read_be16(self.slice, 28) as usize,
        ];
        assert(r@ =~= cube_dims(self@));
        r
    }

    /// The sample bytes after the header and its padding.
    pub fn payload(&self) -> (r: &'a [u8])
        ensures
            r@ == cube_payload(self@),
    {
        proof {
            use_type_invariant(self);
        }
        let start = CUBE_HEADER_LEN + self.padding_bytes();
        let start = if start <= self.slice.len() {
            start
        } else {
            self.slice.len()
        };
        vstd::slice::slice_subrange(self.slice, start, self.slice.len())
    }
}

/// The cube shape that the cube header `c` announces:
/// `[chirp_types, range_gates, rx_channels, doppler_bins]`.
pub open spec fn cube_dims(c: Seq<u8>) -> Seq<usize> {
    seq![c[31] as usize, be2(c, 24) as usize, c[30] as usize, be2(c, 28) as usize]
}

// ---------------------------------------------------------------------------
// Bin properties

/// Length of the bin properties.
pub const BIN_PROPERTIES_LEN: usize = 12;

/// Bin properties of a cube, each an IEEE-754 single-precision bit pattern.
#[derive(Debug, Clone, Copy, PartialEq, Eq, Structural)]
pub struct BinProperties {
    pub speed_per_bin: u32,
    pub range_per_bin: u32,
    pub bin_per_speed: u32,
}

/// A slice that starts with the bin properties.
#[derive(Debug, Clone, Copy, PartialEq, Eq)]
pub struct BinPropertiesSlice<'a> {
    slice: &'a [u8],
}

impl<'a> View for BinPropertiesSlice<'a> {
    type V = Seq<u8>;

    closed spec fn view(&self) -> Seq<u8> {
        self.slice@
    }
}

/// The bin properties that the bytes `b` hold.
pub open spec fn spec_bin_props(b: Seq<u8>) -> BinProperties {
    BinProperties {
        speed_per_bin: be4(b, 0) as u32,
        range_per_bin: be4(b, 4) as u32,
        bin_per_speed: be4(b, 8) as u32,
    }
}

impl<'a> BinPropertiesSlice<'a> {
    #[verifier::type_invariant]
    spec fn inv(self) -> bool {
        self.slice@.len() >= BIN_PROPERTIES_LEN
    }

    /// Checks that `slice` can hold the bin properties.
    pub fn from_slize(slice: &'a [u8]) -> (r: Result<BinPropertiesSlice<'a>, SMSError>)
        ensures
            bytes_of(r) == at_least(slice@, BIN_PROPERTIES_LEN as int),
    {
        if slice.len() < BIN_PROPERTIES_LEN {
            return Err(SMSError::UnexpectedEndOfSlice(slice.len()));
        }
        Ok(BinPropertiesSlice { slice })
    }

    /// Decodes the bin properties.
    pub fn to_header(&self) -> (r: BinProperties)
        ensures
            r == spec_bin_props(self@),
    {
        proof {
            use_type_invariant(self);
        }
        BinProperties {
            speed_per_bin: read_be32(self.slice, 0),
            range_per_bin: read_be32(self.slice, 4),
            bin_per_speed: read_be32(self.slice, 8),
        }
    }
}


// ---------------------------------------------------------------------------
// Radar cube reassembly

/// A reassembled radar cube.  `data` holds `shape[0] * shape[1] * shape[2] *
/// shape[3]` samples in row-major order over `[sequence, range, rx,
/// doppler]`, doppler centered and range inverted.
#[derive(Debug, Clone, PartialEq)]
pub struct RadarCube {
    pub timestamp: u64,
    pub frame_counter: u32,
    pub packets_captured: u16,
    pub packets_skipped: u16,
    /// Samples that no packet filled.
    pub missing_data: usize,
    pub bin_properties: BinProperties,
    pub shape: [usize; 4],
    pub data: Vec<Complex16>,
}

/// The value of a sample that no packet filled.
pub open spec fn sentinel() -> Complex16 {
    Complex16 { re: 32767, im: 32767 }
}

/// Sample `k` of the sample bytes `b`: a big-endian 32-bit word whose low
/// half is the real part and whose high half is the imaginary part.
pub open spec fn sample(b: Seq<u8>, k: int) -> Complex16 {
    Complex16 { re: signed16(be2(b, 4 * k + 2)) as i16, im: signed16(be2(b, 4 * k)) as i16 }
}

/// `c` with the first `n` samples of `b` written from position `at` on.
pub open spec fn written(c: Seq<Complex16>, at: int, b: Seq<u8>, n: int) -> Seq<Complex16> {
    Seq::new(c.len(), |i: int| if at <= i < at + n { sample(b, i - at) } else { c[i] })
}

/// The smaller of two integers.
pub open spec fn min(a: int, b: int) -> int {
    if a <= b { a } else { b }
}

/// Whether the cube shape `dims` can be counted in a `usize`, factor by factor.
pub open spec fn dims_fit(dims: Seq<usize>) -> bool {
    &&& dims[0] * dims[1] <= usize::MAX
    &&& dims[0] * dims[1] * dims[2] <= usize::MAX
    &&& volume(dims) <= usize::MAX
}

/// Whether `out` is `src`, of shape `dims`, with the doppler axis centered
/// and the range axis inverted.
pub open spec fn is_reordered(out: Seq<Complex16>, src: Seq<Complex16>, dims: Seq<usize>) -> bool {
    &&& out.len() == src.len()
    &&& forall|s: int, r: int, x: int, d: int|
        0 <= s < dims[0] && 0 <= r < dims[1] && 0 <= x < dims[2] && 0 <= d < dims[3]
            ==> out[#[trigger] idx4(s, r, x, d, dims[1] as int, dims[2] as int, dims[3] as int)]
            == src[idx4(
            s,
            dims[1] - 1 - r,
            x,
            rot(d, dims[3] as int),
            dims[1] as int,
            dims[2] as int,
            dims[3] as int,
        )]
}

/// The bytes of a parse that succeeded, or nothing.
pub open spec fn ok_bytes(r: Result<Seq<u8>, SMSError>) -> Seq<u8> {
    match r {
        Ok(b) => b,
        Err(_) => Seq::empty(),
    }
}

/// Why a start-of-frame packet `b` cannot open a cube, if it cannot.
pub open spec fn start_error(b: Seq<u8>) -> Option<SMSError> {
    match spec_port_header(b) {
        Err(e) => Some(e),
        Ok(p) => if message_counter_size(b) == 0 {
            Some(SMSError::MessageCounterMissing)
        } else {
            match spec_cube_header(p) {
                Err(e) => Some(e),
                Ok(c) => if !dims_fit(cube_dims(c)) {
                    Some(SMSError::ShapeError)
                } else {
                    None
                },
            }
        },
    }
}

/// Why a footer packet `b` cannot close a cube, besides the reader's state.
pub open spec fn footer_error(b: Seq<u8>) -> Option<SMSError> {
    match spec_port_header(b) {
        Err(e) => Some(e),
        Ok(p) => match spec_bin_properties(p) {
            Err(e) => Some(e),
            Ok(_) => None,
        },
    }
}

/// Whether a start of frame with debug header bytes `d` abandons the cube
/// of another frame that the reader `old` is filling.
pub open spec fn abandons(old: RadarCubeReader, d: Seq<u8>) -> bool {
    old.cube_shape is Some && old.frame_counter != be4(d, 0)
}

/// What a start-of-frame packet `b`, with debug header bytes `d`, does to
/// the reader `old`: the reader `new` that results and the value `r`
/// returned.  A cube that opens while another frame's cube is in progress
/// reports `FrameCounterError` for the abandoned frame.
pub open spec fn start_spec(old: RadarCubeReader, new: RadarCubeReader, r: Result<Option<RadarCube>, SMSError>, b: Seq<u8>, d: Seq<u8>) -> bool {
    &&& (start_error(b) matches Some(e) ==> r == Err::<Option<RadarCube>, SMSError>(e) && new.is_idle())
    &&& (start_error(b) is None ==> {
                let p = ok_bytes(spec_port_header(b));
                let c = ok_bytes(spec_cube_header(p));
                let dims = cube_dims(c);
                let n = min(cube_payload(c).len() as int / 4, volume(dims));
                &&& r == if abandons(old, d) {
                    Err::<Option<RadarCube>, SMSError>(SMSError::FrameCounterError)
                } else {
                    Ok::<Option<RadarCube>, SMSError>(None)
                }
                &&& new.timestamp == be8(p, 8)
                &&& new.frame_counter == be4(d, 0)
                &&& new.first_message == be2(b, 10)
                &&& new.message_counter == be2(b, 10)
                &&& new.received_messages == 1
                &&& new.packets_captured == 1
                &&& new.packets_skipped == 0
                &&& new.error.is_none()
                &&& new.cube_shape matches Some(sh) && sh@ == dims
                &&& new.cube_index == n
                &&& new.cube_captured == n
                &&& new.cube@ == written(
                    Seq::new(volume(dims) as nat, |i: int| sentinel()),
                    0,
                    cube_payload(c),
                    n,
                )
            })
}

/// The message counter that follows `m`.
pub open spec fn next_counter(m: u16) -> int {
    (m + 1) % 0x1_0000
}

/// Number of messages missing between the expected counter `e` and the
/// received counter `m`, modulo 2^16.
pub open spec fn counter_gap(m: u16, e: int) -> int {
    if m >= e { m - e } else { m - e + 0x1_0000 }
}

/// Write position after the gap before a data packet with counter `m` and
/// `plen` payload bytes: advanced by the space of the missing packets, at
/// most to the end of the buffer.
pub open spec fn index_after_gap(old: RadarCubeReader, m: u16, plen: int) -> int {
    let e = next_counter(old.message_counter);
    if m == e {
        old.cube_index as int
    } else {
        min(old.cube_index + counter_gap(m, e) * plen / 4, old.cube@.len() as int)
    }
}

/// What a data packet `b`, with debug header bytes `d`, does to the reader
/// `old`: the reader `new` that results and the value `r` returned.
pub open spec fn data_spec(old: RadarCubeReader, new: RadarCubeReader, r: Result<Option<RadarCube>, SMSError>, b: Seq<u8>, d: Seq<u8>) -> bool {
    if old.cube_shape is None {
        r == Ok::<Option<RadarCube>, SMSError>(None) && new == old
    } else if be4(d, 0) != old.frame_counter {
        &&& r == Ok::<Option<RadarCube>, SMSError>(None)
        &&& new == RadarCubeReader {
            error: Some(SMSError::FrameCounterError),
            cube_index: old.cube@.len() as usize,
            ..old
        }
    } else if message_counter_size(b) == 0 {
        r == Err::<Option<RadarCube>, SMSError>(SMSError::MessageCounterMissing) && new == old
    } else {
        let m = be2(b, 10) as u16;
        let e = next_counter(old.message_counter);
        let payload = debug_payload(d);
        let len = old.cube@.len() as int;
        let at = index_after_gap(old, m, payload.len() as int);
        let n = min(payload.len() as int / 4, len - at);
        &&& r == Ok::<Option<RadarCube>, SMSError>(None)
        &&& new.timestamp == old.timestamp
        &&& new.frame_counter == old.frame_counter
        &&& new.first_message == old.first_message
        &&& new.message_counter == m
        &&& new.received_messages == (old.received_messages + 1) % 0x1_0000
        &&& new.error == old.error
        &&& new.cube_shape == old.cube_shape
        &&& new.packets_skipped == if m != e && at < len {
            (old.packets_skipped + counter_gap(m, e)) % 0x1_0000
        } else {
            old.packets_skipped as int
        }
        &&& if at < len {
            &&& new.packets_captured == (old.packets_captured + 1) % 0x1_0000
            &&& new.cube@ == written(old.cube@, at, payload, n)
            &&& new.cube_index == min(at + payload.len() as int / 4, len)
            &&& new.cube_captured == old.cube_captured + n
        } else {
            &&& new.packets_captured == old.packets_captured
            &&& new.cube@ == old.cube@
            &&& new.cube_index == at
            &&& new.cube_captured == old.cube_captured
        }
    }
}

/// Why a footer packet `b`, with debug header bytes `d`, cannot close the
/// cube of the reader `old`, if it cannot.
pub open spec fn footer_failure(old: RadarCubeReader, b: Seq<u8>, d: Seq<u8>) -> Option<SMSError> {
    if old.cube_shape is None {
        Some(SMSError::CubeHeaderMissing)
    } else if be4(d, 0) != old.frame_counter {
        Some(SMSError::FrameCounterError)
    } else if old.error is Some {
        old.error
    } else if old.cube_index < old.cube@.len() {
        Some(SMSError::MissingCubeData(old.cube_index, old.cube@.len() as usize))
    } else {
        footer_error(b)
    }
}

/// What a footer packet `b`, with debug header bytes `d`, does to the reader
/// `old`: the reader `new` that results and the value `r` returned.
pub open spec fn footer_spec(old: RadarCubeReader, new: RadarCubeReader, r: Result<Option<RadarCube>, SMSError>, b: Seq<u8>, d: Seq<u8>) -> bool {
    &&& new.is_idle()
    &&& match footer_failure(old, b, d) {
        Some(e) => r == Err::<Option<RadarCube>, SMSError>(e),
        None => r matches Ok(Some(c)) && {
            &&& c.timestamp == old.timestamp
            &&& c.frame_counter == old.frame_counter
            &&& c.packets_captured == old.packets_captured
            &&& c.packets_skipped == old.packets_skipped
            &&& c.missing_data == old.cube@.len() - old.cube_captured
            &&& c.bin_properties == spec_bin_props(
                ok_bytes(spec_bin_properties(ok_bytes(spec_port_header(b)))),
            )
            &&& old.cube_shape == Some(c.shape)
            &&& is_reordered(c.data@, old.cube@, c.shape@)
        },
    }
}

/// What `read` does with the datagram `b`: the reader `old` becomes `new`
/// and `r` is returned.
pub open spec fn read_spec(old: RadarCubeReader, new: RadarCubeReader, r: Result<Option<RadarCube>, SMSError>, b: Seq<u8>) -> bool {
    &&& !transport_valid(b) ==> r == Err::<Option<RadarCube>, SMSError>(transport_error(b)) && new == old
    &&& transport_valid(b) ==> match spec_debug_header(b) {
        Err(e) => r == Err::<Option<RadarCube>, SMSError>(e) && new == old,
        Ok(d) => if d[4] == START_OF_FRAME {
            start_spec(old, new, r, b, d)
        } else if d[4] == FRAME_FOOTER {
            footer_spec(old, new, r, b, d)
        } else if d[4] == FRAME_DATA || d[4] == END_OF_DATA {
            data_spec(old, new, r, b, d)
        } else {
            r == Err::<Option<RadarCube>, SMSError>(SMSError::InvalidDebugFlags(d[4])) && new == old
        },
    }
}

/// Reassembles radar cubes from the SMS packets of the cube port.
///
/// A start-of-frame packet opens a cube whose shape its cube header gives,
/// with every sample set to the sentinel `(32767, 32767)`.  Data packets fill
/// it in order; a gap in the message counters skips the space of the missing
/// packets.  The footer publishes the cube, or reports why it cannot.  Every
/// error of the footer returns the reader to idle.
pub struct RadarCubeReader {
    pub timestamp: u64,
    pub frame_counter: u32,
    pub first_message: u16,
    pub message_counter: u16,
    pub received_messages: u16,
    pub packets_captured: u16,
    pub packets_skipped: u16,
    /// An error latched mid-frame, reported at the footer.
    pub error: Option<SMSError>,
    /// Shape of the cube in progress, `None` when idle.
    pub cube_shape: Option<[usize; 4]>,
    /// Position of the next sample to write.
    pub cube_index: usize,
    /// Samples written so far.
    pub cube_captured: usize,
    pub cube: Vec<Complex16>,
}

fn sentinel_value() -> (r: Complex16)
    ensures
        r == sentinel(),
{
    Complex16 { re: 32767, im: 32767 }
}

fn sample_at(b: &[u8], k: usize) -> (r: Complex16)
    requires
        4 * k + 4 <= b@.len(),
    ensures
        r == sample(b@, k as int),
{
    let _n = b.len();
    Complex16 { re: to_signed16(read_be16(b, 4 * k + 2)), im: to_signed16(read_be16(b, 4 * k)) }
}

/// Writes the samples of `b` into `cube` from `at` on, as many as fit.
fn write_samples(cube: &mut Vec<Complex16>, at: usize, b: &[u8]) -> (n: usize)
    requires
        at <= old(cube)@.len(),
    ensures
        n == min(b@.len() as int / 4, old(cube)@.len() - at),
        final(cube)@ == written(old(cube)@, at as int, b@, n as int),
{
    let len = cube.len();
    let room = len - at;
    let count = b.len() / 4;
    let n = if count < room {
        count
    } else {
        room
    };
    let mut k: usize = 0;
    while k < n
        invariant
            k <= n,
            n <= b@.len() / 4,
            at + n <= len,
            len == old(cube)@.len(),
            cube@ == written(old(cube)@, at as int, b@, k as int),
        decreases n - k,
    {
        let v = sample_at(b, k);
        cube.set(at + k, v);
        assert(cube@ =~= written(old(cube)@, at as int, b@, k + 1));
        k = k + 1;
    }
    n
}

/// Number of samples of a cube of shape `dims`, if it can be counted.
fn volume_of(dims: [usize; 4]) -> (r: Option<usize>)
    ensures
        r is Some <==> dims_fit(dims@),
        r matches Some(v) ==> v == volume(dims@),
{
    let ab = match dims[0].checked_mul(dims[1]) {
        Some(v) => v,
        None => return None,
    };
    let abc = match ab.checked_mul(dims[2]) {
        Some(v) => v,
        None => return None,
    };
    abc.checked_mul(dims[3])
}

/// A cube of `n` sentinels.
fn sentinels(n: usize) -> (v: Vec<Complex16>)
    ensures
        v@ == Seq::new(n as nat, |i: int| sentinel()),
{
    let mut v: Vec<Complex16> = Vec::new();
    let mut i: usize = 0;
    while i < n
        invariant
            i <= n,
            v@ == Seq::new(i as nat, |k: int| sentinel()),
        decreases n - i,
    {
        v.push(sentinel_value());
        assert(v@ =~= Seq::new((i + 1) as nat, |k: int| sentinel()));
        i = i + 1;
    }
    v
}

impl RadarCubeReader {
    /// The reader's invariant: the buffer has the size of the shape that
    /// opened it, and the write position stays within it.
    pub open spec fn wf(&self) -> bool {
        &&& self.cube_index <= self.cube@.len()
        &&& self.cube_captured <= self.cube_index
        &&& match self.cube_shape {
            None => self.cube@.len() == 0,
            Some(d) => self.cube@.len() == volume(d@),
        }
    }

    /// Whether the reader is idle: no cube in progress and every counter at
    /// zero.
    pub open spec fn is_idle(&self) -> bool {
        &&& self.timestamp == 0
        &&& self.frame_counter == 0
        &&& self.first_message == 0
        &&& self.message_counter == 0
        &&& self.received_messages == 0
        &&& self.packets_captured == 0
        &&& self.packets_skipped == 0
        &&& self.error.is_none()
        &&& self.cube_shape.is_none()
        &&& self.cube_index == 0
        &&& self.cube_captured == 0
        &&& self.cube@.len() == 0
    }

    /// An idle reader.
    pub fn new() -> (r: Self)
        ensures
            r.wf(),
            r.is_idle(),
    {
        RadarCubeReader {
            timestamp: 0,
            frame_counter: 0,
            first_message: 0,
            message_counter: 0,
            received_messages: 0,
            packets_captured: 0,
            packets_skipped: 0,
            error: None,
            cube_shape: None,
            cube_index: 0,
            cube_captured: 0,
            cube: Vec::new(),
        }
    }

    /// Opens a cube on a start-of-frame packet, dropping any cube in
    /// progress; dropping the cube of another frame is reported.
    fn start_of_frame(&mut self, transport: &TransportHeaderSlice, debug: &DebugHeaderSlice) -> (r: Result<Option<RadarCube>, SMSError>)
        requires
            spec_debug_header(transport@) == Ok::<Seq<u8>, SMSError>(debug@),
        ensures
            final(self).wf(),
            start_spec(*old(self), *final(self), r, transport@, debug@),
    {
        let abandoned = self.cube_shape.is_some() && self.frame_counter != debug.frame_counter();
        *self = Self::new();
        let port = match transport.port_header() {
            Ok(p) => p,
            Err(e) => return Err(e),
        };
        let timestamp = port.timestamp();
        let frame_counter = debug.frame_counter();
        let first = match transport.message_counter() {
            Some(m) => m,
            None => return Err(SMSError::MessageCounterMissing),
        };
        let header = match port.cube_header() {
            Ok(c) => c,
            Err(e) => return Err(e),
        };
        let dims = header.dimensions();
        let vol = match volume_of(dims) {
            Some(v) => v,
            None => return Err(SMSError::ShapeError),
        };
        let mut cube = sentinels(vol);
        let n = write_samples(&mut cube, 0, header.payload());
        *self = RadarCubeReader {
            timestamp,
            frame_counter,
            first_message: first,
            message_counter: first,
            received_messages: 1,
            packets_captured: 1,
            packets_skipped: 0,
            error: None,
            cube_shape: Some(dims),
            cube_index: n,
            cube_captured: n,
            cube,
        };
        if abandoned {
            Err(SMSError::FrameCounterError)
        } else {
            Ok(None)
        }
    }

    /// Fills the cube in progress from a data packet.
    #[verifier::rlimit(40)]
    fn frame_data(&mut self, transport: &TransportHeaderSlice, debug: &DebugHeaderSlice) -> (r: Result<Option<RadarCube>, SMSError>)
        requires
            old(self).wf(),
            spec_debug_header(transport@) == Ok::<Seq<u8>, SMSError>(debug@),
        ensures
            final(self).wf(),
            data_spec(*old(self), *final(self), r, transport@, debug@),
    {
        if self.cube_shape.is_none() {
            return Ok(None);
        }
        if self.frame_counter != debug.frame_counter() {
            self.error = Some(SMSError::FrameCounterError);
            self.cube_index = self.cube.len();
            return Ok(None);
        }
        let m = match transport.message_counter() {
            Some(m) => m,
            None => return Err(SMSError::MessageCounterMissing),
        };
        let expected = self.message_counter.wrapping_add(1);
        self.message_counter = m;
        self.received_messages = self.received_messages.wrapping_add(1);
        let payload = debug.payload();
        let len = self.cube.len();
        if expected != m {
            let gap = m.wrapping_sub(expected);
            let plen = payload.len() as u128;
            assert(gap as u128 * plen <= u128::MAX) by (nonlinear_arith)
                requires
                    gap <= 0xFFFF,
                    plen <= 0xFFFF_FFFF_FFFF_FFFF,
            ;
            let offset = (gap as u128 * plen) / 4;
            let room = (len - self.cube_index) as u128;
            if offset < room {
                self.cube_index = self.cube_index + offset as usize;
            } else {
                self.cube_index = len;
            }
            if self.cube_index < len {
                self.packets_skipped = self.packets_skipped.wrapping_add(gap);
            }
        }
        if self.cube_index < len {
            self.packets_captured = self.packets_captured.wrapping_add(1);
            let at = self.cube_index;
            let n = write_samples(&mut self.cube, at, payload);
            let count = payload.len() / 4;
            if count < len - at {
                self.cube_index = at + count;
            } else {
                self.cube_index = len;
            }
            self.cube_captured = self.cube_captured + n;
        }
        Ok(None)
    }

    /// Closes the cube in progress on a footer packet.
    fn frame_footer(&mut self, transport: &TransportHeaderSlice, debug: &DebugHeaderSlice) -> (r: Result<Option<RadarCube>, SMSError>)
        requires
            old(self).wf(),
            spec_debug_header(transport@) == Ok::<Seq<u8>, SMSError>(debug@),
        ensures
            final(self).wf(),
            footer_spec(*old(self), *final(self), r, transport@, debug@),
    {
        let dims = match self.cube_shape {
            Some(d) => d,
            None => {
                *self = Self::new();
                return Err(SMSError::CubeHeaderMissing);
            },
        };
        if self.frame_counter != debug.frame_counter() {
            *self = Self::new();
            return Err(SMSError::FrameCounterError);
        }
        match self.error {
            Some(e) => {
                *self = Self::new();
                return Err(e);
            },
            None => {},
        }
        let len = self.cube.len();
        if self.cube_index < len {
            let e = SMSError::MissingCubeData(self.cube_index, len);
            *self = Self::new();
            return Err(e);
        }
        let bin_properties = match transport.bin_properties() {
            Ok(p) => p.to_header(),
            Err(e) => {
                *self = Self::new();
                return Err(e);
            },
        };
        let data = center_doppler_invert_range(&self.cube, dims);
        let cube = RadarCube {
            timestamp: self.timestamp,
            frame_counter: self.frame_counter,
            packets_captured: self.packets_captured,
            packets_skipped: self.packets_skipped,
            missing_data: len - self.cube_captured,
            bin_properties,
            shape: dims,
            data,
        };
        *self = Self::new();
        Ok(Some(cube))
    }

    /// Feeds one UDP datagram of the cube port.  Returns the finished cube
    /// when the datagram is the footer of a complete frame.
    pub fn read(&mut self, slice: &[u8]) -> (r: Result<Option<RadarCube>, SMSError>)
        requires
            old(self).wf(),
        ensures
            final(self).wf(),
            read_spec(*old(self), *final(self), r, slice@),
    {
        let transport = match TransportHeaderSlice::from_slice(slice) {
            Ok(t) => t,
            Err(e) => return Err(e),
        };
        let debug = match transport.debug_header() {
            Ok(d) => d,
            Err(e) => return Err(e),
        };
        let flags = debug.flags();
        if flags == START_OF_FRAME {
            self.start_of_frame(&transport, &debug)
        } else if flags == FRAME_FOOTER {
            self.frame_footer(&transport, &debug)
        } else if flags == FRAME_DATA || flags == END_OF_DATA {
            self.frame_data(&transport, &debug)
        } else {
            Err(SMSError::InvalidDebugFlags(flags))
        }
    }

    /// The shape of the cube in progress, `[chirp_types, range_gates,
    /// rx_channels, doppler_bins]`.
    pub fn shape(&self) -> (r: Result<[usize; 4], SMSError>)
        ensures
            match self.cube_shape {
                Some(d) => r == Ok::<[usize; 4], SMSError>(d),
                None => r == Err::<[usize; 4], SMSError>(SMSError::CubeHeaderMissing),
            },
    {
        match self.cube_shape {
            Some(d) => Ok(d),
            None => Err(SMSError::CubeHeaderMissing),
        }
    }

    /// The number of samples of the cube in progress.
    pub fn volume(&self) -> (r: Result<usize, SMSError>)
        requires
            self.wf(),
        ensures
            match self.cube_shape {
                Some(d) => r == Ok::<usize, SMSError>(self.cube@.len() as usize) && self.cube@.len()
                    == volume(d@),
                None => r == Err::<usize, SMSError>(SMSError::CubeHeaderMissing),
            },
    {
        match self.cube_shape {
            Some(_) => Ok(self.cube.len()),
            None => Err(SMSError::CubeHeaderMissing),
        }
    }
}


/// Bit pattern of the single-precision float 1.0.
pub const ONE_F32_BITS: u32 = 0x3F80_0000;

/// The published cube's `scales`, one per axis of its layout `[sequence,
/// range, rx, doppler]`: 1, range per bin, 1, speed per bin, as
/// single-precision bit patterns.
pub fn cube_scales(p: &BinProperties) -> (r: [u32; 4])
    ensures
        r@ == seq![ONE_F32_BITS, p.range_per_bin, ONE_F32_BITS, p.speed_per_bin],
{
    let r = [ONE_F32_BITS, p.range_per_bin, ONE_F32_BITS, p.speed_per_bin];
    assert(r@ =~= seq![ONE_F32_BITS, p.range_per_bin, ONE_F32_BITS, p.speed_per_bin]);
    r
}

/// Whether a cube is published: only cubes with no missing sample are.
pub fn publishable(c: &RadarCube) -> (r: bool)
    ensures
        r == (c.missing_data == 0),
{
    c.missing_data == 0
}

} // verus!
