use radarpub::bytes::load_data;
use radarpub::can::{
    message_crc, read_data, read_header, Error, FrameStep, Header, InstructionHeader,
    InstructionMessage1, InstructionMessage2, MessageType, Packet, Parameter, Request,
    ResponseReader, ResponseStep, Target, TargetFrameReader,
};

#[test]
fn test_endian() {
    let msg = [0x62, 0xC1, 0x40, 0x55, 0x03, 0xD8, 0x0D, 0x00];
    let msg_swapped = [0x00, 0x0D, 0xD8, 0x03, 0x55, 0x40, 0xC1, 0x62];

    let mut msg2 = msg;
    msg2.reverse();

    assert_ne!(msg, msg_swapped);
    assert_eq!(msg2, msg_swapped);

    let data = load_data(&msg);
    assert_eq!(data, 0x000DD8035540C162);
}

fn zero_header() -> Header {
    Header {
        seconds: 0,
        nanoseconds: 0,
        cycle_duration: 0,
        cycle_counter: 0,
        n_targets: 0,
        tx_antenna: 0,
        frequency_sweep: 0,
        center_frequency: 0,
    }
}

#[test]
fn test_parse_headers() {
    let msg0 = [0x5b, 0x83, 0x82, 0x32, 0x3b, 0x80, 0x88, 0x0c];
    let dat0 = load_data(&msg0);
    let hdr0 = read_header(dat0, None).unwrap();

    assert_eq!(
        hdr0,
        Header {
            seconds: 0,
            nanoseconds: 0,
            cycle_duration: 54976,
            cycle_counter: 7759109,
            n_targets: 17,
            tx_antenna: 0,
            frequency_sweep: 3,
            center_frequency: 0,
        }
    );
    assert_eq!(hdr0.cycle_duration as f64 / 1000.0, 54.976);

    let msg1 = [0x89, 0x83, 0x06, 0x00, 0x00, 0x00, 0x00, 0x40];
    let dat1 = load_data(&msg1);
    let hdr1 = read_header(dat1, None).unwrap();
    assert_eq!(hdr1, zero_header());

    let msg2 = [0x6a, 0x7c, 0x26, 0xa3, 0x00, 0x00, 0x00, 0x80];
    let dat2 = load_data(&msg2);
    let hdr2 = read_header(dat2, None).unwrap();
    assert_eq!(hdr2, zero_header());
}

#[test]
fn test_parse_targets() {
    let msg0 = [0x62, 0xC1, 0x40, 0x55, 0x03, 0xD8, 0x0D, 0x00];
    let data0 = load_data(&msg0);
    let target0 = read_data(data0, None);

    assert_eq!(
        target0,
        Target { range: 708, azimuth: -2720, elevation: 0, speed: 0, rcs: 0, power: 0, noise: 0 }
    );
    assert_eq!(target0.range as f64 / 100.0, 7.08);
    assert_eq!(target0.azimuth as f64 / 100.0, -27.2);

    let msg1 = [0x6D, 0x0A, 0x7D, 0x01, 0x60, 0xCB, 0x01, 0x00];
    let data1 = load_data(&msg1);
    let target1 = read_data(data1, None);

    assert_eq!(
        target1,
        Target { range: 0, azimuth: 0, elevation: 368, speed: 0, rcs: -420, power: 13300, noise: 9500 }
    );
    assert_eq!(target1.elevation as f64 / 100.0, 3.68);
    assert_eq!(target1.rcs as f64 / 100.0, -4.2);
    assert_eq!(target1.power as f64 / 100.0, 133.0);
    assert_eq!(target1.noise as f64 / 100.0, 95.0);
}

#[test]
fn test_crc() {
    // Reference check value of CRC-16/CCITT-FALSE.
    let msg = [0x31, 0x32, 0x33, 0x34, 0x35, 0x36, 0x37, 0x38, 0x39];
    assert_eq!(crc16::State::<crc16::CCITT_FALSE>::calculate(&msg), 0x29B1);
}

#[test]
fn test_request_crc() {
    let header = InstructionHeader {
        crc: 0,
        instructions: 1,
        device_id: 0,
        protocol_version: 4,
        message_index: 0,
        uat_id: 2010,
    };

    let message1 = InstructionMessage1 {
        dim0: 0,
        dim1: 0,
        parnum: 2,
        message_type: MessageType::ParameterWrite.code(),
        message_index: 1,
        uat_id: 2010,
    };

    let message2 = InstructionMessage2 { value: 0, format: 0, message_index: 2, uat_id: 2010 };

    let crc = message_crc(&header, &message1, &message2);
    assert_eq!(crc, 0xD5AB);
}

#[test]
fn instruction_round_trip() {
    let header = InstructionHeader {
        uat_id: 0xBEEF,
        message_index: 7,
        protocol_version: 4,
        device_id: 3,
        instructions: 1,
        crc: 0x1234,
    };
    let message1 = InstructionMessage1 {
        uat_id: 0xBEEF,
        message_index: 1,
        message_type: 3,
        parnum: 0xA55A,
        dim0: 9,
        dim1: 250,
    };
    let message2 = InstructionMessage2 { uat_id: 0xBEEF, message_index: 2, format: 1, value: 0xDEADBEEF };
    assert_eq!(InstructionHeader::from_bytes(&header.to_bytes()), header);
    assert_eq!(InstructionMessage1::from_bytes(&message1.to_bytes()), message1);
    assert_eq!(InstructionMessage2::from_bytes(&message2.to_bytes()), message2);
    assert_eq!(header.to_bytes(), [0xEF, 0xBE, 7, 4, 3, 1, 0x34, 0x12]);
    assert_eq!(message2.to_bytes(), [0xEF, 0xBE, 2, 1, 0xEF, 0xBE, 0xAD, 0xDE]);
}

fn response_frame(b: [u8; 8]) -> Packet {
    Packet { id: 0x700, data: load_data(&b) }
}

fn ok_response(value: u32) -> Vec<Packet> {
    let v = value.to_le_bytes();
    vec![
        response_frame([0xDA, 0x07, 5, 0, 0, 1, 0, 0]),
        response_frame([0xDA, 0x07, 1, 2, 0xDA, 0x07, 1, 0]),
        response_frame([0xDA, 0x07, 2, 0, v[0], v[1], v[2], v[3]]),
        response_frame([0xDA, 0x07, 3, 0, 0, 0, 0, 0]),
    ]
}

#[test]
fn write_parameter_round_trip() {
    let request = Request::write_parameter(Parameter::CenterFrequency, 1);
    let frames = request.frames();
    let header = InstructionHeader::from_bytes(&frames[0]);
    let message1 = InstructionMessage1::from_bytes(&frames[1]);
    let message2 = InstructionMessage2::from_bytes(&frames[2]);
    assert_eq!(header.uat_id, 2010);
    assert_eq!(message1.parnum, 1);
    assert_eq!(message1.message_type, 2);
    assert_eq!(message2.value, 1);
    let unsigned = InstructionHeader { crc: 0, ..header };
    let crc = message_crc(&unsigned, &message1, &message2);
    assert_eq!(crc.to_le_bytes(), [frames[0][6], frames[0][7]]);
    assert_ne!(crc, 0);

    let mut reader = ResponseReader::new();
    let answer = ok_response(1);
    for pkt in &answer[..3] {
        assert_eq!(reader.push(*pkt), ResponseStep::Pending);
    }
    assert_eq!(reader.push(answer[3]), ResponseStep::Done(Ok(1)));
}

#[test]
fn response_skips_foreign_frames() {
    let mut reader = ResponseReader::new();
    for _ in 0..50 {
        assert_eq!(reader.push(Packet { id: 0x401, data: 0 }), ResponseStep::Pending);
    }
    let answer = ok_response(42);
    for pkt in &answer[..3] {
        assert_eq!(reader.push(*pkt), ResponseStep::Pending);
    }
    assert_eq!(reader.push(answer[3]), ResponseStep::Done(Ok(42)));
}

#[test]
fn response_gives_up_after_retries() {
    let mut reader = ResponseReader::new();
    for _ in 0..99 {
        assert_eq!(reader.push(Packet { id: 0x400, data: 0 }), ResponseStep::Pending);
    }
    assert_eq!(
        reader.push(Packet { id: 0x402, data: 0 }),
        ResponseStep::Done(Err(Error::InvalidResponseId(0x402)))
    );
}

#[test]
fn response_errors() {
    let mut reader = ResponseReader::new();
    assert_eq!(
        reader.push(response_frame([0, 0, 2, 0, 0, 0, 0, 0])),
        ResponseStep::Done(Err(Error::UATCRCError))
    );
    assert_eq!(
        reader.push(response_frame([0, 0, 7, 0, 0, 0, 0, 0])),
        ResponseStep::Done(Err(Error::UATProtocolUnsupported(7)))
    );
    assert_eq!(reader.push(response_frame([0, 0, 5, 0, 0, 0, 0, 0])), ResponseStep::Pending);
    assert_eq!(
        reader.push(Packet { id: 0x401, data: 0 }),
        ResponseStep::Done(Err(Error::InvalidResponseId(0x401)))
    );
    let mut answer = ok_response(9);
    answer[2] = response_frame([0, 0, 2, 4, 9, 0, 0, 0]);
    for pkt in &answer[..3] {
        assert_eq!(reader.push(*pkt), ResponseStep::Pending);
    }
    assert_eq!(reader.push(answer[3]), ResponseStep::Done(Err(Error::UATError(4))));
}

#[test]
fn target_frame_stream() {
    let header0 = load_data(&[0x5b, 0x83, 0x82, 0x32, 0x3b, 0x00, 0x01, 0x0c]);
    let header1 = load_data(&[0x89, 0x83, 0x06, 0x00, 0x00, 0x00, 0x00, 0x40]);
    let header2 = load_data(&[0x6a, 0x7c, 0x26, 0xa3, 0x00, 0x00, 0x00, 0x80]);
    let t0 = load_data(&[0x62, 0xC1, 0x40, 0x55, 0x03, 0xD8, 0x0D, 0x00]);
    let t1 = load_data(&[0x6D, 0x0A, 0x7D, 0x01, 0x60, 0xCB, 0x01, 0x00]);
    let n = (header0 >> 47) & 0xFF;
    assert_eq!(n, 2);

    let mut reader = TargetFrameReader::new();
    assert_eq!(reader.push(Packet { id: 0x401, data: t0 }), FrameStep::Pending);
    assert_eq!(reader.push(Packet { id: 0x400, data: header0 }), FrameStep::Pending);
    assert_eq!(reader.push(Packet { id: 0x400, data: header1 }), FrameStep::Pending);
    assert_eq!(reader.push(Packet { id: 0x400, data: header2 }), FrameStep::Pending);
    assert_eq!(reader.push(Packet { id: 0x401, data: t0 }), FrameStep::Pending);
    assert_eq!(reader.push(Packet { id: 0x401, data: t1 }), FrameStep::Pending);
    assert_eq!(reader.push(Packet { id: 0x402, data: t0 }), FrameStep::Pending);
    match reader.push(Packet { id: 0x402, data: t1 }) {
        FrameStep::Done(Ok(frame)) => {
            assert_eq!(frame.header.n_targets, 2);
            assert_eq!(frame.header.cycle_counter, 7759109);
            assert_eq!(frame.targets.len(), 2);
            assert_eq!(
                frame.targets[0],
                Target { range: 708, azimuth: -2720, elevation: 368, speed: 0, rcs: -420, power: 13300, noise: 9500 }
            );
        }
        other => panic!("unexpected {:?}", other),
    }

    // A target on the wrong ID abandons the list.
    assert_eq!(reader.push(Packet { id: 0x400, data: header0 }), FrameStep::Pending);
    assert_eq!(reader.push(Packet { id: 0x400, data: header1 }), FrameStep::Pending);
    assert_eq!(reader.push(Packet { id: 0x400, data: header2 }), FrameStep::Pending);
    assert_eq!(
        reader.push(Packet { id: 0x402, data: t0 }),
        FrameStep::Done(Err(Error::OutOfSequence(0x401, 0x402)))
    );
    // Sub-headers out of order.
    assert_eq!(reader.push(Packet { id: 0x400, data: header0 }), FrameStep::Pending);
    assert_eq!(
        reader.push(Packet { id: 0x400, data: header2 }),
        FrameStep::Done(Err(Error::OutOfSequence(1, 2)))
    );
}

#[test]
fn invalid_header_tag() {
    assert_eq!(read_header(0xC000_0000_0000_0000, None), Err(Error::InvalidHeader(3)));
}
