use radarpub::cube::Complex16;
use radarpub::eth::{
    cube_scales, publishable, DebugHeaderSlice, RadarCube, RadarCubeReader, SMSError, TransportHeaderSlice, END_OF_DATA,
    FRAME_DATA, FRAME_FOOTER, START_OF_FRAME,
};

/// An SMS packet of the debug port with a message counter.
fn sms(flags: u8, frame_counter: u32, counter: u16, body: &[u8]) -> Vec<u8> {
    let mut payload = Vec::new();
    payload.extend_from_slice(&frame_counter.to_be_bytes());
    payload.extend_from_slice(&[flags, 0, 0, 0]);
    payload.extend_from_slice(body);
    let mut p = vec![0x7E, 1, 14];
    p.extend_from_slice(&(payload.len() as u16).to_be_bytes());
    p.extend_from_slice(&[5, 0, 0, 0, 0x01]);
    p.extend_from_slice(&counter.to_be_bytes());
    p.extend_from_slice(&[0xAB, 0xCD]);
    p.extend_from_slice(&payload);
    p
}

fn port_header(id: u32, timestamp: u64) -> Vec<u8> {
    let mut h = Vec::new();
    h.extend_from_slice(&id.to_be_bytes());
    h.extend_from_slice(&[0, 1, 0, 2]);
    h.extend_from_slice(&timestamp.to_be_bytes());
    h.extend_from_slice(&[0, 0, 0, 0, 1, 0, 1, 0]);
    h
}

fn samples(values: &[u32]) -> Vec<u8> {
    values.iter().flat_map(|v| v.to_be_bytes()).collect()
}

/// A start-of-frame packet for a cube of shape [s, r, x, d] with the given
/// first samples.
fn start(frame_counter: u32, counter: u16, shape: [u8; 4], first: &[u32]) -> Vec<u8> {
    let mut body = port_header(5, 123456789);
    let mut cube = vec![0u8; 40];
    cube[24] = 0;
    cube[25] = shape[1];
    cube[28] = 0;
    cube[29] = shape[3];
    cube[30] = shape[2];
    cube[31] = shape[0];
    body.extend_from_slice(&cube);
    body.extend_from_slice(&samples(first));
    sms(START_OF_FRAME, frame_counter, counter, &body)
}

fn data(frame_counter: u32, counter: u16, values: &[u32]) -> Vec<u8> {
    sms(FRAME_DATA, frame_counter, counter, &samples(values))
}

fn footer(frame_counter: u32, counter: u16) -> Vec<u8> {
    let mut body = port_header(63, 0);
    body.extend_from_slice(&1.5f32.to_bits().to_be_bytes());
    body.extend_from_slice(&0.25f32.to_bits().to_be_bytes());
    body.extend_from_slice(&2.0f32.to_bits().to_be_bytes());
    sms(FRAME_FOOTER, frame_counter, counter, &body)
}

fn expect_cube(r: Result<Option<RadarCube>, SMSError>) -> RadarCube {
    match r {
        Ok(Some(c)) => c,
        other => panic!("expected a cube, got {:?}", other),
    }
}

#[test]
fn transport_header_fields() {
    let p = data(7, 0x1234, &[1, 2]);
    let t = TransportHeaderSlice::from_slice(&p).unwrap();
    let h = t.to_header();
    assert_eq!(h.start_pattern, 0x7E);
    assert_eq!(h.header_length, 14);
    assert_eq!(h.payload_length, 16);
    assert_eq!(h.application_protocol, 5);
    assert_eq!(h.flags, 1);
    assert_eq!(h.message_counter, Some(0x1234));
    assert_eq!(h.client_id, None);
    assert_eq!(h.crc, 0xABCD);
    assert_eq!(t.len(), 14);
    assert!(!t.is_empty());
    assert_eq!(t.frame_counter(), Some(7));
    let d = t.debug_header().unwrap();
    assert_eq!(d.flags(), FRAME_DATA);
    assert_eq!(d.payload(), &samples(&[1, 2])[..]);
    assert_eq!(t.port_header().err(), Some(SMSError::PortHeaderMissing));
}

#[test]
fn transport_header_errors() {
    let p = data(7, 1, &[1]);
    let mut bad = p.clone();
    bad[0] = 0x45;
    assert_eq!(TransportHeaderSlice::from_slice(&bad).err(), Some(SMSError::StartPattern(0x45)));
    assert_eq!(
        TransportHeaderSlice::from_slice(&p[..11]).err(),
        Some(SMSError::UnexpectedEndOfSlice(11))
    );
    let mut bad = p.clone();
    bad[2] = 12;
    assert_eq!(
        TransportHeaderSlice::from_slice(&bad).err(),
        Some(SMSError::UnexpectedEndOfSlice(p.len()))
    );
    assert_eq!(
        TransportHeaderSlice::from_slice(&p[..p.len() - 1]).err(),
        Some(SMSError::UnexpectedEndOfSlice(p.len() - 1))
    );
    assert_eq!(DebugHeaderSlice::from_slice(&[1, 2, 3]).err(), Some(SMSError::UnexpectedEndOfSlice(3)));
}

#[test]
fn optional_transport_fields() {
    // All four optional fields present.
    let mut p = vec![0x7E, 1, 22, 0, 0, 8, 0, 0, 0, 0x69];
    p.extend_from_slice(&[0x00, 0x05]);
    p.extend_from_slice(&[0x01, 0x02, 0x03, 0x04]);
    p.extend_from_slice(&[0x00, 0x06]);
    p.extend_from_slice(&[0x00, 0x07]);
    p.extend_from_slice(&[0x11, 0x22]);
    let t = TransportHeaderSlice::from_slice(&p).unwrap();
    assert_eq!(t.message_counter(), Some(5));
    assert_eq!(t.client_id(), Some(0x01020304));
    assert_eq!(t.data_id(), Some(6));
    assert_eq!(t.segmentation(), Some(7));
    assert_eq!(t.to_header().crc, 0x1122);
    assert_eq!(t.len(), 22);
    assert_eq!(t.frame_counter(), None);
}

#[test]
fn complete_cube() {
    // Shape [1, 2, 1, 4]: eight samples in three packets.
    let mut reader = RadarCubeReader::new();
    assert_eq!(reader.read(&start(9, 100, [1, 2, 1, 4], &[0, 1, 2])), Ok(None));
    assert_eq!(reader.shape(), Ok([1, 2, 1, 4]));
    assert_eq!(reader.volume(), Ok(8));
    assert_eq!(reader.read(&data(9, 101, &[3, 4, 5])), Ok(None));
    assert_eq!(
        reader.read(&sms(END_OF_DATA, 9, 102, &samples(&[6, 7, 8, 9, 10]))),
        Ok(None)
    );
    let cube = expect_cube(reader.read(&footer(9, 103)));
    assert_eq!(cube.missing_data, 0);
    assert_eq!(cube.packets_skipped, 0);
    assert_eq!(cube.packets_captured, 3);
    assert_eq!(cube.shape, [1, 2, 1, 4]);
    assert_eq!(cube.frame_counter, 9);
    assert_eq!(cube.timestamp, 123456789);
    assert_eq!(f32::from_bits(cube.bin_properties.speed_per_bin), 1.5);
    assert_eq!(f32::from_bits(cube.bin_properties.range_per_bin), 0.25);
    assert_eq!(f32::from_bits(cube.bin_properties.bin_per_speed), 2.0);
    assert_eq!(cube.data.len(), 8);
    assert!(publishable(&cube));
    let scales = cube_scales(&cube.bin_properties).map(f32::from_bits);
    assert_eq!(scales, [1.0, 0.25, 1.0, 1.5]);
    assert!(cube.data.iter().all(|c| *c != Complex16 { re: 32767, im: 32767 }));
    assert_eq!(reader.shape(), Err(SMSError::CubeHeaderMissing));
}

#[test]
fn dropped_packet_is_counted() {
    let mut reader = RadarCubeReader::new();
    assert_eq!(reader.read(&start(3, 10, [1, 2, 1, 6], &[1, 1, 1])), Ok(None));
    // Message 11 with three samples is lost.
    assert_eq!(reader.read(&data(3, 12, &[1, 1, 1])), Ok(None));
    assert_eq!(reader.read(&data(3, 13, &[1, 1, 1])), Ok(None));
    let cube = expect_cube(reader.read(&footer(3, 14)));
    assert_eq!(cube.packets_skipped, 1);
    assert_eq!(cube.missing_data, 12 / 4);
    assert!(!publishable(&cube));
    let sentinels = cube.data.iter().filter(|c| **c == Complex16 { re: 32767, im: 32767 }).count();
    assert_eq!(sentinels, 3);
}

#[test]
fn interleaved_frames_fail() {
    let mut reader = RadarCubeReader::new();
    assert_eq!(reader.read(&start(1, 0, [1, 1, 1, 4], &[1, 2])), Ok(None));
    assert_eq!(reader.read(&start(2, 1, [1, 1, 1, 4], &[1, 2])), Err(SMSError::FrameCounterError));
    assert_eq!(reader.read(&footer(1, 2)), Err(SMSError::FrameCounterError));
    // Data of another frame latches the error until the footer.
    assert_eq!(reader.read(&start(4, 0, [1, 1, 1, 4], &[1, 2])), Ok(None));
    assert_eq!(reader.read(&data(5, 1, &[3, 4])), Ok(None));
    assert_eq!(reader.read(&footer(4, 2)), Err(SMSError::FrameCounterError));
}

#[test]
fn frame_change_mid_cube() {
    let mut reader = RadarCubeReader::new();
    let mut errors = 0;
    for i in 0..10 {
        assert_eq!(reader.read(&start(0xA, i, [1, 1, 1, 4], &[1, 2])), Ok(None));
    }
    match reader.read(&start(0xB, 20, [1, 1, 1, 4], &[5, 6])) {
        Err(SMSError::FrameCounterError) => errors += 1,
        other => panic!("expected the abandoned frame to be reported, got {:?}", other),
    }
    assert_eq!(reader.read(&data(0xB, 21, &[7, 8])), Ok(None));
    let cube = expect_cube(reader.read(&footer(0xB, 22)));
    assert_eq!(errors, 1);
    assert_eq!(cube.frame_counter, 0xB);
    assert_eq!(cube.missing_data, 0);
    assert_eq!(cube.packets_skipped, 0);
}

#[test]
fn missing_data_at_footer() {
    let mut reader = RadarCubeReader::new();
    assert_eq!(reader.read(&start(1, 0, [1, 1, 1, 4], &[1])), Ok(None));
    assert_eq!(reader.read(&footer(1, 1)), Err(SMSError::MissingCubeData(1, 4)));
    assert_eq!(reader.read(&footer(1, 1)), Err(SMSError::CubeHeaderMissing));
}

#[test]
fn invalid_flags_and_start_pattern() {
    let mut reader = RadarCubeReader::new();
    assert_eq!(reader.read(&sms(7, 1, 0, &[])), Err(SMSError::InvalidDebugFlags(7)));
    let mut p = data(1, 0, &[1]);
    p[0] = 0;
    assert_eq!(reader.read(&p), Err(SMSError::StartPattern(0)));
}

#[test]
fn doppler_centered_range_inverted() {
    let (s_n, r_n, x_n, d_n) = (2usize, 3usize, 2usize, 4usize);
    let mut values = Vec::new();
    for _s in 0..s_n {
        for r in 0..r_n {
            for _x in 0..x_n {
                for d in 0..d_n {
                    values.push(((d as u32) << 16) | r as u32);
                }
            }
        }
    }
    let mut reader = RadarCubeReader::new();
    let shape = [s_n as u8, r_n as u8, x_n as u8, d_n as u8];
    assert_eq!(reader.read(&start(1, 0, shape, &values[..10])), Ok(None));
    assert_eq!(reader.read(&data(1, 1, &values[10..])), Ok(None));
    let cube = expect_cube(reader.read(&footer(1, 2)));
    for s in 0..s_n {
        for r in 0..r_n {
            for x in 0..x_n {
                for d in 0..d_n {
                    let i = ((s * r_n + r) * x_n + x) * d_n + d;
                    let want = Complex16 {
                        re: (r_n - 1 - r) as i16,
                        im: ((d + d_n / 2) % d_n) as i16,
                    };
                    assert_eq!(cube.data[i], want);
                }
            }
        }
    }
}
