use lifx::{
    decode_header, decode_payload, encode_header, encode_payload, DecodeError, Header, Message,
    Payload, HEADER_SIZE, HSBK,
};

const FRAME: [u8; 57] = [
    0x39, 0x00, 0x00, 0x34, 0x00, 0x00, 0x00, 0x00, 0x00, 0x00, 0x00, 0x00, 0x00, 0x00, 0x00,
    0x00, 0x31, 0x6c, 0x69, 0x66, 0x78, 0x31, 0x00, 0x00, 0x00, 0x00, 0x00, 0x00, 0x00, 0x00,
    0x00, 0x00, 0x67, 0x00, 0x00, 0x00, 0x00, 0x01, 0x00, 0x00, 0xff, 0xff, 0xff, 0xff, 0xac,
    0x0d, 0xc8, 0x00, 0x00, 0x00, 0x00, 0x00, 0x80, 0x3f, 0x00, 0x00, 0x00,
];

fn sample_header(kind: u16) -> Header {
    Header {
        size: 0,
        version: 1024,
        addressable: true,
        tagged: false,
        target: [1, 2, 3, 4, 5, 6, 7, 8],
        site: *b"1lifx1",
        acknowledge: true,
        at_time: 0x0102_0304_0506_0708,
        kind,
    }
}

fn light_state() -> Payload {
    let mut label = [0u8; 32];
    label[..7].copy_from_slice(b"Kitchen");
    Payload::LightState {
        color: HSBK { hue: 0x1234, saturation: 0xffff, brightness: 0x8000, kelvin: 3500 },
        dim: -2,
        power: 0xffff,
        label,
        tags: 0x0807_0605_0403_0201,
    }
}

#[test]
fn test_decode() {
    let bytes: &[u8] = &FRAME;

    let mesg = Message::from_bytes(bytes).ok().expect("unable to parse bytes into message");

    assert!(mesg.size == 57);
    assert!(mesg.version == 1024);
    assert!(mesg.target == [0, 0, 0, 0, 0, 0, 0, 0]);
    assert!(&mesg.site == b"1lifx1");
    assert!(mesg.tagged);
    assert!(mesg.addressable);
    assert!(mesg.kind == 103);
}

#[test]
fn fixture_has_empty_payload_and_no_acknowledge() {
    let mesg = Message::from_bytes(&FRAME).unwrap();
    assert_eq!(mesg.payload, Payload::Empty);
    assert!(!mesg.acknowledge);
    assert_eq!(mesg.at_time, 0);
}

#[test]
fn bitfield_packs_version_and_flags() {
    let m = Message {
        version: 1024,
        addressable: true,
        tagged: true,
        ..Message::new()
    };
    let bytes = m.to_bytes();
    assert_eq!(bytes[2], 0x00);
    assert_eq!(bytes[3], 0x34);
}

#[test]
fn version_above_twelve_bits_is_cut() {
    let m = Message { version: 0xffff, ..Message::new() };
    let bytes = m.to_bytes();
    assert_eq!(bytes[2], 0xff);
    assert_eq!(bytes[3], 0x0f);
}

#[test]
fn every_prefix_shorter_than_header_is_truncated() {
    for n in 0..HEADER_SIZE {
        assert_eq!(Message::from_bytes(&FRAME[..n]), Err(DecodeError::TruncatedInput));
    }
    assert!(Message::from_bytes(&FRAME[..HEADER_SIZE]).is_ok());
}

#[test]
fn unknown_kind_decodes_to_empty() {
    let mut frame = FRAME.to_vec();
    frame[32] = 0x0f;
    frame[33] = 0x27;
    let mesg = Message::from_bytes(&frame).unwrap();
    assert_eq!(mesg.kind, 9999);
    assert_eq!(mesg.payload, Payload::Empty);
    assert_eq!(decode_payload(9999, &[1, 2, 3]), Ok(Payload::Empty));
    assert_eq!(decode_payload(9999, &[]), Ok(Payload::Empty));
}

#[test]
fn decoding_twice_gives_equal_messages() {
    let a = Message::from_bytes(&FRAME).unwrap();
    let b = Message::from_bytes(&FRAME).unwrap();
    assert_eq!(a, b);
}

#[test]
fn acknowledge_reads_only_low_bit() {
    let mut frame = FRAME.to_vec();
    frame[22] = 0xfe;
    frame[23] = 0xff;
    assert!(!Message::from_bytes(&frame).unwrap().acknowledge);
    frame[22] = 0x01;
    frame[23] = 0x00;
    assert!(Message::from_bytes(&frame).unwrap().acknowledge);
}

#[test]
fn reserved_bitfield_bits_are_ignored() {
    let mut frame = FRAME.to_vec();
    frame[3] = 0xf4;
    let m = Message::from_bytes(&frame).unwrap();
    assert_eq!(m.version, 1024);
    assert!(m.addressable);
    assert!(m.tagged);
}

#[test]
fn header_decodes_fields_and_window() {
    let (h, rest) = decode_header(&FRAME).unwrap();
    assert_eq!(h.size, 57);
    assert_eq!(h.kind, 103);
    assert_eq!(rest, &FRAME[36..57]);
    assert_eq!(decode_header(&FRAME[..35]), Err(DecodeError::TruncatedInput));
}

#[test]
fn window_is_cut_to_available_bytes() {
    let (_, rest) = decode_header(&FRAME[..40]).unwrap();
    assert_eq!(rest.len(), 4);
}

#[test]
fn window_ignores_bytes_past_declared_size() {
    let mut frame = FRAME.to_vec();
    frame[0] = 40;
    let (_, rest) = decode_header(&frame).unwrap();
    assert_eq!(rest, &FRAME[36..40]);
}

#[test]
fn declared_size_below_header_gives_empty_window() {
    let mut frame = FRAME.to_vec();
    frame[0] = 10;
    let (_, rest) = decode_header(&frame).unwrap();
    assert!(rest.is_empty());
}

#[test]
fn header_encodes_to_exact_bytes() {
    let mut h = sample_header(33);
    h.size = 48;
    let bytes = encode_header(&h);
    let expected: [u8; 36] = [
        48, 0, 0x00, 0x14, 0, 0, 0, 0, 1, 2, 3, 4, 5, 6, 7, 8, 0x31, 0x6c, 0x69, 0x66, 0x78,
        0x31, 1, 0, 8, 7, 6, 5, 4, 3, 2, 1, 33, 0, 0, 0,
    ];
    assert_eq!(bytes, expected.to_vec());
}

#[test]
fn header_round_trips() {
    let mut h = sample_header(35);
    h.size = HEADER_SIZE as u16;
    let bytes = encode_header(&h);
    let (back, rest) = decode_header(&bytes).unwrap();
    assert_eq!(back, h);
    assert!(rest.is_empty());
}

#[test]
fn state_version_decodes_little_endian() {
    let bytes = [1, 0, 0, 0, 0x16, 0, 0, 0, 0, 0, 1, 0];
    assert_eq!(
        decode_payload(33, &bytes),
        Ok(Payload::DeviceStateVersion { vendor: 1, product: 22, version: 0x0001_0000 })
    );
    assert_eq!(decode_payload(33, &bytes[..11]), Err(DecodeError::TruncatedInput));
}

#[test]
fn state_info_truncated() {
    assert_eq!(decode_payload(35, &[0u8; 23]), Err(DecodeError::TruncatedInput));
    assert_eq!(
        decode_payload(35, &[0u8; 24]),
        Ok(Payload::DeviceStateInfo { time: 0, uptime: 0, downtime: 0 })
    );
}

#[test]
fn light_state_truncated() {
    assert_eq!(decode_payload(107, &[0u8; 51]), Err(DecodeError::TruncatedInput));
    assert!(decode_payload(107, &[0u8; 52]).is_ok());
}

#[test]
fn zero_field_requests_decode_from_nothing() {
    assert_eq!(decode_payload(32, &[]), Ok(Payload::DeviceGetVersion));
    assert_eq!(decode_payload(34, &[]), Ok(Payload::DeviceGetInfo));
}

#[test]
fn light_state_encodes_to_exact_bytes() {
    let (kind, bytes) = encode_payload(&light_state());
    assert_eq!(kind, Some(107));
    assert_eq!(bytes.len(), 52);
    assert_eq!(&bytes[..12], &[0x34, 0x12, 0xff, 0xff, 0x00, 0x80, 0xac, 0x0d, 0xfe, 0xff, 0xff, 0xff]);
    assert_eq!(&bytes[12..19], b"Kitchen");
    assert_eq!(&bytes[44..], &[1, 2, 3, 4, 5, 6, 7, 8]);
}

#[test]
fn light_state_frame_has_fixed_length() {
    let mut m = Message::new();
    m.payload = light_state();
    assert_eq!(m.to_bytes().len(), 36 + 52);
    m.payload = Payload::LightState {
        color: HSBK { hue: 0, saturation: 0, brightness: 0, kelvin: 0 },
        dim: 0,
        power: 0,
        label: [0u8; 32],
        tags: 0,
    };
    assert_eq!(m.to_bytes().len(), 88);
}

#[test]
fn empty_payload_encodes_nothing() {
    assert_eq!(encode_payload(&Payload::Empty), (None, Vec::new()));
    assert_eq!(encode_payload(&Payload::DeviceGetInfo), (Some(34), Vec::new()));
}

#[test]
fn state_info_encodes_little_endian() {
    let (kind, bytes) = encode_payload(&Payload::DeviceStateInfo { time: 1, uptime: 256, downtime: 0 });
    assert_eq!(kind, Some(35));
    let mut expected = vec![0u8; 24];
    expected[0] = 1;
    expected[9] = 1;
    assert_eq!(bytes, expected);
}

fn round_trip(payload: Payload, kind: u16, payload_len: u16) {
    let m = Message {
        size: 36 + payload_len,
        version: 1024,
        addressable: true,
        tagged: true,
        target: [0xd0, 0x73, 0xd5, 0, 0x12, 0x34, 0, 0],
        site: *b"1lifx1",
        acknowledge: true,
        at_time: 1_400_000_000_000_000_000,
        kind,
        payload,
    };
    let bytes = m.to_bytes();
    assert_eq!(bytes.len(), 36 + payload_len as usize);
    assert_eq!(Message::from_bytes(&bytes), Ok(m));
}

#[test]
fn every_variant_round_trips() {
    round_trip(Payload::Empty, 0, 0);
    round_trip(Payload::Empty, 9999, 0);
    round_trip(Payload::DeviceGetVersion, 32, 0);
    round_trip(Payload::DeviceStateVersion { vendor: 1, product: 27, version: 0x0002_0001 }, 33, 12);
    round_trip(Payload::DeviceGetInfo, 34, 0);
    round_trip(Payload::DeviceStateInfo { time: u64::MAX, uptime: 7, downtime: 1 << 40 }, 35, 24);
    round_trip(light_state(), 107, 52);
}

#[test]
fn encode_derives_kind_and_size_from_payload() {
    let m = Message { size: 999, kind: 33, payload: Payload::DeviceGetInfo, ..Message::new() };
    let bytes = m.to_bytes();
    assert_eq!(m.wire_kind(), 34);
    assert_eq!(&bytes[..2], &[36, 0]);
    assert_eq!(&bytes[32..34], &[34, 0]);
    let back = Message::from_bytes(&bytes).unwrap();
    assert_eq!(back.payload, Payload::DeviceGetInfo);
    assert_eq!(back.kind, 34);
}

#[test]
fn empty_payload_with_known_kind_is_sent_as_kind_zero() {
    let m = Message { kind: 107, payload: Payload::Empty, ..Message::new() };
    assert_eq!(m.wire_kind(), 0);
    let back = Message::from_bytes(&m.to_bytes()).unwrap();
    assert_eq!(back.kind, 0);
    assert_eq!(back.payload, Payload::Empty);
}

#[test]
fn reader_advances_past_each_frame() {
    let first = Message { size: 36, kind: 34, payload: Payload::DeviceGetInfo, ..Message::new() };
    let second = Message {
        size: 48,
        kind: 33,
        payload: Payload::DeviceStateVersion { vendor: 1, product: 2, version: 3 },
        ..Message::new()
    };
    let mut stream = first.to_bytes();
    stream.extend_from_slice(&second.to_bytes());
    let mut reader: &[u8] = &stream;
    assert_eq!(Message::from_reader(&mut reader), Ok(first));
    assert_eq!(reader.len(), 48);
    assert_eq!(Message::from_reader(&mut reader), Ok(second));
    assert!(reader.is_empty());
    assert_eq!(Message::from_reader(&mut reader), Err(DecodeError::TruncatedInput));
}

#[test]
fn reader_is_untouched_on_failure() {
    let short = &FRAME[..20];
    let mut reader: &[u8] = short;
    assert_eq!(Message::from_reader(&mut reader), Err(DecodeError::TruncatedInput));
    assert_eq!(reader, short);
}

#[test]
fn light_state_with_short_window_is_truncated() {
    let m = Message { size: 88, kind: 107, payload: light_state(), ..Message::new() };
    let bytes = m.to_bytes();
    assert_eq!(Message::from_bytes(&bytes[..87]), Err(DecodeError::TruncatedInput));
    let mut declared_short = bytes.clone();
    declared_short[0] = 87;
    assert_eq!(Message::from_bytes(&declared_short), Err(DecodeError::TruncatedInput));
}

#[test]
fn new_and_default_are_zero() {
    let m = Message::new();
    assert_eq!(m, Message::default());
    assert_eq!(m.size, 0);
    assert_eq!(m.target, [0u8; 8]);
    assert_eq!(m.site, [0u8; 6]);
    assert_eq!(m.payload, Payload::Empty);
    assert_eq!(Payload::default(), Payload::Empty);
}

#[test]
fn header_and_parts_agree() {
    let m = Message::from_bytes(&FRAME).unwrap();
    let again = Message::from_parts(m.header(), m.payload);
    assert_eq!(again, m);
}
