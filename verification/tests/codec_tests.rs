use metaverse::circuit_code::CircuitCodeData;
use metaverse::errors::PacketError;
use metaverse::header::{Header, PacketFrequency};
use metaverse::lluid::Lluid;
use metaverse::login::LoginData;
use metaverse::packet::{Packet, PacketData};
use metaverse::packet_types::PacketType;
use metaverse::zerocode::zero_expand;

fn sample_header(id: u32, frequency: PacketFrequency) -> Header {
    Header {
        id,
        frequency,
        reliable: true,
        sequence_number: 0x01020304,
        appended_acks: false,
        zerocoded: false,
        resent: false,
        ack_list: None,
        size: None,
    }
}

#[test]
fn header_high_frequency_round_trip() {
    let h = sample_header(4, PacketFrequency::High);
    let bytes = h.to_bytes();
    assert_eq!(bytes.len(), 7);
    let d = Header::try_from_bytes(&bytes).unwrap();
    assert_eq!(d.id, 4);
    assert_eq!(d.frequency, PacketFrequency::High);
    assert!(d.reliable);
    assert_eq!(d.sequence_number, 0x01020304);
    assert_eq!(d.size, Some(7));
}

#[test]
fn header_medium_frequency_round_trip() {
    let h = sample_header(6, PacketFrequency::Medium);
    let bytes = h.to_bytes();
    assert_eq!(bytes.len(), 8);
    assert_eq!(bytes[6], 0xff);
    let d = Header::try_from_bytes(&bytes).unwrap();
    assert_eq!(d.id, 6);
    assert_eq!(d.frequency, PacketFrequency::Medium);
    assert_eq!(d.size, Some(8));
}

#[test]
fn header_low_frequency_round_trip() {
    let h = sample_header(3, PacketFrequency::Low);
    let bytes = h.to_bytes();
    assert_eq!(bytes.len(), 10);
    assert_eq!(&bytes[6..8], &[0xff, 0xff]);
    let d = Header::try_from_bytes(&bytes).unwrap();
    assert_eq!(d.id, 3);
    assert_eq!(d.frequency, PacketFrequency::Low);
    assert_eq!(d.size, Some(10));
}

#[test]
fn header_size_matches_consumed_offset() {
    // flags + sequence number + extra byte + identifier bytes.
    for (freq, id, width) in [
        (PacketFrequency::High, 200u32, 1usize),
        (PacketFrequency::Medium, 0u32, 2usize),
        (PacketFrequency::Low, 65535u32, 4usize),
    ] {
        let h = sample_header(id, freq);
        let bytes = h.to_bytes();
        assert_eq!(bytes.len(), 6 + width);
        let d = Header::try_from_bytes(&bytes).unwrap();
        assert_eq!(d.size, Some(6 + width));
        assert_eq!(d.id, id);
    }
}

#[test]
fn header_too_short_is_malformed() {
    assert_eq!(
        Header::try_from_bytes(&[0u8; 6]).unwrap_err(),
        PacketError::MalformedHeader
    );
    // A low-frequency identifier cut off mid-way.
    let buf = [0u8, 0, 0, 0, 1, 0, 0xff, 0xff, 0];
    assert_eq!(
        Header::try_from_bytes(&buf).unwrap_err(),
        PacketError::MalformedHeader
    );
}

#[test]
fn header_reserved_flag_bits_rejected() {
    let mut h = sample_header(4, PacketFrequency::High);
    h.reliable = false;
    let mut bytes = h.to_bytes();
    bytes[0] = 0x05;
    assert_eq!(
        Header::try_from_bytes(&bytes).unwrap_err(),
        PacketError::MalformedHeader
    );
}

#[test]
fn header_appended_acks_round_trip() {
    let mut bytes = Header {
        appended_acks: true,
        ack_list: Some(vec![7, 0x01020304]),
        ..sample_header(4, PacketFrequency::High)
    }
    .to_bytes();
    assert_eq!(bytes[0], 0x40 | 0x10);
    // Body, then the ack region, then the count byte.
    bytes.extend_from_slice(&[0xaa, 0xbb]);
    bytes.extend_from_slice(&[0, 0, 0, 7, 1, 2, 3, 4]);
    bytes.push(2);
    let d = Header::try_from_bytes(&bytes).unwrap();
    assert!(d.appended_acks);
    assert_eq!(d.ack_list, Some(vec![7, 0x01020304]));
    assert_eq!(d.size, Some(7));
}

#[test]
fn circuit_code_round_trip() {
    let v = CircuitCodeData {
        code: 0xdeadbeef,
        session_id: Lluid {
            bytes: [1, 2, 3, 4, 5, 6, 7, 8, 9, 10, 11, 12, 13, 14, 15, 16],
        },
        id: Lluid { bytes: [16u8; 16] },
    };
    let bytes = v.to_bytes();
    assert_eq!(bytes.len(), 36);
    // The code travels little-endian.
    assert_eq!(&bytes[0..4], &[0xef, 0xbe, 0xad, 0xde]);
    let w = CircuitCodeData::from_bytes(&bytes).unwrap();
    assert_eq!(w.code, v.code);
    assert_eq!(w.session_id.bytes, v.session_id.bytes);
    assert_eq!(w.id.bytes, v.id.bytes);
}

#[test]
fn circuit_code_body_size_is_strict() {
    assert_eq!(
        CircuitCodeData::from_bytes(&[0u8; 35]).unwrap_err(),
        PacketError::BodyTooShort
    );
    assert_eq!(
        CircuitCodeData::from_bytes(&[0u8; 20]).unwrap_err(),
        PacketError::BodyTooShort
    );
    assert!(CircuitCodeData::from_bytes(&[0u8; 36]).is_ok());
    // No optional trailing fields: one extra byte already fails.
    assert_eq!(
        CircuitCodeData::from_bytes(&[0u8; 37]).unwrap_err(),
        PacketError::BodyTooLong
    );
}

#[test]
fn zero_expand_expands_marked_runs() {
    assert_eq!(zero_expand(&[1, 0, 3, 2]), vec![1, 0, 0, 0, 2]);
    assert_eq!(zero_expand(&[0, 0]), Vec::<u8>::new());
    assert_eq!(zero_expand(&[5, 6]), vec![5, 6]);
    // A marker cut off by the end of the stream expands to nothing.
    assert_eq!(zero_expand(&[9, 0]), vec![9]);
}

#[test]
fn packet_decode_reencode_is_identity() {
    // A coarse-location packet (Medium, raw body) with appended acks.
    let mut bytes = vec![0x50u8, 0, 0, 0, 9, 0, 0xff, 6];
    bytes.extend_from_slice(&[10, 20, 30]);
    bytes.extend_from_slice(&[0, 0, 0, 42]);
    bytes.push(1);
    let p = Packet::from_bytes(&bytes).unwrap();
    assert_eq!(p.header.frequency, PacketFrequency::Medium);
    assert_eq!(p.header.id, 6);
    assert_eq!(p.header.ack_list, Some(vec![42]));
    match &p.body {
        PacketType::CoarseLocationUpdate(b) => assert_eq!(b, &vec![10, 20, 30]),
        other => panic!("wrong variant: {:?}", other),
    }
    assert_eq!(p.to_bytes(), bytes);
}

#[test]
fn packet_zerocoded_body_is_expanded_before_dispatch() {
    // A zero-coded circuit-code packet: the 36-byte body compresses to
    // a run marker for its zeros.
    let v = CircuitCodeData {
        code: 5,
        session_id: Lluid { bytes: [0u8; 16] },
        id: Lluid { bytes: [7u8; 16] },
    };
    // body: 05 00*3 00*16 07*16 -> 05, marker(19), 07*16
    let mut bytes = vec![0x80u8, 0, 0, 0, 1, 0, 0xff, 0xff, 0, 3];
    bytes.extend_from_slice(&[5, 0, 19]);
    bytes.extend_from_slice(&[7u8; 16]);
    let p = Packet::from_bytes(&bytes).unwrap();
    match &p.body {
        PacketType::CircuitCode(d) => {
            assert_eq!(d.code, 5);
            assert_eq!(d.session_id.bytes, [0u8; 16]);
            assert_eq!(d.id.bytes, [7u8; 16]);
        }
        other => panic!("wrong variant: {:?}", other),
    }
}

#[test]
fn unknown_message_type_is_reported() {
    // High-frequency id 99 has no registry entry.
    let bytes = [0u8, 0, 0, 0, 1, 0, 99];
    assert_eq!(
        Packet::from_bytes(&bytes).unwrap_err(),
        PacketError::UnknownMessageType
    );
}

#[test]
fn login_packet_round_trip() {
    let login = LoginData {
        first: b"default".to_vec(),
        last: b"user".to_vec(),
        passwd: b"password".to_vec(),
        start: b"home".to_vec(),
        channel: b"benthic".to_vec(),
        agree_to_tos: true,
        read_critical: false,
        url: b"http://127.0.0.1:9000".to_vec(),
    };
    let bytes = Packet::new_login_packet(login.clone()).to_bytes();
    let p = Packet::from_bytes(&bytes).unwrap();
    match &p.body {
        PacketType::Login(l) => {
            assert_eq!(l.first, login.first);
            assert_eq!(l.last, login.last);
            assert_eq!(l.passwd, login.passwd);
            assert_eq!(l.start, login.start);
            assert_eq!(l.channel, login.channel);
            assert_eq!(l.agree_to_tos, login.agree_to_tos);
            assert_eq!(l.read_critical, login.read_critical);
            assert_eq!(l.url, login.url);
        }
        other => panic!("wrong variant: {:?}", other),
    }
}

#[test]
fn login_body_rejects_trailing_bytes() {
    let login = LoginData {
        first: b"a".to_vec(),
        last: b"b".to_vec(),
        passwd: b"c".to_vec(),
        start: b"d".to_vec(),
        channel: b"e".to_vec(),
        agree_to_tos: false,
        read_critical: true,
        url: b"f".to_vec(),
    };
    let mut body = login.to_bytes();
    assert!(LoginData::from_bytes(&body).is_ok());
    body.push(0);
    assert_eq!(
        LoginData::from_bytes(&body).unwrap_err(),
        PacketError::BodyTooLong
    );
    let cut = &body[..10];
    assert_eq!(
        LoginData::from_bytes(cut).unwrap_err(),
        PacketError::BodyTooShort
    );
}
