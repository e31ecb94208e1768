use nippy::protocol::{
    decode, encode, FormatError, LeapIndicator, Mode, Packet, ReferenceIdentifier, ShortFormat,
    TimestampFormat, Version, PACKET_BYTES, PRIMARY_SOURCE_NULL, STRATUM_UNSPECIFIED,
};

fn sample_secondary_packet() -> Packet {
    Packet {
        leap_indicator: LeapIndicator::SixtyOne,
        version: Version::V4,
        mode: Mode::Server,
        stratum: 2,
        poll: -6,
        precision: -20,
        root_delay: ShortFormat { seconds: 1, fraction: 0x8000 },
        root_dispersion: ShortFormat { seconds: 0, fraction: 0x0100 },
        reference_id: ReferenceIdentifier::Secondary(0x7F00_0001),
        reference_timestamp: TimestampFormat { seconds: 3_900_000_000, fraction: 0x4000_0000 },
        origin_timestamp: TimestampFormat { seconds: 3_900_000_001, fraction: 1 },
        receive_timestamp: TimestampFormat { seconds: 3_900_000_002, fraction: 0xFFFF_FFFF },
        transmit_timestamp: TimestampFormat { seconds: 3_900_000_003, fraction: 0 },
    }
}

#[test]
fn round_trip_secondary_packet() {
    let p = sample_secondary_packet();
    let bytes = encode(&p).unwrap();
    assert_eq!(bytes.len(), PACKET_BYTES);
    let q = decode(&bytes).unwrap();
    assert_eq!(q, p);
}

#[test]
fn round_trip_primary_packet() {
    let p = Packet {
        leap_indicator: LeapIndicator::Alarm,
        version: Version::V3,
        mode: Mode::Broadcast,
        stratum: 1,
        poll: 17,
        precision: -128,
        root_delay: ShortFormat { seconds: 0xFFFF, fraction: 0xFFFF },
        root_dispersion: ShortFormat { seconds: 0, fraction: 0 },
        reference_id: ReferenceIdentifier::PrimarySource(0x4750_5300),
        reference_timestamp: TimestampFormat { seconds: 0, fraction: 0 },
        origin_timestamp: TimestampFormat { seconds: 1, fraction: 2 },
        receive_timestamp: TimestampFormat { seconds: 3, fraction: 4 },
        transmit_timestamp: TimestampFormat { seconds: 0xFFFF_FFFF, fraction: 0xFFFF_FFFF },
    };
    let bytes = encode(&p).unwrap();
    let q = decode(&bytes).unwrap();
    assert_eq!(q, p);
}

#[test]
fn exact_wire_bytes() {
    let p = Packet {
        leap_indicator: LeapIndicator::FiftyNine,
        version: Version::V3,
        mode: Mode::Client,
        stratum: 3,
        poll: -1,
        precision: -128,
        root_delay: ShortFormat { seconds: 0x0102, fraction: 0x0304 },
        root_dispersion: ShortFormat { seconds: 0x0506, fraction: 0x0708 },
        reference_id: ReferenceIdentifier::Secondary(0x0A0B_0C0D),
        reference_timestamp: TimestampFormat { seconds: 0x1112_1314, fraction: 0x1516_1718 },
        origin_timestamp: TimestampFormat { seconds: 0x2122_2324, fraction: 0x2526_2728 },
        receive_timestamp: TimestampFormat { seconds: 0x3132_3334, fraction: 0x3536_3738 },
        transmit_timestamp: TimestampFormat { seconds: 0x4142_4344, fraction: 0x4546_4748 },
    };
    let bytes = encode(&p).unwrap();
    let expected: Vec<u8> = vec![
        0b10_011_011, 3, 0xFF, 0x80, // packed byte, stratum, poll, precision
        1, 2, 3, 4, 5, 6, 7, 8, // root delay, root dispersion
        10, 11, 12, 13, // reference identifier
        0x11, 0x12, 0x13, 0x14, 0x15, 0x16, 0x17, 0x18, // reference timestamp
        0x21, 0x22, 0x23, 0x24, 0x25, 0x26, 0x27, 0x28, // origin timestamp
        0x31, 0x32, 0x33, 0x34, 0x35, 0x36, 0x37, 0x38, // receive timestamp
        0x41, 0x42, 0x43, 0x44, 0x45, 0x46, 0x47, 0x48, // transmit timestamp
    ];
    assert_eq!(bytes, expected);
}

#[test]
fn decode_rejects_wrong_length() {
    assert_eq!(decode(&[]), Err(FormatError));
    assert_eq!(decode(&[0u8; 47]), Err(FormatError));
    assert_eq!(decode(&[0u8; 49]), Err(FormatError));
    assert_eq!(decode(&vec![0x23u8; 1000]), Err(FormatError));
}

#[test]
fn decode_rejects_undefined_version() {
    for version_bits in [0u8, 1, 2, 5, 6, 7] {
        let mut buf = [0u8; 48];
        buf[0] = (version_bits << 3) | 3;
        assert_eq!(decode(&buf), Err(FormatError));
    }
}

#[test]
fn decode_accepts_every_leap_and_mode() {
    for leap_bits in 0u8..4 {
        for mode_bits in 0u8..8 {
            let mut buf = [0u8; 48];
            buf[0] = (leap_bits << 6) | (4 << 3) | mode_bits;
            let p = decode(&buf).unwrap();
            let expected_leap = match leap_bits {
                0 => LeapIndicator::NoWarning,
                1 => LeapIndicator::SixtyOne,
                2 => LeapIndicator::FiftyNine,
                _ => LeapIndicator::Alarm,
            };
            let expected_mode = match mode_bits {
                0 => Mode::Reserved,
                1 => Mode::SymmetricActive,
                2 => Mode::SymmetricPassive,
                3 => Mode::Client,
                4 => Mode::Server,
                5 => Mode::Broadcast,
                6 => Mode::Control,
                _ => Mode::Private,
            };
            assert_eq!(p.leap_indicator, expected_leap);
            assert_eq!(p.version, Version::V4);
            assert_eq!(p.mode, expected_mode);
        }
    }
}

#[test]
fn packed_byte_independent_of_rest() {
    let p1 = sample_secondary_packet();
    let mut p2 = sample_secondary_packet();
    p2.stratum = 14;
    p2.poll = 3;
    p2.precision = 0;
    p2.root_delay = ShortFormat { seconds: 9, fraction: 9 };
    p2.reference_id = ReferenceIdentifier::Secondary(9);
    p2.transmit_timestamp = TimestampFormat { seconds: 9, fraction: 9 };
    let b1 = encode(&p1).unwrap();
    let b2 = encode(&p2).unwrap();
    assert_eq!(b1[0], b2[0]);

    let mut buf1 = [0u8; 48];
    let mut buf2 = [0xEEu8; 48];
    buf1[0] = 0b01_100_101;
    buf2[0] = 0b01_100_101;
    buf2[1] = 7;
    let q1 = decode(&buf1).unwrap();
    let q2 = decode(&buf2).unwrap();
    assert_eq!(q1.leap_indicator, q2.leap_indicator);
    assert_eq!(q1.version, q2.version);
    assert_eq!(q1.mode, q2.mode);
}

#[test]
fn reference_id_follows_stratum() {
    for stratum in [0u8, 1] {
        let mut buf = [0u8; 48];
        buf[0] = 4 << 3;
        buf[1] = stratum;
        buf[12] = 0x47;
        buf[13] = 0x50;
        buf[14] = 0x53;
        buf[15] = 0x00;
        let p = decode(&buf).unwrap();
        assert_eq!(p.reference_id, ReferenceIdentifier::PrimarySource(0x4750_5300));
    }
    for stratum in [2u8, 3, 15, 255] {
        let mut buf = [0u8; 48];
        buf[0] = 4 << 3;
        buf[1] = stratum;
        buf[12] = 127;
        buf[15] = 1;
        let p = decode(&buf).unwrap();
        assert_eq!(p.reference_id, ReferenceIdentifier::Secondary(0x7F00_0001));
    }
}

#[test]
fn encode_rejects_mismatched_reference_id() {
    let mut p = sample_secondary_packet();
    p.stratum = 2;
    p.reference_id = ReferenceIdentifier::PrimarySource(0);
    assert_eq!(encode(&p), Err(FormatError));
    p.stratum = 0;
    assert!(encode(&p).is_ok());
    p.reference_id = ReferenceIdentifier::Secondary(0);
    assert_eq!(encode(&p), Err(FormatError));
    p.stratum = 1;
    assert_eq!(encode(&p), Err(FormatError));
    p.stratum = 2;
    assert!(encode(&p).is_ok());
}

#[test]
fn client_request_packet_shape() {
    let transmit = TimestampFormat { seconds: 0xDDDD_DDDD, fraction: 0x1234_5678 };
    let p = nippy::client::client_request_packet(transmit);
    assert_eq!(p.leap_indicator, LeapIndicator::NoWarning);
    assert_eq!(p.version, Version::V4);
    assert_eq!(p.mode, Mode::Client);
    assert_eq!(p.stratum, STRATUM_UNSPECIFIED);
    assert_eq!(p.poll, 0);
    assert_eq!(p.precision, 0);
    assert_eq!(p.reference_id, ReferenceIdentifier::PrimarySource(PRIMARY_SOURCE_NULL));
    assert_eq!(p.transmit_timestamp, transmit);
    let bytes = encode(&p).unwrap();
    assert_eq!(bytes[0], 0b00_100_011);
    assert_eq!(&bytes[1..40], &[0u8; 39][..]);
    assert_eq!(&bytes[40..48], &[0xDD, 0xDD, 0xDD, 0xDD, 0x12, 0x34, 0x56, 0x78][..]);
    let q = decode(&bytes).unwrap();
    assert_eq!(q, p);
}
