use icmp_ping::checksum::compute_checksum;
use icmp_ping::icmp::{new_echo_request, IcmpData, IcmpError, IcmpMessageType};

/// Folds a plain 16-bit-word sum of `data` the ones'-complement way,
/// checksum field included: the self-verification total.
fn ones_complement_total(data: &[u8]) -> u32 {
    let mut sum: u32 = 0;
    let mut i = 0;
    while i < data.len() {
        let hi = (data[i] as u32) << 8;
        let lo = if i + 1 < data.len() { data[i + 1] as u32 } else { 0 };
        sum += hi + lo;
        i += 2;
    }
    while sum > 0xFFFF {
        sum = (sum >> 16) + (sum & 0xFFFF);
    }
    sum
}

#[test]
fn checksum_known_value() {
    // The worked example of RFC 1071 section 3.
    assert_eq!(compute_checksum(&[0x00, 0x01, 0xf2, 0x03, 0xf4, 0xf5, 0xf6, 0xf7]), 0x220d);
}

#[test]
fn checksum_odd_length_pads_low_byte() {
    assert_eq!(compute_checksum(&[0x01]), 0xfeff);
    // Words 0x0102 and 0x0300: the trailing byte is the high half.
    assert_eq!(compute_checksum(&[0x01, 0x02, 0x03]), 0xfbfd);
}

#[test]
fn checksum_empty_buffer() {
    assert_eq!(compute_checksum(&[]), 0xffff);
}

#[test]
fn encode_echo_request_header_bytes() {
    let msg = new_echo_request(vec![0x48, 0x65], 0x1234, 0x0001);
    let bytes = msg.encode();
    assert_eq!(bytes.len(), 10);
    assert_eq!(&bytes[0..2], &[0x08, 0x00]);
    assert_eq!(&bytes[4..8], &[0x12, 0x34, 0x00, 0x01]);
    assert_eq!(&bytes[8..10], &[0x48, 0x65]);

    let decoded = IcmpData::parse(&bytes).unwrap();
    assert_eq!(*decoded.get_type(), IcmpMessageType::EchoRequest);
    assert_eq!(decoded.get_seq_no(), 1);
    // Identifier and payload came through unchanged: re-encoding
    // reproduces the buffer byte for byte.
    assert_eq!(decoded.encode(), bytes);
}

#[test]
fn encode_writes_the_checksum_of_the_zeroed_buffer() {
    let msg = new_echo_request(vec![1, 2, 3, 4, 5], 0xBEEF, 0x00FF);
    let bytes = msg.encode();
    let mut zeroed = bytes.clone();
    zeroed[2] = 0;
    zeroed[3] = 0;
    let ck = compute_checksum(&zeroed);
    assert_eq!(bytes[2], (ck >> 8) as u8);
    assert_eq!(bytes[3], (ck & 0xFF) as u8);
}

#[test]
fn encoded_checksum_self_verifies() {
    let payloads: Vec<Vec<u8>> = vec![vec![], vec![0x48, 0x65], vec![0xFF; 9], vec![0; 31]];
    for payload in payloads {
        let msg = new_echo_request(payload, 0xABCD, 0x0102);
        let bytes = msg.encode();
        assert_eq!(ones_complement_total(&bytes), 0xFFFF);
    }
}

#[test]
fn round_trip_every_variant() {
    let variants = vec![
        IcmpMessageType::EchoResponse,
        IcmpMessageType::EchoRequest,
        IcmpMessageType::DestinationUnreachable(7),
        IcmpMessageType::SourceQuench,
        IcmpMessageType::Redirect(2),
        IcmpMessageType::TimeExceeded(1),
        IcmpMessageType::ParameterProblem,
        IcmpMessageType::Timestamp,
        IcmpMessageType::TimestampReply,
        IcmpMessageType::InformationRequest,
        IcmpMessageType::InformationReply,
    ];
    for variant in variants {
        let msg = IcmpData::new(
            variant,
            Some(0x5555),
            Some(0x1111),
            Some(0x2222),
            Some(vec![9, 8, 7]),
        )
        .unwrap();
        let bytes = msg.encode();
        let decoded = IcmpData::parse(&bytes).unwrap();
        assert_eq!(*decoded.get_type(), variant);
        assert_eq!(decoded.get_seq_no(), 0x2222);
        // Every field but the caller-supplied checksum survives:
        // re-encoding computes the same checksum again.
        assert_eq!(decoded.encode(), bytes);
    }
}

#[test]
fn new_defaults_absent_fields_to_zero_and_empty() {
    let msg = IcmpData::new(IcmpMessageType::SourceQuench, None, None, None, None).unwrap();
    assert_eq!(msg.get_seq_no(), 0);
    let bytes = msg.encode();
    assert_eq!(bytes.len(), 8);
    assert_eq!(bytes[0], 4);
    assert_eq!(bytes[1], 0);
    assert_eq!(&bytes[4..8], &[0, 0, 0, 0]);
}

#[test]
fn parse_short_buffer_fails() {
    assert!(matches!(IcmpData::parse(&[]), Err(IcmpError::BufferTooShort)));
    assert!(matches!(IcmpData::parse(&[8, 0, 0, 0, 0, 0, 0]), Err(IcmpError::BufferTooShort)));
}

#[test]
fn parse_eight_bytes_gives_empty_payload() {
    let decoded = IcmpData::parse(&[8, 0, 0, 0, 0, 0, 0, 0]).unwrap();
    assert_eq!(*decoded.get_type(), IcmpMessageType::EchoRequest);
    assert_eq!(decoded.get_seq_no(), 0);
    assert_eq!(decoded.encode().len(), 8);
}

#[test]
fn parse_echo_response_sequence_five() {
    let decoded = IcmpData::parse(&[0x00, 0x00, 0xab, 0xcd, 0x00, 0x00, 0x00, 0x05]).unwrap();
    assert_eq!(*decoded.get_type(), IcmpMessageType::EchoResponse);
    assert_eq!(decoded.get_seq_no(), 5);
}

#[test]
fn type_code_table_round_trips() {
    let pairs: Vec<(u8, u8, IcmpMessageType)> = vec![
        (0, 0, IcmpMessageType::EchoResponse),
        (8, 0, IcmpMessageType::EchoRequest),
        (3, 0, IcmpMessageType::DestinationUnreachable(0)),
        (3, 15, IcmpMessageType::DestinationUnreachable(15)),
        (4, 0, IcmpMessageType::SourceQuench),
        (5, 3, IcmpMessageType::Redirect(3)),
        (11, 1, IcmpMessageType::TimeExceeded(1)),
        (12, 0, IcmpMessageType::ParameterProblem),
        (13, 0, IcmpMessageType::Timestamp),
        (14, 0, IcmpMessageType::TimestampReply),
        (15, 0, IcmpMessageType::InformationRequest),
        (16, 0, IcmpMessageType::InformationReply),
    ];
    for (t, c, expected) in pairs {
        let got = IcmpMessageType::from_type_and_code(t, c).unwrap();
        assert_eq!(got, expected);
        assert_eq!(got.into_type_and_code(), (t, c));
    }
}

#[test]
fn type_code_pairs_outside_the_table_fail() {
    let bad: Vec<(u8, u8)> = vec![(1, 0), (2, 0), (6, 0), (7, 7), (9, 0), (10, 0), (17, 0), (99, 0), (255, 255)];
    for (t, c) in bad {
        assert!(matches!(
            IcmpMessageType::from_type_and_code(t, c),
            Err(IcmpError::InvalidTypeCode)
        ));
    }
}

#[test]
fn destination_unreachable_code_one() {
    assert_eq!(
        IcmpMessageType::from_type_and_code(3, 1).unwrap(),
        IcmpMessageType::DestinationUnreachable(1)
    );
    assert!(matches!(
        IcmpMessageType::from_type_and_code(99, 0),
        Err(IcmpError::InvalidTypeCode)
    ));
    assert!(matches!(
        IcmpData::parse(&[99, 0, 0, 0, 0, 0, 0, 0]),
        Err(IcmpError::InvalidTypeCode)
    ));
}

#[test]
fn fixed_code_types_reject_other_codes() {
    for t in [0u8, 4, 8, 12, 13, 14, 15, 16] {
        assert!(matches!(
            IcmpMessageType::from_type_and_code(t, 1),
            Err(IcmpError::InvalidTypeCode)
        ));
    }
}
