use bytes::Bytes;
use nexsock_protocol_core::constants::HEADER_SIZE;
use nexsock_protocol_core::error::ProtocolError;
use nexsock_protocol_core::header::optimized::OptimizedHeaderParser;
use nexsock_protocol_core::header::simd::Aarch64NeonHeaderParser;
use nexsock_protocol_core::header::standard::StandardHeaderParser;
use nexsock_protocol_core::header::vector::VectorHeaderParser;
use nexsock_protocol_core::header::{DefaultHeaderParser, Header, RangeError};
use nexsock_protocol_core::message_flags::MessageFlags;
use nexsock_protocol_core::traits::header::{HeaderDeserializer, HeaderParser, HeaderSerializer};

const HEADER_BYTES: [u8; HEADER_SIZE] = [6, 0, 9, 0, 0, 2, 0, 0, 0, 0, 0, 0, 0, 0, 1];

const DISTINCT_BYTES: [u8; HEADER_SIZE] = [
    0xA7, 0x12, 0x34, 0x56, 0x78, 0x9A, 0xBC, 0x01, 0x23, 0x45, 0x67, 0x89, 0xAB, 0xCD, 0xEF,
];

fn test_serializer<S: HeaderSerializer>() {
    let version = 2;
    let id = 1;
    let flags = MessageFlags::compressed() | MessageFlags::has_payload();
    let payload_len = 0x200;
    let sequence_number = 1;

    let sent_header = Header::new(id, version, flags, payload_len, sequence_number);
    let header_bytes = S::serialize(&sent_header);

    assert_eq!(header_bytes.len(), HEADER_SIZE);
    assert_eq!(header_bytes[..], HEADER_BYTES[..]);
}

fn test_deserializer<D: HeaderDeserializer>() {
    let header = D::parse(&HEADER_BYTES);

    assert!(header.is_some());
    let header = header.unwrap();

    assert_eq!(header.id(), 1);
    assert_eq!(header.version(), 2);
    assert_eq!(
        header.flags(),
        MessageFlags::compressed() | MessageFlags::has_payload()
    );
    assert_eq!(header.payload_len(), 0x200);
    assert_eq!(header.sequence_number(), 1);
}

fn distinct_header() -> Header {
    Header::new(
        0x29,
        3,
        MessageFlags::from(0x1234),
        0x5678_9ABC,
        0x0123_4567_89AB_CDEF,
    )
}

fn serializes_distinct_bytes<S: HeaderSerializer>() {
    assert_eq!(S::serialize(&distinct_header()), DISTINCT_BYTES);
}

fn parses_distinct_bytes<D: HeaderDeserializer>() {
    assert_eq!(D::parse(&DISTINCT_BYTES), Some(distinct_header()));
}

fn rejects_short_input<D: HeaderDeserializer>() {
    for len in 0..HEADER_SIZE {
        assert_eq!(D::parse(&DISTINCT_BYTES[..len]), None);
    }
    assert!(D::parse(&DISTINCT_BYTES[..HEADER_SIZE]).is_some());
}

fn ignores_bytes_past_the_header<D: HeaderDeserializer>() {
    let mut long = DISTINCT_BYTES.to_vec();
    long.extend_from_slice(&[0xFF, 0xEE, 0xDD]);
    assert_eq!(D::parse(&long), Some(distinct_header()));
}

fn sample_headers() -> Vec<Header> {
    vec![
        Header::new(0, 0, MessageFlags::none(), 0, 0),
        Header::new(5, 1, MessageFlags::none(), 128, 42),
        Header::new(
            10,
            2,
            MessageFlags::compressed() | MessageFlags::has_payload(),
            0x1000,
            0x1234_5678,
        ),
        Header::new(32, 0, MessageFlags::from(0x8000), 1, 1 << 63),
        Header::new(
            63,
            3,
            MessageFlags::compressed()
                | MessageFlags::encrypted()
                | MessageFlags::requires_ack()
                | MessageFlags::has_payload(),
            0x1000_0000,
            0xFFFF_FFFF_FFFF_FFFF,
        ),
        Header::new(63, 3, MessageFlags::from(0xFFFF), u32::MAX, u64::MAX),
        distinct_header(),
    ]
}

fn round_trips<S: HeaderSerializer, D: HeaderDeserializer>() {
    for header in sample_headers() {
        let bytes = S::serialize(&header);
        assert_eq!(D::parse(&bytes), Some(header));
    }
}

fn truncates_like_the_reference<S: HeaderSerializer>() {
    for id in [64u8, 65, 127, 200, 255] {
        for version in [4u8, 5, 7, 255] {
            let header = Header::new(id, version, MessageFlags::from(0x0F0F), 77, 99);
            assert_eq!(
                S::serialize(&header),
                StandardHeaderParser::serialize(&header)
            );
        }
    }
}

#[test]
fn test_to_bytes() {
    let version = 2;
    let id = 1;
    let flags = MessageFlags::none();
    let payload_len = 0x200;
    let sequence_number = 1;

    let header = Header::new(id, version, flags, payload_len, sequence_number);

    let header_bytes = header.to_bytes::<StandardHeaderParser>();

    let expected_bytes = [
        0x06, // id and version combined
        0x00, 0x00, // flags
        0x00, 0x00, 0x02, 0x00, // payload_len (0x200) in big endian
        0x00, 0x00, 0x00, 0x00, 0x00, 0x00, 0x00, 0x01, // sequence_number (1) in big endian
    ];

    assert_eq!(header_bytes.len(), HEADER_SIZE);
    assert_eq!(&header_bytes[..], &expected_bytes[..]);
}

#[test]
fn test_roundtrip() {
    let version = 2;
    let id = 1;
    let flags = MessageFlags::compressed() | MessageFlags::has_payload();
    let payload_len = 0x200;
    let sequence_number = 1;

    let sent_header = Header::new(id, version, flags, payload_len, sequence_number);
    let bytes = sent_header.to_bytes::<StandardHeaderParser>();
    let recovered_header =
        Header::parse::<StandardHeaderParser>(&mut Bytes::from_owner(bytes)).unwrap();

    assert_eq!(recovered_header.id(), id);
    assert_eq!(recovered_header.version(), version);
    assert_eq!(recovered_header.flags(), flags);
    assert_eq!(recovered_header.payload_len(), payload_len);
    assert_eq!(recovered_header.sequence_number(), sequence_number);
}

#[test]
fn test_optimized_deserializer() {
    test_deserializer::<OptimizedHeaderParser>()
}

#[test]
fn test_aarch64_neon_serialize() {
    test_serializer::<Aarch64NeonHeaderParser>()
}

#[test]
fn test_aarch64_neon_deserialize() {
    test_deserializer::<Aarch64NeonHeaderParser>()
}

#[test]
fn test_standard_serializer() {
    test_serializer::<StandardHeaderParser>()
}

#[test]
fn test_standard_deserializer() {
    test_deserializer::<StandardHeaderParser>()
}

#[test]
fn literal_vector_under_every_serializer() {
    test_serializer::<OptimizedHeaderParser>();
    test_serializer::<VectorHeaderParser>();
    test_serializer::<<DefaultHeaderParser as HeaderParser>::Serializer>();
}

#[test]
fn literal_vector_under_every_deserializer() {
    test_deserializer::<VectorHeaderParser>();
    test_deserializer::<<DefaultHeaderParser as HeaderParser>::Deserializer>();
}

#[test]
fn every_field_lands_on_its_bytes() {
    serializes_distinct_bytes::<StandardHeaderParser>();
    serializes_distinct_bytes::<OptimizedHeaderParser>();
    serializes_distinct_bytes::<VectorHeaderParser>();
    serializes_distinct_bytes::<Aarch64NeonHeaderParser>();
}

#[test]
fn every_field_is_read_from_its_bytes() {
    parses_distinct_bytes::<StandardHeaderParser>();
    parses_distinct_bytes::<OptimizedHeaderParser>();
    parses_distinct_bytes::<VectorHeaderParser>();
    parses_distinct_bytes::<Aarch64NeonHeaderParser>();
}

#[test]
fn id_uses_all_six_bits() {
    for id in 0..64u8 {
        for version in 0..4u8 {
            let header = Header::new(id, version, MessageFlags::none(), 0, 0);
            let bytes = header.to_bytes::<StandardHeaderParser>();
            assert_eq!(bytes[0], (id << 2) | version);
            assert_eq!(Header::parse::<StandardHeaderParser>(&bytes), Some(header));
            assert_eq!(Header::parse::<OptimizedHeaderParser>(&bytes), Some(header));
            assert_eq!(Header::parse::<VectorHeaderParser>(&bytes), Some(header));
            assert_eq!(Header::parse::<Aarch64NeonHeaderParser>(&bytes), Some(header));
        }
    }
}

#[test]
fn round_trip_under_every_pair_of_backends() {
    round_trips::<StandardHeaderParser, StandardHeaderParser>();
    round_trips::<StandardHeaderParser, OptimizedHeaderParser>();
    round_trips::<StandardHeaderParser, VectorHeaderParser>();
    round_trips::<StandardHeaderParser, Aarch64NeonHeaderParser>();
    round_trips::<OptimizedHeaderParser, StandardHeaderParser>();
    round_trips::<OptimizedHeaderParser, OptimizedHeaderParser>();
    round_trips::<OptimizedHeaderParser, VectorHeaderParser>();
    round_trips::<OptimizedHeaderParser, Aarch64NeonHeaderParser>();
    round_trips::<VectorHeaderParser, StandardHeaderParser>();
    round_trips::<VectorHeaderParser, OptimizedHeaderParser>();
    round_trips::<VectorHeaderParser, VectorHeaderParser>();
    round_trips::<VectorHeaderParser, Aarch64NeonHeaderParser>();
    round_trips::<Aarch64NeonHeaderParser, StandardHeaderParser>();
    round_trips::<Aarch64NeonHeaderParser, OptimizedHeaderParser>();
    round_trips::<Aarch64NeonHeaderParser, VectorHeaderParser>();
    round_trips::<Aarch64NeonHeaderParser, Aarch64NeonHeaderParser>();
}

#[test]
fn backends_agree_on_arbitrary_bytes() {
    let mut block = [0u8; HEADER_SIZE];
    for seed in 0..200u32 {
        let mut x = seed.wrapping_mul(2_654_435_761).wrapping_add(12345);
        for byte in block.iter_mut() {
            x = x.wrapping_mul(1_664_525).wrapping_add(1_013_904_223);
            *byte = (x >> 24) as u8;
        }
        let reference = StandardHeaderParser::parse(&block);
        assert!(reference.is_some());
        assert_eq!(OptimizedHeaderParser::parse(&block), reference);
        assert_eq!(VectorHeaderParser::parse(&block), reference);
        assert_eq!(Aarch64NeonHeaderParser::parse(&block), reference);

        let header = reference.unwrap();
        assert_eq!(StandardHeaderParser::serialize(&header), block);
        assert_eq!(OptimizedHeaderParser::serialize(&header), block);
        assert_eq!(VectorHeaderParser::serialize(&header), block);
        assert_eq!(Aarch64NeonHeaderParser::serialize(&header), block);
    }
}

#[test]
fn short_input_is_rejected_by_every_backend() {
    rejects_short_input::<StandardHeaderParser>();
    rejects_short_input::<OptimizedHeaderParser>();
    rejects_short_input::<VectorHeaderParser>();
    rejects_short_input::<Aarch64NeonHeaderParser>();
}

#[test]
fn bytes_past_the_header_are_not_read() {
    ignores_bytes_past_the_header::<StandardHeaderParser>();
    ignores_bytes_past_the_header::<OptimizedHeaderParser>();
    ignores_bytes_past_the_header::<VectorHeaderParser>();
    ignores_bytes_past_the_header::<Aarch64NeonHeaderParser>();
}

#[test]
fn id_200_keeps_its_low_six_bits() {
    let header = Header::new(200, 2, MessageFlags::none(), 0, 0);
    assert_eq!(header.id(), 200);

    let bytes = header.to_bytes::<StandardHeaderParser>();
    assert_eq!(200 & 0x3F, 8);
    assert_eq!(bytes[0], (8 << 2) | 2);
    assert_eq!(bytes[0], 0x22);

    let back = Header::parse::<StandardHeaderParser>(&bytes).unwrap();
    assert_eq!(back.id(), 8);
    assert_eq!(back.version(), 2);
}

#[test]
fn version_keeps_its_low_two_bits() {
    let header = Header::new(1, 7, MessageFlags::none(), 0, 0);
    assert_eq!(header.version(), 7);
    let bytes = header.to_bytes::<StandardHeaderParser>();
    assert_eq!(bytes[0], (1 << 2) | 3);
    let back = Header::parse::<StandardHeaderParser>(&bytes).unwrap();
    assert_eq!(back.id(), 1);
    assert_eq!(back.version(), 3);
}

#[test]
fn truncation_is_the_same_under_every_serializer() {
    truncates_like_the_reference::<OptimizedHeaderParser>();
    truncates_like_the_reference::<VectorHeaderParser>();
    truncates_like_the_reference::<Aarch64NeonHeaderParser>();
}

#[test]
fn new_keeps_the_fields_as_given() {
    let flags = MessageFlags::encrypted() | MessageFlags::requires_ack();
    let header = Header::new(255, 254, flags, 0xDEAD_BEEF, 0xFEED_FACE_CAFE_F00D);
    assert_eq!(header.id(), 255);
    assert_eq!(header.version(), 254);
    assert_eq!(header.flags(), flags);
    assert_eq!(header.payload_len(), 0xDEAD_BEEF);
    assert_eq!(header.sequence_number(), 0xFEED_FACE_CAFE_F00D);
    let copy = header;
    assert_eq!(copy, header);
}

#[test]
fn parse_bytes_advances_past_the_header() {
    let mut data = DISTINCT_BYTES.to_vec();
    data.extend_from_slice(&[1, 2, 3, 4, 5]);
    let mut buffer = Bytes::from(data);

    let header = Header::parse_bytes::<OptimizedHeaderParser>(&mut buffer);
    assert_eq!(header, Some(distinct_header()));
    assert_eq!(buffer.len(), 5);
    assert_eq!(&buffer[..], &[1, 2, 3, 4, 5]);

    assert_eq!(StandardHeaderParser::parse_bytes(&mut buffer), None);
    assert_eq!(&buffer[..], &[1, 2, 3, 4, 5]);
}

#[test]
fn parse_bytes_leaves_a_short_buffer_alone() {
    for len in 0..HEADER_SIZE {
        let mut buffer = Bytes::copy_from_slice(&DISTINCT_BYTES[..len]);
        assert_eq!(Header::parse_bytes::<StandardHeaderParser>(&mut buffer), None);
        assert_eq!(&buffer[..], &DISTINCT_BYTES[..len]);
    }
}

#[test]
fn parse_bytes_takes_one_header_at_a_time() {
    let mut data = HEADER_BYTES.to_vec();
    data.extend_from_slice(&DISTINCT_BYTES);
    let mut buffer = Bytes::from(data);

    let first = Aarch64NeonHeaderParser::parse_bytes(&mut buffer).unwrap();
    assert_eq!(first.id(), 1);
    assert_eq!(buffer.len(), HEADER_SIZE);
    let second = VectorHeaderParser::parse_bytes(&mut buffer);
    assert_eq!(second, Some(distinct_header()));
    assert!(buffer.is_empty());
}

#[test]
fn read_header_accepts_the_bytes_of_a_header() {
    let header = Header::read_header::<OptimizedHeaderParser>(&DISTINCT_BYTES).unwrap();
    assert_eq!(header, distinct_header());
}

#[test]
fn read_header_reports_too_few_bytes_as_invalid_data() {
    for len in 0..HEADER_SIZE {
        match Header::read_header::<StandardHeaderParser>(&DISTINCT_BYTES[..len]) {
            Err(ProtocolError::Io(e)) => {
                assert_eq!(e.kind(), std::io::ErrorKind::InvalidData);
                assert_eq!(e.to_string(), "Failed to parse header");
            }
            other => panic!("unexpected result: {:?}", other),
        }
    }
}

#[test]
fn checked_new_refuses_what_the_wire_would_cut() {
    let flags = MessageFlags::none();
    assert_eq!(
        Header::checked_new(63, 3, flags, 7, 9),
        Ok(Header::new(63, 3, flags, 7, 9))
    );
    assert_eq!(
        Header::checked_new(0, 0, flags, 0, 0),
        Ok(Header::new(0, 0, flags, 0, 0))
    );
    assert_eq!(Header::checked_new(64, 3, flags, 7, 9), Err(RangeError::Id));
    assert_eq!(Header::checked_new(200, 9, flags, 7, 9), Err(RangeError::Id));
    assert_eq!(Header::checked_new(63, 4, flags, 7, 9), Err(RangeError::Version));
    assert_eq!(Header::new(200, 9, flags, 7, 9).id(), 200);
}
