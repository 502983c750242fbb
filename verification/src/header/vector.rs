//! The lane backend: the short fields are taken out of one fixed-width load,
//! the sequence number is read directly.

use crate::byte_order::{
    lemma_big_endian_2, lemma_big_endian_4, lemma_digits_by_shift_2, lemma_digits_by_shift_4,
    lemma_value_2, lemma_value_4, lemma_value_by_shift_2, lemma_value_by_shift_4,
    u64_from_be_bytes, u64_to_be_bytes,
};
use crate::constants::HEADER_SIZE;
use crate::header::layout::{
    lemma_encoded_from_parts, lemma_packed_by_shift, lemma_unpacked_by_shift,
};
use crate::header::Header;
use crate::message_flags::MessageFlags;
use crate::traits::header::{HeaderDeserializer, HeaderSerializer};
use vstd::prelude::*;

verus! {

/// A codec that works on eight lanes at once. The lanes cover the first
/// byte, the flags and the payload length; the sequence number, as wide as
/// all the lanes together, goes through a byte-order conversion of its own.
pub struct VectorHeaderParser;

impl HeaderDeserializer for VectorHeaderParser {
    fn parse(bytes: &[u8]) -> (r: Option<Header>) {
        if bytes.len() < HEADER_SIZE {
            return None;
        }
        let lanes: [u8; 8] = [
            bytes[0],
            bytes[1],
            bytes[2],
            bytes[3],
            bytes[4],
            bytes[5],
            bytes[6],
            bytes[7],
        ];

        let id = (lanes[0] >> 2) & Header::LAST_SIX_BITS;
        let version = lanes[0] & Header::LAST_TWO_BITS;
        let flags = ((lanes[1] as u16) << 8) | (lanes[2] as u16);
        let payload_len = ((lanes[3] as u32) << 24) | ((lanes[4] as u32) << 16) | ((
        lanes[5] as u32) << 8) | (lanes[6] as u32);

        let seq_bytes = [
            bytes[7],
            bytes[8],
            bytes[9],
            bytes[10],
            bytes[11],
            bytes[12],
            bytes[13],
            bytes[14],
        ];
        let sequence_number = u64_from_be_bytes(seq_bytes);

        proof {
            let s = bytes@;
            lemma_unpacked_by_shift(lanes[0]);
            lemma_value_by_shift_2(s[1], s[2]);
            lemma_value_2(s.subrange(1, 3));
            lemma_value_by_shift_4(s[3], s[4], s[5], s[6]);
            lemma_value_4(s.subrange(3, 7));
            assert(seq_bytes@ =~= s.subrange(7, 15));
        }
        Some(Header::new(id, version, MessageFlags::from_bits(flags), payload_len, sequence_number))
    }
}

impl HeaderSerializer for VectorHeaderParser {
    fn serialize(header: &Header) -> (bytes: [u8; HEADER_SIZE]) {
        let id = header.id();
        let version = header.version();
        let flag_set = header.flags();
        let flags: u16 = *flag_set;
        let payload_len = header.payload_len();
        proof {
            lemma_packed_by_shift(id, version);
            lemma_digits_by_shift_2(flags);
            lemma_digits_by_shift_4(payload_len);
        }
        let lanes: [u8; 8] = [
            ((id & Header::LAST_SIX_BITS) << 2) | (version & Header::LAST_TWO_BITS),
            ((flags >> 8) & 0xFF) as u8,
            (flags & 0xFF) as u8,
            ((payload_len >> 24) & 0xFF) as u8,
            ((payload_len >> 16) & 0xFF) as u8,
            ((payload_len >> 8) & 0xFF) as u8,
            (payload_len & 0xFF) as u8,
            0,
        ];
        let seq_be = u64_to_be_bytes(header.sequence_number());
        let bytes: [u8; HEADER_SIZE] = [
            lanes[0],
            lanes[1],
            lanes[2],
            lanes[3],
            lanes[4],
            lanes[5],
            lanes[6],
            seq_be[0],
            seq_be[1],
            seq_be[2],
            seq_be[3],
            seq_be[4],
            seq_be[5],
            seq_be[6],
            seq_be[7],
        ];
        proof {
            let s = bytes@;
            lemma_big_endian_2(flags);
            lemma_big_endian_4(payload_len);
            assert(s.subrange(1, 3) =~= seq![s[1], s[2]]);
            assert(s.subrange(3, 7) =~= seq![s[3], s[4], s[5], s[6]]);
            assert(s.subrange(7, 15) =~= seq_be@);
            lemma_encoded_from_parts(header@, s);
        }
        bytes
    }
}

} // verus!
