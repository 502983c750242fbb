//! The block-wise backend: one bounds check, then whole fields at a time.

use crate::byte_order::{
    u16_from_be_bytes, u16_to_be_bytes, u32_from_be_bytes, u32_to_be_bytes, u64_from_be_bytes,
    u64_to_be_bytes,
};
use crate::constants::HEADER_SIZE;
use crate::header::layout::{
    lemma_encoded_from_parts, lemma_packed_by_shift, lemma_unpacked_by_shift,
};
use crate::header::Header;
use crate::message_flags::MessageFlags;
use crate::traits::header::{HeaderDeserializer, HeaderSerializer};
use vstd::prelude::*;

verus! {

/// A codec that checks the length once, lifts the fifteen bytes out as one
/// block and converts each multi-byte field with a single byte-order
/// conversion, with no shifting byte by byte.
pub struct OptimizedHeaderParser;

impl HeaderDeserializer for OptimizedHeaderParser {
    fn parse(buf: &[u8]) -> (r: Option<Header>) {
        if buf.len() < HEADER_SIZE {
            return None;
        }
        let header_bytes: [u8; HEADER_SIZE] = [
            buf[0],
            buf[1],
            buf[2],
            buf[3],
            buf[4],
            buf[5],
            buf[6],
            buf[7],
            buf[8],
            buf[9],
            buf[10],
            buf[11],
            buf[12],
            buf[13],
            buf[14],
        ];

        let first_byte = header_bytes[0];
        let id = (first_byte >> 2) & Header::LAST_SIX_BITS;
        let version = first_byte & Header::LAST_TWO_BITS;

        let flag_bytes = [header_bytes[1], header_bytes[2]];
        let flags = u16_from_be_bytes(flag_bytes);

        let len_bytes = [header_bytes[3], header_bytes[4], header_bytes[5], header_bytes[6]];
        let payload_len = u32_from_be_bytes(len_bytes);

        let seq_bytes = [
            header_bytes[7],
            header_bytes[8],
            header_bytes[9],
            header_bytes[10],
            header_bytes[11],
            header_bytes[12],
            header_bytes[13],
            header_bytes[14],
        ];
        let sequence_number = u64_from_be_bytes(seq_bytes);

        proof {
            lemma_unpacked_by_shift(first_byte);
            assert(flag_bytes@ =~= buf@.subrange(1, 3));
            assert(len_bytes@ =~= buf@.subrange(3, 7));
            assert(seq_bytes@ =~= buf@.subrange(7, 15));
        }
        Some(Header::new(id, version, MessageFlags::from_bits(flags), payload_len, sequence_number))
    }
}

impl HeaderSerializer for OptimizedHeaderParser {
    fn serialize(header: &Header) -> (bytes: [u8; HEADER_SIZE]) {
        let id = header.id();
        let version = header.version();
        let flag_set = header.flags();
        let flags_be = u16_to_be_bytes(*flag_set);
        let payload_be = u32_to_be_bytes(header.payload_len());
        let seq_be = u64_to_be_bytes(header.sequence_number());
        let bytes: [u8; HEADER_SIZE] = [
            ((id & Header::LAST_SIX_BITS) << 2) | (version & Header::LAST_TWO_BITS),
            flags_be[0],
            flags_be[1],
            payload_be[0],
            payload_be[1],
            payload_be[2],
            payload_be[3],
            seq_be[0],
            seq_be[1],
            seq_be[2],
            seq_be[3],
            seq_be[4],
            seq_be[5],
            seq_be[6],
            seq_be[7],
        ];
        proof {
            lemma_packed_by_shift(id, version);
            assert(bytes@.subrange(1, 3) =~= flags_be@);
            assert(bytes@.subrange(3, 7) =~= payload_be@);
            assert(bytes@.subrange(7, 15) =~= seq_be@);
            lemma_encoded_from_parts(header@, bytes@);
        }
        bytes
    }
}

} // verus!
