//! The reference backend: portable composition and decomposition by shifts.

use crate::byte_order::{
    lemma_big_endian_2, lemma_big_endian_4, lemma_big_endian_8, lemma_digits_by_shift_2,
    lemma_digits_by_shift_4, lemma_digits_by_shift_8, lemma_value_2, lemma_value_4, lemma_value_8,
    lemma_value_by_shift_2, lemma_value_by_shift_4, lemma_value_by_shift_8,
};
use crate::constants::HEADER_SIZE;
use crate::header::layout::{
    lemma_encoded_from_parts, lemma_packed_by_shift, lemma_unpacked_by_shift,
};
use crate::header::Header;
use crate::message_flags::MessageFlags;
use crate::traits::header::{HeaderDeserializer, HeaderSerializer};
use vstd::prelude::*;

verus! {

/// The reference codec. It touches one byte at a time and nothing but
/// shifts, masks and ors.
pub struct StandardHeaderParser;

impl HeaderDeserializer for StandardHeaderParser {
    fn parse(bytes: &[u8]) -> (r: Option<Header>) {
        if bytes.len() < HEADER_SIZE {
            return None;
        }
        let id_version = bytes[0];
        let id = (id_version >> 2) & Header::LAST_SIX_BITS;
        let version = id_version & Header::LAST_TWO_BITS;

        let flags = ((bytes[1] as u16) << 8) | (bytes[2] as u16);

        let payload_len = ((bytes[3] as u32) << 24) | ((bytes[4] as u32) << 16) | ((
        bytes[5] as u32) << 8) | (bytes[6] as u32);

        let sequence_number = ((bytes[7] as u64) << 56) | ((bytes[8] as u64) << 48) | ((
        bytes[9] as u64) << 40) | ((bytes[10] as u64) << 32) | ((bytes[11] as u64) << 24) | ((
        bytes[12] as u64) << 16) | ((bytes[13] as u64) << 8) | (bytes[14] as u64);

        proof {
            let s = bytes@;
            lemma_unpacked_by_shift(id_version);
            lemma_value_by_shift_2(s[1], s[2]);
            lemma_value_2(s.subrange(1, 3));
            lemma_value_by_shift_4(s[3], s[4], s[5], s[6]);
            lemma_value_4(s.subrange(3, 7));
            lemma_value_by_shift_8(s[7], s[8], s[9], s[10], s[11], s[12], s[13], s[14]);
            lemma_value_8(s.subrange(7, 15));
        }
        Some(Header::new(id, version, MessageFlags::from_bits(flags), payload_len, sequence_number))
    }
}

impl HeaderSerializer for StandardHeaderParser {
    fn serialize(header: &Header) -> (bytes: [u8; HEADER_SIZE]) {
        let id = header.id();
        let version = header.version();
        let flag_set = header.flags();
        let flags: u16 = *flag_set;
        let payload_len = header.payload_len();
        let sequence_number = header.sequence_number();
        proof {
            lemma_packed_by_shift(id, version);
            lemma_digits_by_shift_2(flags);
            lemma_digits_by_shift_4(payload_len);
            lemma_digits_by_shift_8(sequence_number);
        }
        let bytes: [u8; HEADER_SIZE] = [
            ((id & Header::LAST_SIX_BITS) << 2) | (version & Header::LAST_TWO_BITS),
            ((flags >> 8) & 0xFF) as u8,
            (flags & 0xFF) as u8,
            ((payload_len >> 24) & 0xFF) as u8,
            ((payload_len >> 16) & 0xFF) as u8,
            ((payload_len >> 8) & 0xFF) as u8,
            (payload_len & 0xFF) as u8,
            ((sequence_number >> 56) & 0xFF) as u8,
            ((sequence_number >> 48) & 0xFF) as u8,
            ((sequence_number >> 40) & 0xFF) as u8,
            ((sequence_number >> 32) & 0xFF) as u8,
            ((sequence_number >> 24) & 0xFF) as u8,
            ((sequence_number >> 16) & 0xFF) as u8,
            ((sequence_number >> 8) & 0xFF) as u8,
            (sequence_number & 0xFF) as u8,
        ];
        proof {
            let s = bytes@;
            lemma_big_endian_2(flags);
            lemma_big_endian_4(payload_len);
            lemma_big_endian_8(sequence_number);
            assert(s.subrange(1, 3) =~= seq![s[1], s[2]]);
            assert(s.subrange(3, 7) =~= seq![s[3], s[4], s[5], s[6]]);
            assert(s.subrange(7, 15) =~= seq![
                s[7],
                s[8],
                s[9],
                s[10],
                s[11],
                s[12],
                s[13],
                s[14],
            ]);
            lemma_encoded_from_parts(header@, s);
        }
        bytes
    }
}

} // verus!
