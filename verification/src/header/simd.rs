//! The staged backend: the header moves as one block through a staging
//! buffer, the way a 128-bit vector register would carry it.

use crate::byte_order::{
    u16_from_be_bytes, u16_to_be_bytes, u32_from_be_bytes, u32_to_be_bytes, u64_from_be_bytes,
    u64_to_be_bytes,
};
use crate::constants::HEADER_SIZE;
use crate::header::layout::{
    lemma_encoded_from_parts, lemma_packed_by_shift, lemma_unpacked_by_shift,
};
use crate::header::Header;
use crate::message_flags::MessageFlags;
use crate::traits::header::{HeaderDeserializer, HeaderSerializer};
use vstd::prelude::*;

verus! {

/// A codec shaped for processors with advanced SIMD. Fields are laid out in
/// byte order in a register-wide staging buffer, and the header region is
/// moved in one block between that buffer and the caller's memory. The
/// result is the same on every processor.
pub struct Aarch64NeonHeaderParser;

/// Moves the first fifteen bytes of `src` as one block.
fn move_block(src: &[u8]) -> (block: [u8; HEADER_SIZE])
    requires
        src@.len() >= HEADER_SIZE,
    ensures
        block@ == src@.subrange(0, HEADER_SIZE as int),
{
    let mut block = [0u8; 15];
    let mut i: usize = 0;
    while i < HEADER_SIZE
        invariant
            i <= HEADER_SIZE,
            src@.len() >= HEADER_SIZE,
            forall|j: int| 0 <= j < i ==> block@[j] == src@[j],
        decreases HEADER_SIZE - i,
    {
        block[i] = src[i];
        i += 1;
    }
    assert(block@ =~= src@.subrange(0, HEADER_SIZE as int));
    block
}

impl HeaderSerializer for Aarch64NeonHeaderParser {
    fn serialize(header: &Header) -> (bytes: [u8; HEADER_SIZE]) {
        let id = header.id();
        let version = header.version();
        let flag_set = header.flags();

        // One register wide: sixteen bytes, of which the header fills fifteen.
        let mut tmp_buf = [0u8; 16];
        tmp_buf[0] = ((id & Header::LAST_SIX_BITS) << 2) | (version & Header::LAST_TWO_BITS);

        let flags_be = u16_to_be_bytes(*flag_set);
        tmp_buf[1] = flags_be[0];
        tmp_buf[2] = flags_be[1];

        let payload_be = u32_to_be_bytes(header.payload_len());
        tmp_buf[3] = payload_be[0];
        tmp_buf[4] = payload_be[1];
        tmp_buf[5] = payload_be[2];
        tmp_buf[6] = payload_be[3];

        let seq_be = u64_to_be_bytes(header.sequence_number());
        tmp_buf[7] = seq_be[0];
        tmp_buf[8] = seq_be[1];
        tmp_buf[9] = seq_be[2];
        tmp_buf[10] = seq_be[3];
        tmp_buf[11] = seq_be[4];
        tmp_buf[12] = seq_be[5];
        tmp_buf[13] = seq_be[6];
        tmp_buf[14] = seq_be[7];

        let bytes = move_block(tmp_buf.as_slice());
        proof {
            lemma_packed_by_shift(id, version);
            assert(bytes@.subrange(1, 3) =~= flags_be@);
            assert(bytes@.subrange(3, 7) =~= payload_be@);
            assert(bytes@.subrange(7, 15) =~= seq_be@);
            lemma_encoded_from_parts(header@, bytes@);
        }
        bytes
    }
}

impl HeaderDeserializer for Aarch64NeonHeaderParser {
    fn parse(buf: &[u8]) -> (r: Option<Header>) {
        if buf.len() < HEADER_SIZE {
            return None;
        }
        let tmp_buf = move_block(buf);

        let first_byte = tmp_buf[0];
        let id = (first_byte >> 2) & Header::LAST_SIX_BITS;
        let version = first_byte & Header::LAST_TWO_BITS;

        let flag_bytes = [tmp_buf[1], tmp_buf[2]];
        let flags = u16_from_be_bytes(flag_bytes);

        let len_bytes = [tmp_buf[3], tmp_buf[4], tmp_buf[5], tmp_buf[6]];
        let payload_len = u32_from_be_bytes(len_bytes);

        let seq_bytes = [
            tmp_buf[7],
            tmp_buf[8],
            tmp_buf[9],
            tmp_buf[10],
            tmp_buf[11],
            tmp_buf[12],
            tmp_buf[13],
            tmp_buf[14],
        ];
        let sequence_number = u64_from_be_bytes(seq_bytes);

        proof {
            lemma_unpacked_by_shift(first_byte);
            assert(flag_bytes@ =~= buf@.subrange(1, 3));
            assert(len_bytes@ =~= buf@.subrange(3, 7));
            assert(seq_bytes@ =~= buf@.subrange(7, 15));
        }
        Some(Header::new(id, version, MessageFlags::from_bits(flags), payload_len, sequence_number))
    }
}

} // verus!
