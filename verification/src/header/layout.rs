//! The wire layout of a header, and the laws that hold of it.
//!
//! | Bytes   | Content                                              |
//! |---------|------------------------------------------------------|
//! | 0       | low six bits of `id`, then low two bits of `version` |
//! | 1 to 2  | `flags`, big-endian                                  |
//! | 3 to 6  | `payload_len`, big-endian                            |
//! | 7 to 14 | `sequence_number`, big-endian                        |
//!
//! Every codec backend is held to [`encoded`] and [`decoded`]; none defines
//! the format by what it happens to compute.

use crate::byte_order::{
    big_endian, big_endian_value, lemma_big_endian_len, lemma_big_endian_of_value,
    lemma_big_endian_value_bound, lemma_value_of_big_endian, pow256,
};
use crate::header::HeaderFields;
use vstd::prelude::*;

verus! {

/// The first byte: `id` modulo 64 in the high six bits, `version` modulo 4 in
/// the low two.
pub open spec fn packed(id: u8, version: u8) -> u8 {
    ((id % 64) * 4 + version % 4) as u8
}

/// The fifteen bytes that stand for `h` on the wire.
pub open spec fn encoded(h: HeaderFields) -> Seq<u8> {
    seq![packed(h.id, h.version)] + big_endian(h.flags as nat, 2) + big_endian(
        h.payload_len as nat,
        4,
    ) + big_endian(h.sequence_number as nat, 8)
}

/// The header that the first fifteen bytes of `s` stand for.
pub open spec fn decoded(s: Seq<u8>) -> HeaderFields
    recommends
        s.len() >= 15,
{
    HeaderFields {
        id: s[0] / 4,
        version: s[0] % 4,
        flags: big_endian_value(s.subrange(1, 3)) as u16,
        payload_len: big_endian_value(s.subrange(3, 7)) as u32,
        sequence_number: big_endian_value(s.subrange(7, 15)) as u64,
    }
}

/// `true` when `id` fits six bits and `version` fits two, so that nothing is
/// lost on the wire.
pub open spec fn fits(h: HeaderFields) -> bool {
    h.id < 64 && h.version < 4
}

/// `h` as it survives the wire: `id` cut to six bits, `version` to two.
pub open spec fn truncated(h: HeaderFields) -> HeaderFields {
    HeaderFields { id: h.id % 64, version: h.version % 4, ..h }
}

/// An encoded header is fifteen bytes long.
pub proof fn lemma_encoded_len(h: HeaderFields)
    ensures
        encoded(h).len() == 15,
{
    lemma_big_endian_len(h.flags as nat, 2);
    lemma_big_endian_len(h.payload_len as nat, 4);
    lemma_big_endian_len(h.sequence_number as nat, 8);
}

/// The parts of an encoded header, field by field.
pub proof fn lemma_encoded_parts(h: HeaderFields)
    ensures
        encoded(h).len() == 15,
        encoded(h)[0] == packed(h.id, h.version),
        encoded(h).subrange(1, 3) == big_endian(h.flags as nat, 2),
        encoded(h).subrange(3, 7) == big_endian(h.payload_len as nat, 4),
        encoded(h).subrange(7, 15) == big_endian(h.sequence_number as nat, 8),
{
    lemma_encoded_len(h);
    lemma_big_endian_len(h.flags as nat, 2);
    lemma_big_endian_len(h.payload_len as nat, 4);
    lemma_big_endian_len(h.sequence_number as nat, 8);
    assert(encoded(h).subrange(1, 3) =~= big_endian(h.flags as nat, 2));
    assert(encoded(h).subrange(3, 7) =~= big_endian(h.payload_len as nat, 4));
    assert(encoded(h).subrange(7, 15) =~= big_endian(h.sequence_number as nat, 8));
}

/// Decoding what was encoded gives the header back, with `id` and `version`
/// cut to the bits that the first byte has room for.
pub proof fn lemma_decoded_encoded(h: HeaderFields)
    ensures
        decoded(encoded(h)) == truncated(h),
{
    lemma_encoded_parts(h);
    assert(pow256(2) == 0x1_0000 && pow256(4) == 0x1_0000_0000 && pow256(8)
        == 0x1_0000_0000_0000_0000) by {
        reveal_with_fuel(pow256, 9);
    }
    lemma_value_of_big_endian(h.flags as nat, 2);
    lemma_value_of_big_endian(h.payload_len as nat, 4);
    lemma_value_of_big_endian(h.sequence_number as nat, 8);
}

/// Round trip: a header whose `id` and `version` fit their bit widths is
/// decoded from its encoding unchanged.
pub proof fn lemma_round_trip(h: HeaderFields)
    requires
        fits(h),
    ensures
        decoded(encoded(h)) == h,
{
    lemma_decoded_encoded(h);
}

/// What is decoded always fits, so decoding is a right inverse of encoding:
/// fifteen bytes are encoded back from their decoding unchanged.
pub proof fn lemma_encoded_decoded(s: Seq<u8>)
    requires
        s.len() == 15,
    ensures
        fits(decoded(s)),
        encoded(decoded(s)) == s,
{
    let h = decoded(s);
    let f = s.subrange(1, 3);
    let p = s.subrange(3, 7);
    let q = s.subrange(7, 15);
    assert(pow256(2) == 0x1_0000 && pow256(4) == 0x1_0000_0000 && pow256(8)
        == 0x1_0000_0000_0000_0000) by {
        reveal_with_fuel(pow256, 9);
    }
    lemma_big_endian_value_bound(f);
    lemma_big_endian_value_bound(p);
    lemma_big_endian_value_bound(q);
    lemma_big_endian_of_value(f);
    lemma_big_endian_of_value(p);
    lemma_big_endian_of_value(q);
    assert(encoded(h) =~= s);
}

/// Decoding reads the first fifteen bytes and nothing after them.
pub proof fn lemma_decoded_prefix(s: Seq<u8>)
    requires
        s.len() >= 15,
    ensures
        decoded(s) == decoded(s.subrange(0, 15)),
{
    let t = s.subrange(0, 15);
    assert(t.subrange(1, 3) =~= s.subrange(1, 3));
    assert(t.subrange(3, 7) =~= s.subrange(3, 7));
    assert(t.subrange(7, 15) =~= s.subrange(7, 15));
}

/// Masks and a shift pack the first byte.
pub proof fn lemma_packed_by_shift(id: u8, version: u8)
    by (bit_vector)
    ensures
        ((id & 0x3F) << 2) | (version & 0x03) == ((id % 64) * 4 + version % 4) as u8,
{
}

/// A shift and masks unpack the first byte.
pub proof fn lemma_unpacked_by_shift(b: u8)
    by (bit_vector)
    ensures
        (b >> 2) & 0x3F == b / 4,
        b & 0x03 == b % 4,
{
}

/// A sequence that agrees with the layout field by field is the encoding.
pub proof fn lemma_encoded_from_parts(h: HeaderFields, s: Seq<u8>)
    requires
        s.len() == 15,
        s[0] == packed(h.id, h.version),
        s.subrange(1, 3) == big_endian(h.flags as nat, 2),
        s.subrange(3, 7) == big_endian(h.payload_len as nat, 4),
        s.subrange(7, 15) == big_endian(h.sequence_number as nat, 8),
    ensures
        s == encoded(h),
{
    lemma_encoded_parts(h);
    let e = encoded(h);
    assert forall|i: int| 0 <= i < 15 implies s[i] == e[i] by {
        if 1 <= i < 3 {
            assert(s[i] == s.subrange(1, 3)[i - 1]);
            assert(e[i] == e.subrange(1, 3)[i - 1]);
        } else if 3 <= i < 7 {
            assert(s[i] == s.subrange(3, 7)[i - 3]);
            assert(e[i] == e.subrange(3, 7)[i - 3]);
        } else if 7 <= i {
            assert(s[i] == s.subrange(7, 15)[i - 7]);
            assert(e[i] == e.subrange(7, 15)[i - 7]);
        }
    }
    assert(s =~= e);
}

} // verus!
