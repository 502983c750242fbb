//! Big-endian representation of unsigned integers.
//!
//! The model is positional notation in base 256: [`big_endian`] writes a
//! number with a given count of digits, most significant first, and
//! [`big_endian_value`] reads such digits back. The lemmas relate the two and
//! the conversions of the standard library are stated over them.

use vstd::prelude::*;

verus! {

/// `256` raised to the power `k`.
pub open spec fn pow256(k: nat) -> nat
    decreases k,
{
    if k == 0 {
        1
    } else {
        256 * pow256((k - 1) as nat)
    }
}

/// The number whose digits in base 256 are `s`, most significant first.
pub open spec fn big_endian_value(s: Seq<u8>) -> nat
    decreases s.len(),
{
    if s.len() == 0 {
        0
    } else {
        256 * big_endian_value(s.drop_last()) + s.last() as nat
    }
}

/// The `width` lowest digits of `x` in base 256, most significant first.
pub open spec fn big_endian(x: nat, width: nat) -> Seq<u8>
    decreases width,
{
    if width == 0 {
        Seq::empty()
    } else {
        big_endian(x / 256, (width - 1) as nat).push((x % 256) as u8)
    }
}

/// `big_endian` yields exactly `width` digits.
pub proof fn lemma_big_endian_len(x: nat, width: nat)
    ensures
        big_endian(x, width).len() == width,
    decreases width,
{
    if width > 0 {
        lemma_big_endian_len(x / 256, (width - 1) as nat);
    }
}

/// A number written with `s.len()` digits is below `256` to that power.
pub proof fn lemma_big_endian_value_bound(s: Seq<u8>)
    ensures
        big_endian_value(s) < pow256(s.len()),
    decreases s.len(),
{
    if s.len() > 0 {
        lemma_big_endian_value_bound(s.drop_last());
    }
}

/// Reading back what was written gives the number, when it fits the width.
pub proof fn lemma_value_of_big_endian(x: nat, width: nat)
    requires
        x < pow256(width),
    ensures
        big_endian_value(big_endian(x, width)) == x,
    decreases width,
{
    if width > 0 {
        let rest = big_endian(x / 256, (width - 1) as nat);
        lemma_value_of_big_endian(x / 256, (width - 1) as nat);
        assert(big_endian(x, width).drop_last() =~= rest);
    }
}

/// Writing what was read gives the digits back.
pub proof fn lemma_big_endian_of_value(s: Seq<u8>)
    ensures
        big_endian(big_endian_value(s), s.len()) == s,
    decreases s.len(),
{
    if s.len() > 0 {
        lemma_big_endian_of_value(s.drop_last());
        assert(big_endian(big_endian_value(s), s.len()) =~= s);
    } else {
        assert(big_endian(big_endian_value(s), s.len()) =~= s);
    }
}

/// The value of two digits.
pub proof fn lemma_value_2(s: Seq<u8>)
    requires
        s.len() == 2,
    ensures
        big_endian_value(s) == 256 * s[0] + s[1],
{
    reveal_with_fuel(big_endian_value, 3);
    assert(s.drop_last().drop_last().len() == 0);
}

/// The value of four digits.
pub proof fn lemma_value_4(s: Seq<u8>)
    requires
        s.len() == 4,
    ensures
        big_endian_value(s) == 256 * (256 * (256 * s[0] + s[1]) + s[2]) + s[3],
{
    let a = s.drop_last();
    let b = a.drop_last();
    lemma_value_2(b);
    assert(big_endian_value(a) == 256 * big_endian_value(b) + a.last());
    assert(big_endian_value(s) == 256 * big_endian_value(a) + s.last());
}

/// The value of eight digits.
pub proof fn lemma_value_8(s: Seq<u8>)
    requires
        s.len() == 8,
    ensures
        big_endian_value(s) == 256 * (256 * (256 * (256 * (256 * (256 * (256 * s[0] + s[1]) + s[2])
            + s[3]) + s[4]) + s[5]) + s[6]) + s[7],
{
    let a = s.drop_last();
    let b = a.drop_last();
    let c = b.drop_last();
    let d = c.drop_last();
    lemma_value_4(d);
    assert(big_endian_value(c) == 256 * big_endian_value(d) + c.last());
    assert(big_endian_value(b) == 256 * big_endian_value(c) + b.last());
    assert(big_endian_value(a) == 256 * big_endian_value(b) + a.last());
    assert(big_endian_value(s) == 256 * big_endian_value(a) + s.last());
}

/// The two digits of a 16-bit number.
pub proof fn lemma_big_endian_2(x: u16)
    ensures
        big_endian(x as nat, 2) == seq![(x / 0x100) as u8, (x % 0x100) as u8],
{
    reveal_with_fuel(big_endian, 3);
    assert(big_endian(x as nat, 2) =~= seq![(x / 0x100) as u8, (x % 0x100) as u8]);
}

/// The four digits of a 32-bit number.
pub proof fn lemma_big_endian_4(x: u32)
    ensures
        big_endian(x as nat, 4) == seq![
            (x / 0x100_0000) as u8,
            (x / 0x1_0000 % 0x100) as u8,
            (x / 0x100 % 0x100) as u8,
            (x % 0x100) as u8,
        ],
{
    reveal_with_fuel(big_endian, 5);
    assert(big_endian(x as nat, 4) =~= seq![
        (x / 0x100_0000) as u8,
        (x / 0x1_0000 % 0x100) as u8,
        (x / 0x100 % 0x100) as u8,
        (x % 0x100) as u8,
    ]);
}

/// The eight digits of a 64-bit number.
pub proof fn lemma_big_endian_8(x: u64)
    ensures
        big_endian(x as nat, 8) == seq![
            (x / 0x100_0000_0000_0000) as u8,
            (x / 0x1_0000_0000_0000 % 0x100) as u8,
            (x / 0x100_0000_0000 % 0x100) as u8,
            (x / 0x1_0000_0000 % 0x100) as u8,
            (x / 0x100_0000 % 0x100) as u8,
            (x / 0x1_0000 % 0x100) as u8,
            (x / 0x100 % 0x100) as u8,
            (x % 0x100) as u8,
        ],
{
    reveal_with_fuel(big_endian, 9);
    assert(big_endian(x as nat, 8) =~= seq![
        (x / 0x100_0000_0000_0000) as u8,
        (x / 0x1_0000_0000_0000 % 0x100) as u8,
        (x / 0x100_0000_0000 % 0x100) as u8,
        (x / 0x1_0000_0000 % 0x100) as u8,
        (x / 0x100_0000 % 0x100) as u8,
        (x / 0x1_0000 % 0x100) as u8,
        (x / 0x100 % 0x100) as u8,
        (x % 0x100) as u8,
    ]);
}

/// Shifts and masks take a 16-bit number apart into its base-256 digits.
pub proof fn lemma_digits_by_shift_2(x: u16)
    by (bit_vector)
    ensures
        (x >> 8) & 0xFF == x / 0x100,
        x & 0xFF == x % 0x100,
{
}

/// Shifts and masks take a 32-bit number apart into its base-256 digits.
pub proof fn lemma_digits_by_shift_4(x: u32)
    by (bit_vector)
    ensures
        (x >> 24) & 0xFF == x / 0x100_0000,
        (x >> 16) & 0xFF == x / 0x1_0000 % 0x100,
        (x >> 8) & 0xFF == x / 0x100 % 0x100,
        x & 0xFF == x % 0x100,
{
}

/// Shifts and masks take a 64-bit number apart into its base-256 digits.
pub proof fn lemma_digits_by_shift_8(x: u64)
    by (bit_vector)
    ensures
        (x >> 56) & 0xFF == x / 0x100_0000_0000_0000,
        (x >> 48) & 0xFF == x / 0x1_0000_0000_0000 % 0x100,
        (x >> 40) & 0xFF == x / 0x100_0000_0000 % 0x100,
        (x >> 32) & 0xFF == x / 0x1_0000_0000 % 0x100,
        (x >> 24) & 0xFF == x / 0x100_0000 % 0x100,
        (x >> 16) & 0xFF == x / 0x1_0000 % 0x100,
        (x >> 8) & 0xFF == x / 0x100 % 0x100,
        x & 0xFF == x % 0x100,
{
}

/// Shifts and ors put two digits together.
pub proof fn lemma_value_by_shift_2(b0: u8, b1: u8)
    by (bit_vector)
    ensures
        ((b0 as u16) << 8) | (b1 as u16) == 256 * b0 + b1,
{
}

/// Shifts and ors put four digits together.
pub proof fn lemma_value_by_shift_4(b0: u8, b1: u8, b2: u8, b3: u8)
    by (bit_vector)
    ensures
        ((b0 as u32) << 24) | ((b1 as u32) << 16) | ((b2 as u32) << 8) | (b3 as u32) == 256 * (256
            * (256 * b0 + b1) + b2) + b3,
{
}

/// Shifts and ors put eight digits together.
pub proof fn lemma_value_by_shift_8(
    b0: u8,
    b1: u8,
    b2: u8,
    b3: u8,
    b4: u8,
    b5: u8,
    b6: u8,
    b7: u8,
)
    by (bit_vector)
    ensures
        ((b0 as u64) << 56) | ((b1 as u64) << 48) | ((b2 as u64) << 40) | ((b3 as u64) << 32) | ((
        b4 as u64) << 24) | ((b5 as u64) << 16) | ((b6 as u64) << 8) | (b7 as u64) == 256 * (256
            * (256 * (256 * (256 * (256 * (256 * b0 + b1) + b2) + b3) + b4) + b5) + b6) + b7,
{
}

/// `u16::from_be_bytes` of the standard library: the integer whose
/// representation in big-endian byte order is `bytes`. Trusted, not proved.
#[verifier::external_body]
pub(crate) fn u16_from_be_bytes(bytes: [u8; 2]) -> (x: u16)
    ensures
        x == big_endian_value(bytes@),
{
    u16::from_be_bytes(bytes)
}

/// `u16::to_be_bytes` of the standard library: the representation of `x`
/// in big-endian byte order. Trusted, not proved.
#[verifier::external_body]
pub(crate) fn u16_to_be_bytes(x: u16) -> (bytes: [u8; 2])
    ensures
        bytes@ == big_endian(x as nat, 2),
{
    x.to_be_bytes()
}

/// `u32::from_be_bytes` of the standard library: the integer whose
/// representation in big-endian byte order is `bytes`. Trusted, not proved.
#[verifier::external_body]
pub(crate) fn u32_from_be_bytes(bytes: [u8; 4]) -> (x: u32)
    ensures
        x == big_endian_value(bytes@),
{
    u32::from_be_bytes(bytes)
}

/// `u32::to_be_bytes` of the standard library: the representation of `x`
/// in big-endian byte order. Trusted, not proved.
#[verifier::external_body]
pub(crate) fn u32_to_be_bytes(x: u32) -> (bytes: [u8; 4])
    ensures
        bytes@ == big_endian(x as nat, 4),
{
    x.to_be_bytes()
}

/// `u64::from_be_bytes` of the standard library: the integer whose
/// representation in big-endian byte order is `bytes`. Trusted, not proved.
#[verifier::external_body]
pub(crate) fn u64_from_be_bytes(bytes: [u8; 8]) -> (x: u64)
    ensures
        x == big_endian_value(bytes@),
{
    u64::from_be_bytes(bytes)
}

/// `u64::to_be_bytes` of the standard library: the representation of `x`
/// in big-endian byte order. Trusted, not proved.
#[verifier::external_body]
pub(crate) fn u64_to_be_bytes(x: u64) -> (bytes: [u8; 8])
    ensures
        bytes@ == big_endian(x as nat, 8),
{
    x.to_be_bytes()
}

} // verus!
