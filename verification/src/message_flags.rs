//! The 16-bit flag set carried by every header.

use vstd::prelude::*;
use vstd::std_specs::ops::BitOrSpec;

verus! {

/// The empty mask.
pub const NONE: u16 = 0x0000;

/// Bit 0: the payload is compressed.
pub const COMPRESSED: u16 = 0x0001;

/// Bit 1: the payload is encrypted.
pub const ENCRYPTED: u16 = 0x0002;

/// Bit 2: the receiver must acknowledge the message.
pub const REQUIRES_ACK: u16 = 0x0004;

/// Bit 3: a payload follows the header.
pub const HAS_PAYLOAD: u16 = 0x0008;

/// A set of message flags, one per bit of a 16-bit mask.
///
/// Every 16-bit value is a valid set, whether its bits have a name or not.
/// The view of a set is its raw mask.
#[derive(Debug, Clone, Copy, PartialEq, Eq, Structural, Hash)]
pub struct MessageFlags(u16);

impl View for MessageFlags {
    type V = u16;

    closed spec fn view(&self) -> u16 {
        self.0
    }
}

impl MessageFlags {
    /// The set whose raw mask is `mask`.
    pub closed spec fn with_mask(mask: u16) -> MessageFlags {
        MessageFlags(mask)
    }

    /// The set with the given raw mask. Total: no mask is refused.
    pub fn from_bits(bits: u16) -> (r: Self)
        ensures
            r@ == bits,
            r == Self::with_mask(bits),
    {
        MessageFlags(bits)
    }

    /// The set with no flag.
    pub fn none() -> (r: Self)
        ensures
            r@ == NONE,
    {
        MessageFlags(NONE)
    }

    /// The set that holds only the compression flag.
    pub fn compressed() -> (r: Self)
        ensures
            r@ == COMPRESSED,
    {
        MessageFlags(COMPRESSED)
    }

    /// The set that holds only the encryption flag.
    pub fn encrypted() -> (r: Self)
        ensures
            r@ == ENCRYPTED,
    {
        MessageFlags(ENCRYPTED)
    }

    /// The set that holds only the acknowledgement flag.
    pub fn requires_ack() -> (r: Self)
        ensures
            r@ == REQUIRES_ACK,
    {
        MessageFlags(REQUIRES_ACK)
    }

    /// The set that holds only the payload flag.
    pub fn has_payload() -> (r: Self)
        ensures
            r@ == HAS_PAYLOAD,
    {
        MessageFlags(HAS_PAYLOAD)
    }

    /// `true` exactly when every bit of `other` is also set in `self`.
    pub fn contains(self, other: MessageFlags) -> (r: bool)
        ensures
            r == (self@ & other@ == other@),
    {
        (self.0 & other.0) == other.0
    }

    /// `true` exactly when no bit is set.
    pub fn is_empty(self) -> (r: bool)
        ensures
            r == (self@ == 0),
    {
        self.0 == 0
    }

    /// Two sets with the same mask are the same set.
    pub proof fn lemma_view_injective(a: MessageFlags, b: MessageFlags)
        requires
            a@ == b@,
        ensures
            a == b,
    {
    }
}

impl std::ops::BitOr for MessageFlags {
    type Output = Self;

    /// The union of two sets.
    fn bitor(self, rhs: Self) -> (r: Self)
        ensures
            r@ == self@ | rhs@,
    {
        MessageFlags(self.0 | rhs.0)
    }
}

impl vstd::std_specs::ops::BitOrSpecImpl for MessageFlags {
    open spec fn obeys_bitor_spec() -> bool {
        true
    }

    open spec fn bitor_req(self, rhs: Self) -> bool {
        true
    }

    open spec fn bitor_spec(self, rhs: Self) -> Self {
        MessageFlags::with_mask(self@ | rhs@)
    }
}

impl std::ops::BitAnd for MessageFlags {
    type Output = Self;

    /// The intersection of two sets.
    fn bitand(self, rhs: Self) -> (r: Self)
        ensures
            r@ == self@ & rhs@,
    {
        MessageFlags(self.0 & rhs.0)
    }
}

impl vstd::std_specs::ops::BitAndSpecImpl for MessageFlags {
    open spec fn obeys_bitand_spec() -> bool {
        true
    }

    open spec fn bitand_req(self, rhs: Self) -> bool {
        true
    }

    open spec fn bitand_spec(self, rhs: Self) -> Self {
        MessageFlags::with_mask(self@ & rhs@)
    }
}

impl AsRef<u16> for MessageFlags {
    /// The raw mask.
    fn as_ref(&self) -> (r: &u16)
        ensures
            *r == self@,
    {
        &self.0
    }
}

impl std::ops::Deref for MessageFlags {
    type Target = u16;

    /// The raw mask.
    fn deref(&self) -> (r: &u16)
        ensures
            *r == self@,
    {
        &self.0
    }
}

impl From<u16> for MessageFlags {
    /// The set with the given raw mask.
    fn from(flags: u16) -> (r: Self)
        ensures
            r@ == flags,
    {
        MessageFlags::from_bits(flags)
    }
}

impl vstd::std_specs::convert::FromSpecImpl<u16> for MessageFlags {
    open spec fn obeys_from_spec() -> bool {
        true
    }

    open spec fn from_spec(flags: u16) -> Self {
        MessageFlags::with_mask(flags)
    }
}

impl Default for MessageFlags {
    /// The set with no flag.
    fn default() -> (r: Self)
        ensures
            r@ == NONE,
    {
        MessageFlags(NONE)
    }
}

/// What `with_mask` builds has that mask.
pub proof fn lemma_with_mask(mask: u16)
    ensures
        MessageFlags::with_mask(mask)@ == mask,
{
}

/// Union is idempotent, commutative and associative.
pub proof fn lemma_union_laws(a: MessageFlags, b: MessageFlags, c: MessageFlags)
    ensures
        a.bitor_spec(a) == a,
        a.bitor_spec(b) == b.bitor_spec(a),
        a.bitor_spec(b).bitor_spec(c) == a.bitor_spec(b.bitor_spec(c)),
{
    let (x, y, z) = (a@, b@, c@);
    assert(x | x == x) by (bit_vector);
    assert(x | y == y | x) by (bit_vector);
    assert((x | y) | z == x | (y | z)) by (bit_vector);
}

/// A union contains each of its parts, what is contained in a part is
/// contained in the union, and every set contains the empty set.
pub proof fn lemma_union_contains(a: MessageFlags, b: MessageFlags, c: MessageFlags)
    ensures
        a.bitor_spec(b)@ & a@ == a@,
        a.bitor_spec(b)@ & b@ == b@,
        a@ & c@ == c@ ==> a.bitor_spec(b)@ & c@ == c@,
        a@ & NONE == NONE,
{
    let (x, y, z) = (a@, b@, c@);
    assert((x | y) & x == x) by (bit_vector);
    assert((x | y) & y == y) by (bit_vector);
    assert(x & z == z ==> (x | y) & z == z) by (bit_vector);
    assert(x & 0 == 0) by (bit_vector);
}

} // verus!
