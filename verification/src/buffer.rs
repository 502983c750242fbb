//! `bytes::Bytes` as the library sees it: a cursor over a sequence of bytes.

use bytes::Bytes;
use vstd::prelude::*;

verus! {

/// `bytes::Bytes`, a cheaply cloneable view into shared memory.
#[verifier::external_type_specification]
#[verifier::external_body]
pub struct ExBytes(bytes::Bytes);

/// The bytes that `b` still holds, from its read cursor to its end.
pub uninterp spec fn remaining(b: Bytes) -> Seq<u8>;

/// `Bytes::len`: the number of bytes that the buffer holds. Trusted, not
/// proved.
#[verifier::external_body]
pub(crate) fn bytes_len(b: &Bytes) -> (n: usize)
    ensures
        n == remaining(*b).len(),
{
    b.len()
}

/// `Deref::deref` of `Bytes`: the held bytes as one slice. Trusted, not
/// proved.
#[verifier::external_body]
pub(crate) fn bytes_as_slice(b: &Bytes) -> (s: &[u8])
    ensures
        s@ == remaining(*b),
{
    std::ops::Deref::deref(b)
}

/// `Buf::advance` of `Bytes`: drops the first `cnt` bytes. It panics when
/// fewer are held, which `requires` rules out. Trusted, not proved.
#[verifier::external_body]
pub(crate) fn bytes_advance(b: &mut Bytes, cnt: usize)
    requires
        cnt <= remaining(*old(b)).len(),
    ensures
        remaining(*final(b)) == remaining(*old(b)).skip(cnt as int),
{
    bytes::Buf::advance(b, cnt)
}

} // verus!
