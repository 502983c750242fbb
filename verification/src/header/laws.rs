//! What holds of every codec backend, whichever it is.
//!
//! The laws speak of backends through their calls: `call_ensures(f, args, r)`
//! says that the call of `f` on `args` can return `r`. They hold of the
//! backends of this crate and of any other type that implements the codec
//! traits under verification.

use crate::constants::HEADER_SIZE;
use crate::header::layout::{fits, lemma_decoded_encoded, truncated};
use crate::header::Header;
use crate::traits::header::{HeaderDeserializer, HeaderSerializer};
use vstd::prelude::*;

verus! {

/// Any two backends serialize a header to the same bytes.
pub proof fn lemma_serializers_agree<A: HeaderSerializer, B: HeaderSerializer>(
    header: Header,
    a: [u8; HEADER_SIZE],
    b: [u8; HEADER_SIZE],
)
    requires
        call_ensures(A::serialize, (&header,), a),
        call_ensures(B::serialize, (&header,), b),
    ensures
        a == b,
{
    assert(a@ =~= b@);
    assert(a =~= b);
}

/// Any two backends parse the same bytes to the same result, whether the
/// bytes hold a header or are too few.
pub proof fn lemma_deserializers_agree<A: HeaderDeserializer, B: HeaderDeserializer>(
    bytes: &[u8],
    a: Option<Header>,
    b: Option<Header>,
)
    requires
        call_ensures(A::parse, (bytes,), a),
        call_ensures(B::parse, (bytes,), b),
    ensures
        a == b,
{
    if bytes@.len() >= HEADER_SIZE {
        Header::lemma_view_injective(a->0, b->0);
    }
}

/// Fewer than fifteen bytes parse to nothing, under every backend.
pub proof fn lemma_short_input_rejected<P: HeaderDeserializer>(bytes: &[u8], r: Option<Header>)
    requires
        bytes@.len() < HEADER_SIZE,
        call_ensures(P::parse, (bytes,), r),
    ensures
        r is None,
{
}

/// What any backend parses out of what any backend serialized is the header
/// with `id` cut to six bits and `version` to two.
pub proof fn lemma_parse_serialized<S: HeaderSerializer, P: HeaderDeserializer>(
    header: Header,
    wire: [u8; HEADER_SIZE],
    bytes: &[u8],
    r: Option<Header>,
)
    requires
        call_ensures(S::serialize, (&header,), wire),
        bytes@ == wire@,
        call_ensures(P::parse, (bytes,), r),
    ensures
        r is Some,
        r->0@ == truncated(header@),
{
    lemma_decoded_encoded(header@);
}

/// Round trip: a header whose `id` and `version` fit their bit widths comes
/// back unchanged from parsing its serialization, under every pair of
/// backends.
pub proof fn lemma_parse_serialized_fitting<S: HeaderSerializer, P: HeaderDeserializer>(
    header: Header,
    wire: [u8; HEADER_SIZE],
    bytes: &[u8],
    r: Option<Header>,
)
    requires
        fits(header@),
        call_ensures(S::serialize, (&header,), wire),
        bytes@ == wire@,
        call_ensures(P::parse, (bytes,), r),
    ensures
        r == Some(header),
{
    lemma_parse_serialized::<S, P>(header, wire, bytes, r);
    Header::lemma_view_injective(r->0, header);
}

} // verus!
