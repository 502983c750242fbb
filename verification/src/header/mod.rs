//! The fixed-size message header.

pub mod laws;
pub mod layout;
pub mod optimized;
pub mod simd;
pub mod standard;
pub mod vector;

use crate::buffer::remaining;
use crate::constants::HEADER_SIZE;
use crate::error::{invalid_data_error, ProtocolError, ProtocolResult};
use crate::header::layout::{decoded, encoded, fits};
use crate::header::optimized::OptimizedHeaderParser;
use crate::header::standard::StandardHeaderParser;
use crate::message_flags::MessageFlags;
use crate::traits::header::{
    HeaderDeserializer, HeaderParser, HeaderSerializer, HEADER_PARSE_FAILED,
};
use bytes::Bytes;
use vstd::prelude::*;

verus! {

/// The five fields of a header, as plain values. This is the view of a
/// [`Header`], and what the wire layout is stated over.
pub struct HeaderFields {
    /// Message identifier. Only its low six bits reach the wire.
    pub id: u8,
    /// Protocol version. Only its low two bits reach the wire.
    pub version: u8,
    /// Raw mask of the message flags.
    pub flags: u16,
    /// Length in bytes of the body that follows the header.
    pub payload_len: u32,
    /// Sequence number, assigned and interpreted by the caller.
    pub sequence_number: u64,
}

/// The field that a strict construction refused.
#[derive(Debug, Clone, Copy, PartialEq, Eq, Structural)]
pub enum RangeError {
    /// `id` is above 63 and would lose bits on the wire.
    Id,
    /// `version` is above 3 and would lose bits on the wire.
    Version,
}

/// The codec pairing to use when nothing else is asked for: the reference
/// serializer with the block-wise deserializer. Every backend computes the
/// same function, so the choice shows in speed alone.
pub struct DefaultHeaderParser;

impl HeaderParser for DefaultHeaderParser {
    type Serializer = StandardHeaderParser;

    type Deserializer = OptimizedHeaderParser;
}

/// The metadata that precedes every message body.
///
/// A header is fully determined by its five fields. Construction neither
/// validates nor masks them: `id` and `version` are cut to six and two bits
/// only when the header is serialized.
#[derive(Debug, Clone, Copy, PartialEq, Eq, Structural, Hash)]
pub struct Header {
    id: u8,
    version: u8,
    flags: MessageFlags,
    payload_len: u32,
    sequence_number: u64,
}

impl View for Header {
    type V = HeaderFields;

    closed spec fn view(&self) -> HeaderFields {
        HeaderFields {
            id: self.id,
            version: self.version,
            flags: self.flags@,
            payload_len: self.payload_len,
            sequence_number: self.sequence_number,
        }
    }
}

impl Header {
    /// Mask of the six bits of `id` that reach the wire.
    pub const LAST_SIX_BITS: u8 = 0x3F;

    /// Mask of the two bits of `version` that reach the wire.
    pub const LAST_TWO_BITS: u8 = 0x03;

    /// A header with exactly the given fields.
    pub fn new(
        id: u8,
        version: u8,
        flags: MessageFlags,
        payload_len: u32,
        sequence_number: u64,
    ) -> (h: Self)
        ensures
            h@ == (HeaderFields { id, version, flags: flags@, payload_len, sequence_number }),
    {
        Self { id, version, flags, payload_len, sequence_number }
    }

    /// A header with the given fields, or the first field that does not fit
    /// the bits it has on the wire. This is the strict way to construct;
    /// [`Header::new`] takes everything and leaves the cutting to the wire.
    pub fn checked_new(
        id: u8,
        version: u8,
        flags: MessageFlags,
        payload_len: u32,
        sequence_number: u64,
    ) -> (r: Result<Self, RangeError>)
        ensures
            id > 63 ==> r == Err::<Self, RangeError>(RangeError::Id),
            id <= 63 && version > 3 ==> r == Err::<Self, RangeError>(RangeError::Version),
            id <= 63 && version <= 3 ==> r is Ok && fits(r->Ok_0@) && r->Ok_0@ == (HeaderFields {
                id,
                version,
                flags: flags@,
                payload_len,
                sequence_number,
            }),
    {
        if id > Self::LAST_SIX_BITS {
            Err(RangeError::Id)
        } else if version > Self::LAST_TWO_BITS {
            Err(RangeError::Version)
        } else {
            Ok(Self::new(id, version, flags, payload_len, sequence_number))
        }
    }

    /// The fifteen wire bytes of this header, by the backend `S`.
    pub fn to_bytes<S: HeaderSerializer>(&self) -> (bytes: [u8; HEADER_SIZE])
        ensures
            bytes@ == encoded(self@),
    {
        S::serialize(self)
    }

    /// The header at the front of `bytes`, by the backend `P`, or nothing
    /// when fewer than fifteen bytes are given.
    pub fn parse<P: HeaderDeserializer>(bytes: &[u8]) -> (r: Option<Self>)
        ensures
            bytes@.len() < HEADER_SIZE ==> r is None,
            bytes@.len() >= HEADER_SIZE ==> r is Some && r->0@ == decoded(bytes@),
    {
        P::parse(bytes)
    }

    /// Takes a header off the front of a buffer, by the backend `P`. The
    /// read cursor moves past the header only when one is returned.
    pub fn parse_bytes<P: HeaderDeserializer>(bytes: &mut Bytes) -> (r: Option<Self>)
        ensures
            remaining(*old(bytes)).len() < HEADER_SIZE ==> r is None && *final(bytes) == *old(
                bytes,
            ),
            remaining(*old(bytes)).len() >= HEADER_SIZE ==> r is Some && r->0@ == decoded(
                remaining(*old(bytes)),
            ) && remaining(*final(bytes)) == remaining(*old(bytes)).skip(HEADER_SIZE as int),
    {
        P::parse_bytes(bytes)
    }

    /// Reads a header out of the bytes that a stream delivered for it, by
    /// the backend `P`. Too few bytes are a data-invalid I/O failure.
    pub fn read_header<P: HeaderDeserializer>(buf: &[u8]) -> (r: ProtocolResult<Self>)
        ensures
            buf@.len() >= HEADER_SIZE ==> r is Ok && r->Ok_0@ == decoded(buf@),
            buf@.len() < HEADER_SIZE ==> r == Err::<Header, ProtocolError>(
                ProtocolError::Io(invalid_data_error(HEADER_PARSE_FAILED@)),
            ),
    {
        P::read_header(buf)
    }

    /// The identifier, as given at construction.
    pub fn id(&self) -> (r: u8)
        ensures
            r == self@.id,
    {
        self.id
    }

    /// The version, as given at construction.
    pub fn version(&self) -> (r: u8)
        ensures
            r == self@.version,
    {
        self.version
    }

    /// The flag set.
    pub fn flags(&self) -> (r: MessageFlags)
        ensures
            r@ == self@.flags,
    {
        self.flags
    }

    /// The announced length of the body.
    pub fn payload_len(&self) -> (r: u32)
        ensures
            r == self@.payload_len,
    {
        self.payload_len
    }

    /// The sequence number.
    pub fn sequence_number(&self) -> (r: u64)
        ensures
            r == self@.sequence_number,
    {
        self.sequence_number
    }

    /// Two headers with the same fields are the same header.
    pub proof fn lemma_view_injective(a: Header, b: Header)
        requires
            a@ == b@,
        ensures
            a == b,
    {
        MessageFlags::lemma_view_injective(a.flags, b.flags);
    }
}

} // verus!
