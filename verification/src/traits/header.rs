//! The contract that every header codec backend is held to.

use crate::buffer::{bytes_advance, bytes_as_slice, bytes_len, remaining};
use crate::constants::HEADER_SIZE;
use crate::error::{invalid_data, invalid_data_error, ProtocolError, ProtocolResult};
use crate::header::layout::{decoded, encoded, lemma_decoded_prefix};
use crate::header::Header;
use bytes::Bytes;
use vstd::prelude::*;
use vstd::slice::slice_subrange;

verus! {

/// Message of the failure that [`HeaderDeserializer::read_header`] reports.
pub const HEADER_PARSE_FAILED: &'static str = "Failed to parse header";

/// Turns a header into its fifteen wire bytes.
///
/// The contract is the wire layout itself, so any two backends produce the
/// same bytes for the same header.
pub trait HeaderSerializer {
    /// The wire bytes of `header`. Never fails.
    fn serialize(header: &Header) -> (bytes: [u8; HEADER_SIZE])
        ensures
            bytes@ == encoded(header@),
    ;
}

/// Turns wire bytes back into a header.
///
/// The contract is the wire layout itself, so any two backends read the same
/// header from the same bytes.
pub trait HeaderDeserializer {
    /// The header at the front of `bytes`, or nothing when fewer than
    /// fifteen bytes are given. Bytes past the fifteenth are not read.
    fn parse(bytes: &[u8]) -> (r: Option<Header>)
        ensures
            bytes@.len() < HEADER_SIZE ==> r is None,
            bytes@.len() >= HEADER_SIZE ==> r is Some && r->0@ == decoded(bytes@),
    ;

    /// Takes a header off the front of a buffer. The read cursor moves past
    /// the fifteen bytes when a header is returned, and stays where it is
    /// when the buffer holds too few.
    fn parse_bytes(bytes: &mut Bytes) -> (r: Option<Header>)
        ensures
            remaining(*old(bytes)).len() < HEADER_SIZE ==> r is None && *final(bytes) == *old(
                bytes,
            ),
            remaining(*old(bytes)).len() >= HEADER_SIZE ==> r is Some && r->0@ == decoded(
                remaining(*old(bytes)),
            ) && remaining(*final(bytes)) == remaining(*old(bytes)).skip(HEADER_SIZE as int),
    {
        if bytes_len(bytes) < HEADER_SIZE {
            return None;
        }
        let slice = slice_subrange(bytes_as_slice(bytes), 0, HEADER_SIZE);
        proof {
            lemma_decoded_prefix(remaining(*bytes));
        }
        let header = Self::parse(slice)?;
        bytes_advance(bytes, HEADER_SIZE);
        Some(header)
    }

    /// Reads a header out of the bytes that a stream delivered for it. Too
    /// few bytes to hold a header are a data-invalid I/O failure, not an
    /// absent value.
    fn read_header(buf: &[u8]) -> (r: ProtocolResult<Header>)
        ensures
            buf@.len() >= HEADER_SIZE ==> r is Ok && r->Ok_0@ == decoded(buf@),
            buf@.len() < HEADER_SIZE ==> r == Err::<Header, ProtocolError>(
                ProtocolError::Io(invalid_data_error(HEADER_PARSE_FAILED@)),
            ),
    {
        match Self::parse(buf) {
            Some(header) => Ok(header),
            None => Err(ProtocolError::Io(invalid_data(HEADER_PARSE_FAILED))),
        }
    }
}

/// A pairing of a serializer with a deserializer.
pub trait HeaderParser {
    /// The backend that writes headers.
    type Serializer: HeaderSerializer;

    /// The backend that reads headers.
    type Deserializer: HeaderDeserializer;
}

} // verus!
