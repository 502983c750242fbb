//! The message protocol over a byte stream, without the stream.
//!
//! A message on the wire is the magic preamble, the fifteen header bytes
//! and, only when the header's flags hold `HAS_PAYLOAD` and its payload
//! length is not zero, that many bytes of encoded body.
//!
//! Reading is a state machine. Whoever owns the stream reads exactly
//! [`wanted`] bytes, hands them to [`advance`], and does what the returned
//! [`ReadStep`] says, until the message is complete or has failed. Writing is
//! one call, [`write_message`], that returns the bytes to send.

use crate::constants::{HEADER_SIZE, MAGIC, MAGIC_SIZE};
use crate::error::{invalid_data, invalid_data_error, ProtocolError, ProtocolResult};
use crate::frame::Frame;
use crate::header::layout::{decoded, encoded, fits, lemma_decoded_encoded, lemma_encoded_len};
use crate::header::{Header, HeaderFields};
use crate::message_flags::{MessageFlags, HAS_PAYLOAD};
use crate::traits::header::{HeaderDeserializer, HeaderParser, HEADER_PARSE_FAILED};
use crate::traits::MessageBody;
use bincode::error::{DecodeError, EncodeError};
use vstd::prelude::*;

verus! {

/// `bincode::error::EncodeError`, carried through as an opaque value.
#[verifier::external_type_specification]
#[verifier::external_body]
pub struct ExEncodeError(bincode::error::EncodeError);

/// Message of the failure that a wrong preamble is reported with.
pub const INVALID_MAGIC: &'static str = "Invalid protocol magic bytes";

/// What the reader of one message waits for.
#[derive(Debug, Clone, Copy, PartialEq, Eq, Structural)]
pub enum ReadState {
    /// Nothing was read yet: the magic preamble comes first.
    Magic,
    /// The preamble was accepted: the header comes next.
    Header,
    /// The header announced a payload: its bytes come next.
    Payload(Header),
}

/// What follows from the bytes that the reader was given.
#[derive(Debug)]
pub enum ReadStep {
    /// More is to be read, in the given state.
    Continue(ReadState),
    /// The message is complete. `payload` holds the encoded body, and is
    /// absent when the header announced none.
    Complete { header: Header, payload: Option<Vec<u8>> },
    /// The message cannot be read. Nothing more is to be read for it.
    Failed(ProtocolError),
}

/// `true` when a payload follows the header `h`: the flag is set and the
/// length is not zero.
pub open spec fn expects_payload(h: HeaderFields) -> bool {
    h.flags & HAS_PAYLOAD == HAS_PAYLOAD && h.payload_len > 0
}

/// The number of bytes that the reader waits for in `state`.
pub open spec fn bytes_wanted(state: ReadState) -> nat {
    match state {
        ReadState::Magic => 4,
        ReadState::Header => 15,
        ReadState::Payload(header) => header@.payload_len as nat,
    }
}

/// The read protocol: `step` is what follows when the reader, in `state`,
/// is given `data`.
pub open spec fn advanced(state: ReadState, data: Seq<u8>, step: ReadStep) -> bool {
    match state {
        ReadState::Magic => if data == MAGIC@ {
            step == ReadStep::Continue(ReadState::Header)
        } else {
            step == ReadStep::Failed(ProtocolError::Io(invalid_data_error(INVALID_MAGIC@)))
        },
        ReadState::Header => if data.len() < 15 {
            step == ReadStep::Failed(ProtocolError::Io(invalid_data_error(HEADER_PARSE_FAILED@)))
        } else if expects_payload(decoded(data)) {
            match step {
                ReadStep::Continue(ReadState::Payload(header)) => header@ == decoded(data),
                _ => false,
            }
        } else {
            match step {
                ReadStep::Complete { header, payload } => header@ == decoded(data)
                    && payload is None,
                _ => false,
            }
        },
        ReadState::Payload(announced) => match step {
            ReadStep::Complete { header, payload: Some(bytes) } => header == announced && bytes@
                == data,
            _ => false,
        },
    }
}

/// The bytes of one message on the wire: preamble, header, body.
pub open spec fn message_bytes(header: Seq<u8>, body: Seq<u8>) -> Seq<u8> {
    MAGIC@ + header + body
}

/// The number of bytes to read before the next call of [`advance`].
pub fn wanted(state: &ReadState) -> (n: usize)
    ensures
        n == bytes_wanted(*state),
{
    match state {
        ReadState::Magic => MAGIC_SIZE,
        ReadState::Header => HEADER_SIZE,
        ReadState::Payload(header) => header.payload_len() as usize,
    }
}

/// Accepts the magic preamble, or fails with an invalid-data I/O failure
/// when the bytes are anything else.
pub fn check_magic(magic: &[u8]) -> (r: ProtocolResult<()>)
    ensures
        magic@ == MAGIC@ ==> r is Ok,
        magic@ != MAGIC@ ==> r == Err::<(), ProtocolError>(
            ProtocolError::Io(invalid_data_error(INVALID_MAGIC@)),
        ),
{
    if magic.len() == MAGIC_SIZE && magic[0] == MAGIC[0] && magic[1] == MAGIC[1] && magic[2]
        == MAGIC[2] && magic[3] == MAGIC[3] {
        assert(magic@ =~= MAGIC@);
        Ok(())
    } else {
        Err(ProtocolError::Io(invalid_data(INVALID_MAGIC)))
    }
}

/// `true` exactly when a payload follows `header`.
pub fn has_payload(header: &Header) -> (r: bool)
    ensures
        r == expects_payload(header@),
{
    header.flags().contains(MessageFlags::has_payload()) && header.payload_len() > 0
}

/// One step of the read protocol, with the header codec of `P`.
///
/// `data` is what the stream delivered for `state`. Every input is
/// answered: bytes that are not what the state waits for end the read with
/// a failure.
pub fn advance<P: HeaderParser>(state: ReadState, data: Vec<u8>) -> (step: ReadStep)
    ensures
        advanced(state, data@, step),
{
    match state {
        ReadState::Magic => match check_magic(data.as_slice()) {
            Ok(()) => ReadStep::Continue(ReadState::Header),
            Err(e) => ReadStep::Failed(e),
        },
        ReadState::Header => match P::Deserializer::read_header(data.as_slice()) {
            Ok(header) => {
                if has_payload(&header) {
                    ReadStep::Continue(ReadState::Payload(header))
                } else {
                    ReadStep::Complete { header, payload: None }
                }
            },
            Err(e) => ReadStep::Failed(e),
        },
        ReadState::Payload(header) => ReadStep::Complete { header, payload: Some(data) },
    }
}

/// `bincode::decode_from_slice` with the standard configuration in
/// big-endian byte order; the count of bytes read is dropped. Nothing is
/// claimed of the outcome: it rests on the `Decode` impl of `T`.
#[verifier::external_body]
fn decode_from_slice<T: bincode::Decode<()>>(bytes: &[u8]) -> (r: Result<T, DecodeError>) {
    let config = bincode::config::standard().with_big_endian();
    bincode::decode_from_slice(bytes, config).map(|(data, _)| data)
}

/// `bincode::encode_to_vec` with the standard configuration in big-endian
/// byte order. Nothing is claimed of the outcome: it rests on the `Encode`
/// impl of `T`.
#[verifier::external_body]
fn encode_to_vec<T: bincode::Encode>(body: &T) -> (r: Result<Vec<u8>, EncodeError>) {
    let config = bincode::config::standard().with_big_endian();
    bincode::encode_to_vec(body, config)
}

/// `std::io::Error::other`: an I/O error that holds `cause` untouched.
/// Nothing is claimed of the outcome.
#[verifier::external_body]
fn encode_failure(cause: EncodeError) -> (e: std::io::Error) {
    std::io::Error::other(cause)
}

/// What a decoded payload means for the reader: the body, or a decode
/// failure that wraps the cause untouched.
pub fn body_from<T>(decoded: Result<T, DecodeError>) -> (r: ProtocolResult<T>)
    ensures
        r == match decoded {
            Ok(body) => Ok::<T, ProtocolError>(body),
            Err(cause) => Err::<T, ProtocolError>(ProtocolError::Decode(cause)),
        },
{
    match decoded {
        Ok(body) => Ok(body),
        Err(cause) => Err(ProtocolError::Decode(cause)),
    }
}

/// Decodes the payload of a message into the expected body type. A payload
/// that does not decode is a decode failure, never an I/O failure.
pub fn read_body<T: MessageBody + bincode::Decode<()>>(payload: &[u8]) -> (r: ProtocolResult<T>)
    ensures
        r is Err ==> r->Err_0 is Decode,
{
    body_from(decode_from_slice::<T>(payload))
}

/// The body of a completed read: decoded from the payload when the message
/// has one, absent when it has none. In the second case nothing is decoded
/// and nothing can fail.
pub fn finish<T: MessageBody + bincode::Decode<()>>(payload: Option<Vec<u8>>) -> (r:
    ProtocolResult<Option<T>>)
    ensures
        payload is None ==> r == Ok::<Option<T>, ProtocolError>(None),
        payload is Some ==> match r {
            Ok(body) => body is Some,
            Err(e) => e is Decode,
        },
{
    match payload {
        None => Ok(None),
        Some(bytes) => match read_body::<T>(bytes.as_slice()) {
            Ok(body) => Ok(Some(body)),
            Err(e) => Err(e),
        },
    }
}

/// The bytes of one message: the magic preamble, then the header, then the
/// encoded body, in that order and with nothing between them.
pub fn frame_message(header: &[u8; HEADER_SIZE], body: &[u8]) -> (wire: Vec<u8>)
    ensures
        wire@ == message_bytes(header@, body@),
{
    let mut wire: Vec<u8> = Vec::new();
    let mut i: usize = 0;
    while i < MAGIC_SIZE
        invariant
            i <= MAGIC_SIZE,
            wire@ == MAGIC@.subrange(0, i as int),
        decreases MAGIC_SIZE - i,
    {
        wire.push(MAGIC[i]);
        i += 1;
        assert(wire@ =~= MAGIC@.subrange(0, i as int));
    }
    assert(wire@ =~= MAGIC@);
    let mut j: usize = 0;
    while j < HEADER_SIZE
        invariant
            j <= HEADER_SIZE,
            wire@ == MAGIC@ + header@.subrange(0, j as int),
        decreases HEADER_SIZE - j,
    {
        wire.push(header[j]);
        j += 1;
        assert(wire@ =~= MAGIC@ + header@.subrange(0, j as int));
    }
    assert(wire@ =~= MAGIC@ + header@);
    let mut k: usize = 0;
    while k < body.len()
        invariant
            k <= body@.len(),
            wire@ == MAGIC@ + header@ + body@.subrange(0, k as int),
        decreases body@.len() - k,
    {
        wire.push(body[k]);
        k += 1;
        assert(wire@ =~= MAGIC@ + header@ + body@.subrange(0, k as int));
    }
    assert(wire@ =~= MAGIC@ + header@ + body@);
    wire
}

/// What an encoded body means for the writer: the bytes of the whole
/// message, or an I/O failure when the body did not encode.
pub fn message_from(header: &[u8; HEADER_SIZE], encoded: Result<Vec<u8>, EncodeError>) -> (r:
    ProtocolResult<Vec<u8>>)
    ensures
        match encoded {
            Ok(body) => r is Ok && r->Ok_0@ == message_bytes(header@, body@),
            Err(_) => r is Err && r->Err_0 is Io,
        },
{
    match encoded {
        Ok(body) => Ok(frame_message(header, body.as_slice())),
        Err(cause) => Err(ProtocolError::Io(encode_failure(cause))),
    }
}

/// The bytes to send for `message`: preamble, header bytes, encoded body. A
/// body that does not encode is an I/O failure, and then there is nothing
/// to send.
pub fn write_message<T: MessageBody + bincode::Encode>(message: &Frame<HEADER_SIZE, T>) -> (r:
    ProtocolResult<Vec<u8>>)
    ensures
        match r {
            Ok(wire) => wire@.len() >= MAGIC_SIZE + HEADER_SIZE && wire@.subrange(
                0,
                MAGIC_SIZE + HEADER_SIZE,
            ) == MAGIC@ + message@.0,
            Err(e) => e is Io,
        },
{
    let header = message.header();
    let r = message_from(&header, encode_to_vec(message.body()));
    proof {
        if r is Ok {
            assert(r->Ok_0@.subrange(0, MAGIC_SIZE + HEADER_SIZE) =~= MAGIC@ + message@.0);
        }
    }
    r
}

/// Reading back what was written, up to the header: the preamble of a
/// written message is accepted, and its header bytes give the header back.
/// The read then goes on to the payload exactly when the header announces
/// one, and is complete without reading further when it does not.
pub proof fn lemma_read_back_header(
    header: Header,
    body: Seq<u8>,
    first: ReadStep,
    second: ReadStep,
)
    requires
        fits(header@),
        advanced(ReadState::Magic, message_bytes(encoded(header@), body).subrange(0, 4), first),
        advanced(ReadState::Header, message_bytes(encoded(header@), body).subrange(4, 19), second),
    ensures
        first == ReadStep::Continue(ReadState::Header),
        expects_payload(header@) ==> second == ReadStep::Continue(ReadState::Payload(header)),
        !expects_payload(header@) ==> second == (ReadStep::Complete { header, payload: None }),
{
    let wire = message_bytes(encoded(header@), body);
    lemma_encoded_len(header@);
    lemma_decoded_encoded(header@);
    assert(wire.subrange(0, 4) =~= MAGIC@);
    assert(wire.subrange(4, 19) =~= encoded(header@));
    match second {
        ReadStep::Continue(ReadState::Payload(h)) => {
            Header::lemma_view_injective(h, header);
        },
        ReadStep::Complete { header: h, payload } => {
            Header::lemma_view_injective(h, header);
        },
        _ => {},
    }
}

/// Reading back what was written, after the header: when the header
/// announces a payload as long as the written body, the bytes that the
/// reader then waits for are that body.
pub proof fn lemma_read_back_payload(header: Header, body: Seq<u8>, third: ReadStep)
    requires
        expects_payload(header@),
        body.len() == header@.payload_len,
        advanced(
            ReadState::Payload(header),
            message_bytes(encoded(header@), body).subrange(
                19,
                19 + bytes_wanted(ReadState::Payload(header)) as int,
            ),
            third,
        ),
    ensures
        third matches ReadStep::Complete { header: h, payload: Some(bytes) } && h == header
            && bytes@ == body,
{
    let wire = message_bytes(encoded(header@), body);
    lemma_encoded_len(header@);
    assert(wire.subrange(19, 19 + body.len() as int) =~= body);
}

} // verus!
