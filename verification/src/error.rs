//! The one failure type of the protocol.

use bincode::error::DecodeError;
use vstd::prelude::*;

verus! {

/// `std::io::Error`, carried through as an opaque value.
#[verifier::external_type_specification]
#[verifier::external_body]
pub struct ExIoError(std::io::Error);

/// `bincode::error::DecodeError`, carried through as an opaque value.
#[verifier::external_type_specification]
#[verifier::external_body]
pub struct ExDecodeError(bincode::error::DecodeError);

/// Why reading or writing a message failed.
///
/// There are two categories and no other: failures of the stream or of the
/// framing (short read, wrong magic, unusable header), and payload bytes that
/// do not decode to the expected body. Each wraps its cause untouched.
#[derive(Debug)]
pub enum ProtocolError {
    /// The stream failed, or what it delivered is not a message.
    Io(std::io::Error),
    /// The payload does not decode to the expected body type.
    Decode(DecodeError),
}

/// Result of a protocol operation.
pub type ProtocolResult<T, E = ProtocolError> = Result<T, E>;

/// The I/O error of kind `InvalidData` that carries `message`.
pub uninterp spec fn invalid_data_error(message: Seq<char>) -> std::io::Error;

/// `std::io::Error::new` with `ErrorKind::InvalidData`: the error is
/// determined by its message. Trusted, not proved.
#[verifier::external_body]
pub(crate) fn invalid_data(message: &str) -> (e: std::io::Error)
    ensures
        e == invalid_data_error(message@),
{
    std::io::Error::new(std::io::ErrorKind::InvalidData, message)
}

impl From<std::io::Error> for ProtocolError {
    /// An I/O failure, with `e` as its cause.
    fn from(e: std::io::Error) -> (r: Self) {
        ProtocolError::Io(e)
    }
}

impl vstd::std_specs::convert::FromSpecImpl<std::io::Error> for ProtocolError {
    open spec fn obeys_from_spec() -> bool {
        true
    }

    open spec fn from_spec(e: std::io::Error) -> Self {
        ProtocolError::Io(e)
    }
}

impl From<DecodeError> for ProtocolError {
    /// A decode failure, with `e` as its cause.
    fn from(e: DecodeError) -> (r: Self) {
        ProtocolError::Decode(e)
    }
}

impl vstd::std_specs::convert::FromSpecImpl<DecodeError> for ProtocolError {
    open spec fn obeys_from_spec() -> bool {
        true
    }

    open spec fn from_spec(e: DecodeError) -> Self {
        ProtocolError::Decode(e)
    }
}

} // verus!
