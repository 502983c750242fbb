//! Capabilities that the protocol is generic over.

pub mod header;

use crate::frame::Frame;
use vstd::prelude::*;

verus! {

/// A type that can travel as the body of a message.
///
/// The trait itself asks for nothing. The functions that put a body on the
/// wire or take one off it ask, beside it, for bincode's `Encode` or
/// `Decode`.
pub trait MessageBody: Sized {
    /// Binds this body to the given header bytes.
    fn to_frame<const N: usize>(self, header: [u8; N]) -> (frame: Frame<N, Self>)
        ensures
            frame@ == (header@, self),
    {
        Frame::new(header, self)
    }
}

/// The empty body.
impl MessageBody for () {

}

} // verus!
