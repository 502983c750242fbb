//! A header in wire form, bound to a typed body.

use vstd::prelude::*;

verus! {

/// The in-memory unit of a message: `N` header bytes and a body.
///
/// A frame owns both and adds nothing of its own. Its view is the pair of
/// the header bytes and the body. Equality, order and hash go field by
/// field, the header first.
#[derive(Debug, PartialEq, Eq, PartialOrd, Ord, Hash)]
pub struct Frame<const N: usize, T> {
    header: [u8; N],
    body: T,
}

impl<const N: usize, T> View for Frame<N, T> {
    type V = (Seq<u8>, T);

    closed spec fn view(&self) -> (Seq<u8>, T) {
        (self.header@, self.body)
    }
}

impl<const N: usize, T> Frame<N, T> {
    /// The frame of the given header bytes and body.
    pub fn new(header: [u8; N], body: T) -> (frame: Self)
        ensures
            frame@ == (header@, body),
    {
        Self { header, body }
    }

    /// A copy of the header bytes.
    pub fn header(&self) -> (header: [u8; N])
        ensures
            header@ == self@.0,
    {
        self.header
    }

    /// The body.
    pub fn body(&self) -> (body: &T)
        ensures
            *body == self@.1,
    {
        &self.body
    }

    /// Takes the frame apart into its header bytes and its body.
    pub fn into_parts(self) -> (parts: ([u8; N], T))
        ensures
            parts.0@ == self@.0,
            parts.1 == self@.1,
    {
        (self.header, self.body)
    }
}

} // verus!
