//! Sizes and literals of the wire format.

use vstd::prelude::*;

verus! {

/// Width of an encoded header, in bytes.
pub const HEADER_SIZE: usize = 15;

/// Width of the magic preamble, in bytes.
pub const MAGIC_SIZE: usize = 4;

/// The preamble that opens every message: `N`, `E`, `X`, then a zero byte.
pub const MAGIC: [u8; 4] = [0x4E, 0x45, 0x58, 0x00];

} // verus!
