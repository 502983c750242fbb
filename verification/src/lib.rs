//! Wire-format core of the nexsock request/response protocol.

pub mod buffer;
pub mod byte_order;
pub mod constants;
pub mod error;
pub mod frame;
pub mod header;
pub mod message_flags;
pub mod traits;
pub mod transport;
