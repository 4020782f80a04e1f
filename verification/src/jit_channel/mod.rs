//! LSPS2: JIT channel negotiation in which each request names a protocol version.

pub mod channel_manager;
pub mod msgs;
pub mod scid_utils;
pub mod utils;
