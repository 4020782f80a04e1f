//! Types and primitives that implement LSPS0: the transport layer.

pub mod client;
pub mod envelope;
pub mod message_handler;
pub mod msgs;
pub mod protocol;
pub mod ser;
