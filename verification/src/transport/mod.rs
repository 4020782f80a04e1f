//! A transport layer that knows a single protocol.

pub mod event;
pub mod jsonrpc;
pub mod message_handler;
pub mod msgs;
pub mod protocol;
