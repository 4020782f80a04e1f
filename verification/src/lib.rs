//! Types and primitives to integrate an LSP with a Lightning node.

pub mod collections;
pub mod errors;
pub mod events;
pub mod jit_channel;
pub mod json;
pub mod lsps0;
pub mod lsps1;
pub mod lsps2;
pub mod manager;
pub mod message_queue;
pub mod text;
pub mod transport;
pub mod types;
pub mod utils;
pub mod versioned_msgs;
