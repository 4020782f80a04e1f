//! Types and primitives that implement LSPS1: channel requests.

pub mod channel_manager;
pub mod client;
pub mod event;
pub mod msgs;
pub mod orders;
pub mod service;
pub mod utils;
