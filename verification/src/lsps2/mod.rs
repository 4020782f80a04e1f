//! Types and primitives that implement LSPS2: JIT channel negotiation.

pub mod client;
pub mod event;
pub mod forwarding;
pub mod msgs;
pub mod service;
