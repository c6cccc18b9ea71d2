//! An in-memory key-value store served over a length-prefixed binary
//! request/response protocol.
//!
//! The crate holds the verified core: the wire codec for a single frame,
//! the capacity-bounded key-value store, the protocol dispatcher that maps
//! a decoded request to a store operation and builds the reply, and the
//! per-connection session step function. Listening sockets, threads and
//! the async runtime live outside, feeding bytes and events into this core.

pub mod client;
pub mod counter;
pub mod handler;
pub mod message;
pub mod monit;
pub mod pool;
pub mod session;
pub mod storage;
