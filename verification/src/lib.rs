//! An RPC transport core: packet envelopes with content-derived correlation
//! hashes, a binary wire format, and the bookkeeping that matches
//! asynchronous replies to the requests that are waiting for them.
//!
//! The crate holds the decision logic of an RPC endpoint: building and
//! hashing packets, encoding and decoding wire frames, registering pending
//! requests, and routing inbound frames to either a waiting caller or the
//! inbound-request callback. Sockets, threads and clocks live outside; they
//! hand this library plain bytes, addresses and timestamps.

pub mod addr;
pub mod async_response_matcher;
pub mod client;
pub mod digest;
pub mod interceptor;
pub mod network;
pub mod plugins;
pub mod proto;
pub mod server;
pub mod server_callback;
pub mod utils;
pub mod wire;
