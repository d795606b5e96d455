//! Verified core of a network throughput-measurement tool.
//!
//! A client and a server negotiate a one-shot "experiment" (a TCP or UDP
//! transfer in a chosen direction, with a chosen duration and parallelism)
//! over a small binary control protocol, then execute it and report a
//! bandwidth measurement.
//!
//! This crate holds the verified logic: the fixed 25-byte wire encoding of
//! an experiment descriptor, the descriptor rules (role inversion, the
//! host trust boundary), the typed session lifecycles, the statistics
//! arithmetic, and the client/server handshake state machines. The socket,
//! thread and clock work that surrounds this logic lives outside the
//! library and drives these state machines.

pub mod client;
pub mod codec;
pub mod error;
pub mod handshake;
pub mod netexp;
pub mod server;
pub mod stats;
