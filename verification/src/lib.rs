//! A transport core that brings the events of many QUIC connections to one
//! consumer.
//!
//! - [`protocol`] and [`codec`]: the wire messages and their encoding.
//! - [`json`]: the JSON values under the encoding.
//! - [`stream`]: what a connection decides about its streams.
//! - [`session`]: the lifecycle of one connection and the order of its events.
//! - [`bridge`]: the consumer's side of the channel that carries the events.
//! - [`endpoint`] and [`config`]: credentials, addresses and the policy of the
//!   connect and accept loops.
//! - [`error`]: the faults.
//!
//! Waiting on the network is left to the caller. The library decides; the
//! caller waits, reads and writes.
pub mod bridge;
pub mod codec;
pub mod config;
pub mod endpoint;
pub mod error;
pub mod json;
pub mod protocol;
pub mod session;
pub mod stream;
