//! Publish/subscribe multiplexing layer of a Redis-protocol client.
//!
//! Many independent consumers subscribe to named topics while sharing one
//! physical connection. A single-owner actor serializes outbound
//! SUBSCRIBE/UNSUBSCRIBE commands, tracks acknowledgment state, demultiplexes
//! inbound traffic, applies depth-1 backpressure, and tears itself down when
//! its last subscription is acknowledged as removed or the transport fails.
//!
//! This crate holds the verified decision logic: the wire-value shapes
//! ([`value`]), the classification of inbound frames ([`inbound`]), the
//! subscription tables ([`table`]) and the actor's state transitions
//! ([`multiplexer`]), with the guarantees that hold of every run stated and
//! proved in [`laws`]. The asynchronous plumbing that drives it — channels,
//! an executor, a transport — lives outside and feeds this logic plain
//! values.

pub mod bytes;
pub mod error;
pub mod inbound;
pub mod laws;
pub mod multiplexer;
pub mod table;
pub mod value;
