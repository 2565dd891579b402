//! The error taxonomy of the multiplexer.

use vstd::prelude::*;

verus! {

/// Why the multiplexer, or a request to it, failed.
///
/// `Transport` and `Protocol` are fatal to the whole multiplexer: every
/// topic shares one connection, so every tracked stream ends at once.
/// `Usage` is returned to a single caller whose request can no longer be
/// queued because the actor has already terminated.
#[derive(Debug, PartialEq, Eq, Structural, Clone, Copy)]
pub enum PubsubError {
    /// The transport failed to send, flush, or receive.
    Transport,
    /// An inbound frame was malformed.
    Protocol,
    /// An event was submitted after the actor terminated.
    Usage,
}

} // verus!
