//! What can go wrong.

use vstd::prelude::*;

verus! {

/// Why a network operation failed. Each `source` is the cause in words.
#[derive(Debug, PartialEq, Eq)]
pub enum NetworkError {
    /// No node with the requested key is known.
    NoSuchNode,
    /// The message could not be serialized.
    FailedToSerialize { source: String },
    /// The connection could not be opened.
    ExecutorError { source: String },
    /// The WebSocket failed.
    WError { source: String },
    /// The address could not be resolved.
    SocketDecodeError { input: String, source: String },
    /// The address resolved to no socket.
    NoSocketsError { input: String },
    /// The listener could not be bound.
    FailedToBindListener { source: String },
}

} // verus!
