//! Failures that end a task.

use vstd::prelude::*;
use crate::wire::DecodeError;

verus! {

/// Why a task cannot go on. The task is to panic with the fault's message.
#[derive(Clone, Copy, Debug, PartialEq, Eq, Structural)]
pub enum Fault {
    /// The stream of a connection ended without a close message.
    StreamEnded,
    /// The stream of a connection failed.
    StreamError,
    /// A peer sent a frame that is no command.
    Undecodable(DecodeError),
    /// A ping arrived over a connection that is not on record.
    UnknownSocket,
    /// The answer to a ping could not be sent.
    PongNotSent,
    /// A ping is due on a connection that is not on record.
    NoPingSocket,
    /// A ping could not be sent.
    PingNotSent,
    /// A connection that was just opened is not on record under the address that was asked for.
    ConnectionMissing,
    /// The listener could not accept a connection.
    IncomingFailed,
    /// The handshake on an accepted connection failed.
    HandshakeFailed,
}

impl Fault {
    /// The message of the fault.
    pub open spec fn spec_message(self) -> Seq<char> {
        match self {
            Fault::StreamEnded => "Stream Ended"@,
            Fault::StreamError => "Stream Error"@,
            Fault::Undecodable(_) => "Failed to deserialize incoming message"@,
            Fault::UnknownSocket => "Received on a socket we have no record of."@,
            Fault::PongNotSent => "Failed to send pong"@,
            Fault::NoPingSocket => "called `Option::unwrap()` on a `None` value"@,
            Fault::PingNotSent => "failed to send ping"@,
            Fault::ConnectionMissing => "Newly opened connection missing"@,
            Fault::IncomingFailed => "Failed to bind incoming connection."@,
            Fault::HandshakeFailed => "Error during handshake"@,
        }
    }

    /// The message to panic with.
    pub fn message(self) -> (message: &'static str)
        ensures
            message@ == self.spec_message(),
    {
        match self {
            Fault::StreamEnded => "Stream Ended",
            Fault::StreamError => "Stream Error",
            Fault::Undecodable(_) => "Failed to deserialize incoming message",
            Fault::UnknownSocket => "Received on a socket we have no record of.",
            Fault::PongNotSent => "Failed to send pong",
            Fault::NoPingSocket => "called `Option::unwrap()` on a `None` value",
            Fault::PingNotSent => "failed to send ping",
            Fault::ConnectionMissing => "Newly opened connection missing",
            Fault::IncomingFailed => "Failed to bind incoming connection.",
            Fault::HandshakeFailed => "Error during handshake",
        }
    }
}

} // verus!
