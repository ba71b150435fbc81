//! The commands that nodes exchange.

use vstd::prelude::*;
use crate::key::PubKey;

verus! {

/// What one node sends to another.
#[derive(Clone, Debug, PartialEq)]
pub enum Command<T> {
    /// A message that was broadcast to all nodes
    Broadcast { inner: T, from: PubKey },
    /// A message that was sent directly to this node
    Direct { inner: T, from: PubKey, to: PubKey },
    /// A message identifying the sending node
    Identify { from: PubKey },
    /// A request for a sign of life
    Ping,
    /// The answer to a `Ping`
    Pong,
}

/// A command with each key in place of the value that holds it.
pub enum CommandView<T> {
    Broadcast { inner: T, from: Seq<u8> },
    Direct { inner: T, from: Seq<u8>, to: Seq<u8> },
    Identify { from: Seq<u8> },
    Ping,
    Pong,
}

impl<T> View for Command<T> {
    type V = CommandView<T>;

    open spec fn view(&self) -> CommandView<T> {
        match *self {
            Command::Broadcast { inner, from } => CommandView::Broadcast { inner, from: from@ },
            Command::Direct { inner, from, to } => CommandView::Direct {
                inner,
                from: from@,
                to: to@,
            },
            Command::Identify { from } => CommandView::Identify { from: from@ },
            Command::Ping => CommandView::Ping,
            Command::Pong => CommandView::Pong,
        }
    }
}

impl<T> CommandView<T> {
    /// Whether the command carries a message.
    pub open spec fn carries_message(self) -> bool {
        self is Broadcast || self is Direct
    }

    /// The message that the command carries.
    pub open spec fn message(self) -> T
        recommends
            self.carries_message(),
    {
        match self {
            CommandView::Broadcast { inner, .. } => inner,
            CommandView::Direct { inner, .. } => inner,
            _ => arbitrary(),
        }
    }

    /// The same command with `inner` as its message.
    pub open spec fn with_message<U>(self, inner: U) -> CommandView<U> {
        match self {
            CommandView::Broadcast { from, .. } => CommandView::Broadcast { inner, from },
            CommandView::Direct { from, to, .. } => CommandView::Direct { inner, from, to },
            CommandView::Identify { from } => CommandView::Identify { from },
            CommandView::Ping => CommandView::Ping,
            CommandView::Pong => CommandView::Pong,
        }
    }
}

} // verus!
