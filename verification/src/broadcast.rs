//! Sending a message to every known node.

use vstd::prelude::*;
use crate::command::{Command, CommandView};
use crate::error::NetworkError;
use crate::key::PubKey;
use crate::network::WNetwork;
use crate::nodes::key_views;
use crate::wire::Encoded;

verus! {

/// A broadcast on its way: the command, and the nodes that it has yet to be sent to.
#[derive(Debug)]
pub struct Broadcast {
    command: Command<Encoded>,
    pending: Vec<PubKey>,
}

/// The state of a broadcast.
#[verifier::ext_equal]
pub struct BroadcastView {
    pub command: CommandView<Encoded>,
    /// The nodes that the command has yet to be sent to; the last one is next.
    pub pending: Seq<Seq<u8>>,
}

impl View for Broadcast {
    type V = BroadcastView;

    closed spec fn view(&self) -> BroadcastView {
        BroadcastView { command: self.command@, pending: key_views(self.pending@) }
    }
}

/// What a broadcast is to do next.
#[derive(Debug, PartialEq, Eq)]
pub enum BroadcastStep {
    /// Send the command to this node and go on from the outcome.
    Send(PubKey),
    /// The broadcast is over.
    Done(Result<(), NetworkError>),
}

/// A broadcast's step with the key in place of the value that holds it.
pub enum BroadcastStepView {
    Send(Seq<u8>),
    Done(Result<(), NetworkError>),
}

impl View for BroadcastStep {
    type V = BroadcastStepView;

    open spec fn view(&self) -> BroadcastStepView {
        match *self {
            BroadcastStep::Send(key) => BroadcastStepView::Send(key@),
            BroadcastStep::Done(result) => BroadcastStepView::Done(result),
        }
    }
}

impl BroadcastView {
    /// What is done once the latest send came to `outcome`: the first failure ends the broadcast.
    pub open spec fn step(self, outcome: Result<(), NetworkError>) -> BroadcastStepView {
        if outcome is Err || self.pending.len() == 0 {
            BroadcastStepView::Done(outcome)
        } else {
            BroadcastStepView::Send(self.pending.last())
        }
    }

    /// The state after that step.
    pub open spec fn after(self, outcome: Result<(), NetworkError>) -> BroadcastView {
        if outcome is Err || self.pending.len() == 0 {
            self
        } else {
            BroadcastView { pending: self.pending.drop_last(), ..self }
        }
    }
}

impl Broadcast {
    /// The command that is sent to each node.
    pub fn command(&self) -> (command: &Command<Encoded>)
        ensures
            command@ == self@.command,
    {
        &self.command
    }

    /// Goes on once the latest send came to `outcome`; a broadcast begins with `Ok`.
    pub fn step(&mut self, outcome: Result<(), NetworkError>) -> (step: BroadcastStep)
        ensures
            step@ == old(self)@.step(outcome),
            final(self)@ == old(self)@.after(outcome),
            final(self)@.command == old(self)@.command,
            match step {
                BroadcastStep::Send(key) => outcome is Ok && final(self)@.pending.push(key@)
                    == old(self)@.pending,
                BroadcastStep::Done(result) => result == outcome && (outcome is Err || old(
                    self,
                )@.pending.len() == 0) && final(self)@.pending == old(self)@.pending,
            },
    {
        let ghost before = self.pending@;
        if outcome.is_err() {
            return BroadcastStep::Done(outcome);
        }
        match self.pending.pop() {
            Some(key) => {
                assert(key_views(self.pending@) =~= key_views(before).drop_last());
                assert(key_views(self.pending@).push(key@) =~= key_views(before));
                BroadcastStep::Send(key)
            },
            None => BroadcastStep::Done(outcome),
        }
    }
}

impl<T> WNetwork<T> {
    /// Starts to send a message to every known node, each once, in no promised order.
    pub fn broadcast_message(&self, message: Encoded) -> (broadcast: Broadcast)
        ensures
            broadcast@.command == (CommandView::Broadcast {
                inner: message,
                from: self@.inner.own_key,
            }),
            broadcast@.pending.no_duplicates(),
            broadcast@.pending.to_set() == self@.inner.nodes.dom(),
    {
        Broadcast {
            command: Command::Broadcast { inner: message, from: self.own_key().clone() },
            pending: self.known_nodes(),
        }
    }
}

} // verus!
