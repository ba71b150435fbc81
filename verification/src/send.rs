//! Sending commands to nodes.

use vstd::prelude::*;
use crate::addr::SocketAddr;
use crate::command::{Command, CommandView};
use crate::error::NetworkError;
use crate::fault::Fault;
use crate::key::PubKey;
use crate::model::NetworkView;
use crate::network::WNetwork;
use crate::wire::{serialize_command, serialized, Encoded};

verus! {

/// How a frame gets to its node.
#[derive(Debug, PartialEq, Eq)]
pub enum Delivery {
    /// Feed the frame to the open connection to `addr`.
    Feed { addr: SocketAddr, frame: Vec<u8> },
    /// Connect to the node at `addr` first, then feed the frame to the connection to `addr`.
    Connect { addr: SocketAddr, frame: Vec<u8> },
}

/// A delivery with the frame in place of the vector that holds it.
pub enum DeliveryView {
    Feed { addr: SocketAddr, frame: Seq<u8> },
    Connect { addr: SocketAddr, frame: Seq<u8> },
}

impl View for Delivery {
    type V = DeliveryView;

    open spec fn view(&self) -> DeliveryView {
        match *self {
            Delivery::Feed { addr, frame } => DeliveryView::Feed { addr, frame: frame@ },
            Delivery::Connect { addr, frame } => DeliveryView::Connect { addr, frame: frame@ },
        }
    }
}

impl DeliveryView {
    /// The frame that is delivered.
    pub open spec fn frame(self) -> Seq<u8> {
        match self {
            DeliveryView::Feed { frame, .. } => frame,
            DeliveryView::Connect { frame, .. } => frame,
        }
    }
}

/// How `command` gets to the node with key `node`: a node that is not known is refused before
/// the command is serialized; an open connection is used where there is one.
pub open spec fn delivery<T>(
    state: NetworkView<T>,
    node: Seq<u8>,
    command: CommandView<Encoded>,
) -> Result<DeliveryView, NetworkError> {
    if !state.knows(node) {
        Err(NetworkError::NoSuchNode)
    } else {
        let addr = state.inner.nodes[node];
        match serialized(command) {
            Err(error) => Err(error),
            Ok(frame) => if state.connected(addr) {
                Ok(DeliveryView::Feed { addr, frame })
            } else {
                Ok(DeliveryView::Connect { addr, frame })
            },
        }
    }
}

/// Whether `r` is the outcome `expected`.
pub open spec fn is_delivery(
    r: Result<Delivery, NetworkError>,
    expected: Result<DeliveryView, NetworkError>,
) -> bool {
    match r {
        Ok(delivery) => expected == Ok::<DeliveryView, NetworkError>(delivery@),
        Err(error) => expected == Err::<DeliveryView, NetworkError>(error),
    }
}

/// How a send goes on once the connection that it called for was opened, or failed to be: the
/// failure is the send's own; otherwise the very frame leaves by the connection to `addr`, which
/// has to be on record by now.
pub open spec fn resumption<T>(
    state: NetworkView<T>,
    addr: SocketAddr,
    frame: Seq<u8>,
    outcome: Result<(), NetworkError>,
) -> Result<Result<DeliveryView, Fault>, NetworkError> {
    match outcome {
        Err(error) => Err(error),
        Ok(_) => if state.connected(addr) {
            Ok(Ok(DeliveryView::Feed { addr, frame }))
        } else {
            Ok(Err(Fault::ConnectionMissing))
        },
    }
}

/// The outcome of a send whose frame was fed to its connection with `outcome`.
pub fn feed_outcome(outcome: Result<(), String>) -> (r: Result<(), NetworkError>)
    ensures
        match outcome {
            Ok(_) => r == Ok::<(), NetworkError>(()),
            Err(source) => r == Err::<(), NetworkError>(NetworkError::WError { source }),
        },
{
    match outcome {
        Ok(_) => Ok(()),
        Err(source) => Err(NetworkError::WError { source }),
    }
}

impl<T> WNetwork<T> {
    /// Starts to send a command to the node with key `node`.
    pub fn send_raw_message(&self, node: &PubKey, message: &Command<Encoded>) -> (r: Result<
        Delivery,
        NetworkError,
    >)
        ensures
            is_delivery(r, delivery(self@, node@, message@)),
            match r {
                Ok(Delivery::Feed { addr, frame }) => {
                    &&& self@.inner.nodes.contains_key(node@)
                    &&& addr == self@.inner.nodes[node@]
                    &&& self@.inner.outgoing_connections.contains(addr)
                    &&& serialized(message@) == Ok::<Seq<u8>, NetworkError>(frame@)
                },
                Ok(Delivery::Connect { addr, frame }) => {
                    &&& self@.inner.nodes.contains_key(node@)
                    &&& addr == self@.inner.nodes[node@]
                    &&& !self@.inner.outgoing_connections.contains(addr)
                    &&& serialized(message@) == Ok::<Seq<u8>, NetworkError>(frame@)
                },
                Err(error) => if self@.inner.nodes.contains_key(node@) {
                    serialized(message@) == Err::<Seq<u8>, NetworkError>(error)
                } else {
                    error == NetworkError::NoSuchNode
                },
            },
    {
        match self.address_of(node) {
            None => Err(NetworkError::NoSuchNode),
            Some(addr) => match serialize_command(message) {
                Err(error) => Err(error),
                Ok(frame) => if self.is_connected(addr) {
                    Ok(Delivery::Feed { addr, frame })
                } else {
                    Ok(Delivery::Connect { addr, frame })
                },
            },
        }
    }

    /// Tells whether a connection that was opened for a send is on record under `addr`, by which
    /// the frame is to leave.
    pub fn opened(&self, addr: SocketAddr) -> (r: Result<SocketAddr, Fault>)
        ensures
            r == (if self@.connected(addr) {
                Ok::<SocketAddr, Fault>(addr)
            } else {
                Err::<SocketAddr, Fault>(Fault::ConnectionMissing)
            }),
    {
        if self.is_connected(addr) {
            Ok(addr)
        } else {
            Err(Fault::ConnectionMissing)
        }
    }

    /// Goes on with a send of `frame` from the outcome of connecting to the node at `addr`.
    pub fn resumed(
        &self,
        addr: SocketAddr,
        frame: Vec<u8>,
        outcome: Result<(), NetworkError>,
    ) -> (r: Result<Result<Delivery, Fault>, NetworkError>)
        ensures
            match r {
                Err(error) => resumption(self@, addr, frame@, outcome) == Err::<
                    Result<DeliveryView, Fault>,
                    NetworkError,
                >(error),
                Ok(Ok(delivery)) => resumption(self@, addr, frame@, outcome) == Ok::<
                    Result<DeliveryView, Fault>,
                    NetworkError,
                >(Ok(delivery@)),
                Ok(Err(fault)) => resumption(self@, addr, frame@, outcome) == Ok::<
                    Result<DeliveryView, Fault>,
                    NetworkError,
                >(Err(fault)),
            },
    {
        match outcome {
            Err(error) => Err(error),
            Ok(_) => match self.opened(addr) {
                Ok(addr) => Ok(Ok(Delivery::Feed { addr, frame })),
                Err(fault) => Ok(Err(fault)),
            },
        }
    }

    /// Starts to send a message to one node.
    pub fn message_node(&self, message: Encoded, recipient: PubKey) -> (r: Result<
        Delivery,
        NetworkError,
    >)
        ensures
            is_delivery(
                r,
                delivery(
                    self@,
                    recipient@,
                    CommandView::Direct {
                        inner: message,
                        from: self@.inner.own_key,
                        to: recipient@,
                    },
                ),
            ),
            ({
                let command = CommandView::Direct {
                    inner: message,
                    from: self@.inner.own_key,
                    to: recipient@,
                };
                match r {
                    Ok(Delivery::Feed { addr, frame }) => {
                        &&& self@.inner.nodes.contains_key(recipient@)
                        &&& addr == self@.inner.nodes[recipient@]
                        &&& self@.inner.outgoing_connections.contains(addr)
                        &&& serialized(command) == Ok::<Seq<u8>, NetworkError>(frame@)
                    },
                    Ok(Delivery::Connect { addr, frame }) => {
                        &&& self@.inner.nodes.contains_key(recipient@)
                        &&& addr == self@.inner.nodes[recipient@]
                        &&& !self@.inner.outgoing_connections.contains(addr)
                        &&& serialized(command) == Ok::<Seq<u8>, NetworkError>(frame@)
                    },
                    Err(error) => if self@.inner.nodes.contains_key(recipient@) {
                        serialized(command) == Err::<Seq<u8>, NetworkError>(error)
                    } else {
                        error == NetworkError::NoSuchNode
                    },
                }
            }),
    {
        let command = Command::Direct {
            inner: message,
            from: self.own_key().clone(),
            to: recipient.clone(),
        };
        self.send_raw_message(&recipient, &command)
    }
}

} // verus!
