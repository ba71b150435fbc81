//! Opening a connection to a node.
//!
//! Three things have to succeed in turn: dialing, the WebSocket handshake, and feeding the frame
//! by which this node identifies itself. Only then is the connection taken on record.

use vstd::prelude::*;
use vstd::string::*;
use crate::addr::SocketAddr;
use crate::command::CommandView;
use crate::error::NetworkError;
use crate::key::PubKey;
use crate::network::WNetwork;
use crate::session::{Session, SessionView};
use crate::wire::{encoding, identify_frame};

verus! {

/// A connection that was dialed: the handshake is next.
#[derive(Debug)]
pub struct Dialed {
    /// The key of the node at the other end.
    pub key: PubKey,
    /// The address at the other end.
    pub peer: SocketAddr,
    /// The frame by which this node identifies itself.
    pub ident: Vec<u8>,
}

/// A connection whose handshake is done: feeding `ident` to it is next.
#[derive(Debug)]
pub struct Upgraded {
    /// The key of the node at the other end.
    pub key: PubKey,
    /// The address at the other end.
    pub peer: SocketAddr,
    /// The frame by which this node identifies itself.
    pub ident: Vec<u8>,
}

/// The URL to ask for in the handshake with the server at `authority`.
pub fn websocket_url(authority: &str) -> (url: String)
    ensures
        url@ == "ws://"@ + authority@,
{
    let mut url = "ws://".to_owned();
    url.append(authority);
    url
}

impl Dialed {
    /// Goes on from the outcome of the handshake.
    pub fn upgraded(self, outcome: Result<(), String>) -> (r: Result<Upgraded, NetworkError>)
        ensures
            match outcome {
                Ok(_) => r matches Ok(next) && next.key == self.key && next.peer == self.peer
                    && next.ident == self.ident,
                Err(source) => r == Err::<Upgraded, NetworkError>(NetworkError::WError { source }),
            },
    {
        match outcome {
            Ok(_) => Ok(Upgraded { key: self.key, peer: self.peer, ident: self.ident }),
            Err(source) => Err(NetworkError::WError { source }),
        }
    }
}

impl<T> WNetwork<T> {
    /// Goes on from the outcome of dialing the node with key `key`: the address at the other end,
    /// or what went wrong.
    pub fn connect_to(&self, key: PubKey, outcome: Result<SocketAddr, String>) -> (r: Result<
        Dialed,
        NetworkError,
    >)
        ensures
            match outcome {
                Ok(peer) => r matches Ok(dialed) && dialed.key == key && dialed.peer == peer
                    && dialed.ident@ == encoding(
                    CommandView::Identify { from: self@.inner.own_key },
                ),
                Err(source) => r == Err::<Dialed, NetworkError>(
                    NetworkError::ExecutorError { source },
                ),
            },
    {
        match outcome {
            Ok(peer) => Ok(Dialed { key, peer, ident: identify_frame(self.own_key()) }),
            Err(source) => Err(NetworkError::ExecutorError { source }),
        }
    }

    /// Goes on from the outcome of feeding the identification: takes the connection on record,
    /// and hands out the session that serves it.
    pub fn introduced(&mut self, connection: Upgraded, outcome: Result<(), String>) -> (r: Result<
        Session,
        NetworkError,
    >)
        ensures
            match outcome {
                Ok(_) => {
                    &&& r matches Ok(session) && session@ == SessionView::begun(connection.peer)
                    &&& final(self)@ == old(self)@.with_connection(connection.peer).with_node(
                        connection.key@,
                        connection.peer,
                    )
                    &&& final(self)@.inner.nodes == old(self)@.inner.nodes.insert(
                        connection.key@,
                        connection.peer,
                    )
                    &&& final(self)@.inner.outgoing_connections == old(
                        self,
                    )@.inner.outgoing_connections.insert(connection.peer)
                },
                Err(source) => {
                    &&& r == Err::<Session, NetworkError>(NetworkError::WError { source })
                    &&& final(self)@ == old(self)@
                },
            },
    {
        match outcome {
            Ok(_) => {
                self.insert_connection(connection.peer);
                let session = self.register_incoming_connection(connection.peer);
                self.insert_node(connection.key, connection.peer);
                Ok(session)
            },
            Err(source) => Err(NetworkError::WError { source }),
        }
    }
}

} // verus!
