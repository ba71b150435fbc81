//! A WebSocket peer-to-peer networking layer as a verified state machine.
//!
//! The library holds every decision of a node: how commands are laid out on the wire, which
//! queue a received message goes to, who gets a reply, which socket a message leaves on and how
//! each failure is answered. Sockets, timers and tasks belong to the program around it, which
//! performs the actions that the library asks for and reports what came of them.

pub mod addr;
pub mod broadcast;
pub mod command;
pub mod connect;
pub mod connections;
pub mod error;
pub mod fault;
pub mod key;
pub mod laws;
pub mod listen;
pub mod model;
pub mod network;
pub mod nodes;
pub mod resolve;
pub mod send;
pub mod session;
pub mod wire;

pub use addr::SocketAddr;
pub use broadcast::{Broadcast, BroadcastStep};
pub use command::Command;
pub use connect::{websocket_url, Dialed, Upgraded};
pub use error::NetworkError;
pub use fault::Fault;
pub use key::PubKey;
pub use listen::{Arrival, ListenAction, ListenTask};
pub use model::KeepAlive;
pub use network::{WNetwork, WNetworkInner};
pub use resolve::{Lookup, Resolution};
pub use send::{feed_outcome, Delivery};
pub use session::{Incoming, Session, SessionAction, SessionEvent};
pub use wire::{
    decode_command, frame_kind, serialize_command, DecodeError, Encoded, FrameKind, MESSAGE_OFFSET,
};
