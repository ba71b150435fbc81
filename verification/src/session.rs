//! The life of one connection: what is done with each thing that arrives over it, and when it is
//! pinged.

use vstd::prelude::*;
use crate::addr::SocketAddr;
use crate::command::{Command, CommandView};
use crate::fault::Fault;
use crate::model::NetworkView;
use crate::network::WNetwork;
use crate::wire::{decode_command, decoding, encoding, ping_frame, pong_frame};

verus! {

/// A connection that is being served: its stream is read and its timer is run.
#[derive(Debug)]
pub struct Session {
    peer: SocketAddr,
    pinging: bool,
    ponging: bool,
    over: bool,
}

/// How far a session is.
pub struct SessionView {
    /// The address at the other end.
    pub peer: SocketAddr,
    /// Whether a ping is being fed to the connection; until that is done, nothing else happens.
    pub pinging: bool,
    /// Whether a pong is being fed to the connection; until that is done, the stream rests.
    pub ponging: bool,
    /// Whether the session has ended.
    pub over: bool,
}

impl View for Session {
    type V = SessionView;

    closed spec fn view(&self) -> SessionView {
        SessionView {
            peer: self.peer,
            pinging: self.pinging,
            ponging: self.ponging,
            over: self.over,
        }
    }
}

impl SessionView {
    /// A session that has just begun: its keep-alive period runs, and it waits for its stream.
    pub open spec fn begun(peer: SocketAddr) -> SessionView {
        SessionView { peer, pinging: false, ponging: false, over: false }
    }

    /// Whether the event can happen next.
    pub open spec fn expects<T>(self, event: SessionEvent<T>) -> bool {
        !self.over && match event {
            SessionEvent::TimerFired => !self.pinging,
            SessionEvent::PingFed(_) => self.pinging,
            SessionEvent::Received(_) => !self.pinging && !self.ponging,
            SessionEvent::PongFed(_) => !self.pinging && self.ponging,
        }
    }

    /// The session once it has turned to `action`.
    pub open spec fn doing(self, action: SessionActionView) -> SessionView {
        match action {
            SessionActionView::FeedPing(_) => SessionView { pinging: true, ..self },
            SessionActionView::RestartTimer => SessionView { pinging: false, ..self },
            SessionActionView::FeedPong(_) => SessionView { ponging: true, ..self },
            SessionActionView::AwaitNext => SessionView { ponging: false, ..self },
            SessionActionView::Stop => SessionView { over: true, ..self },
            SessionActionView::Fail(_) => SessionView { over: true, ..self },
        }
    }
}

impl Session {
    /// The address at the other end.
    pub fn peer(&self) -> (peer: SocketAddr)
        ensures
            peer == self@.peer,
    {
        self.peer
    }

    /// Whether the event can happen next.
    pub fn expects<T>(&self, event: &SessionEvent<T>) -> (r: bool)
        ensures
            r == self@.expects(*event),
    {
        !self.over && match event {
            SessionEvent::TimerFired => !self.pinging,
            SessionEvent::PingFed(_) => self.pinging,
            SessionEvent::Received(_) => !self.pinging && !self.ponging,
            SessionEvent::PongFed(_) => !self.pinging && self.ponging,
        }
    }

    /// Notes which action the session has turned to.
    fn turn_to(&mut self, action: &SessionAction)
        ensures
            final(self)@ == old(self)@.doing(action@),
    {
        match action {
            SessionAction::FeedPing(_) => {
                self.pinging = true;
            },
            SessionAction::RestartTimer => {
                self.pinging = false;
            },
            SessionAction::FeedPong(_) => {
                self.ponging = true;
            },
            SessionAction::AwaitNext => {
                self.ponging = false;
            },
            SessionAction::Stop | SessionAction::Fail(_) => {
                self.over = true;
            },
        }
    }
}

/// What the stream of a connection gave.
#[derive(Debug)]
pub enum Incoming<T> {
    /// The stream is over.
    Ended,
    /// The stream failed.
    Failed,
    /// A binary message. Where its frame carries a message, `message` is what its decoder made
    /// of the bytes from `MESSAGE_OFFSET` on, with the number of bytes that it read.
    Binary { bytes: Vec<u8>, message: Option<(T, usize)> },
    /// The peer closes the connection.
    Close,
    /// A message of any other kind.
    Other,
}

/// What happens to a session.
#[derive(Debug)]
pub enum SessionEvent<T> {
    /// The keep-alive period is over.
    TimerFired,
    /// The ping was fed to the connection, or could not be.
    PingFed(bool),
    /// The stream gave something.
    Received(Incoming<T>),
    /// The pong was fed to the connection, or could not be.
    PongFed(bool),
}

/// What a session is to do next.
#[derive(Debug, PartialEq, Eq)]
pub enum SessionAction {
    /// Feed this frame to the connection and report whether it worked as `PingFed`.
    FeedPing(Vec<u8>),
    /// Start the keep-alive period anew.
    RestartTimer,
    /// Feed this frame to the connection and report whether it worked as `PongFed`.
    FeedPong(Vec<u8>),
    /// Wait for what the stream gives next.
    AwaitNext,
    /// End the session.
    Stop,
    /// Panic.
    Fail(Fault),
}

/// A session's action with the frame in place of the vector that holds it.
pub enum SessionActionView {
    FeedPing(Seq<u8>),
    RestartTimer,
    FeedPong(Seq<u8>),
    AwaitNext,
    Stop,
    Fail(Fault),
}

impl View for SessionAction {
    type V = SessionActionView;

    open spec fn view(&self) -> SessionActionView {
        match *self {
            SessionAction::FeedPing(frame) => SessionActionView::FeedPing(frame@),
            SessionAction::RestartTimer => SessionActionView::RestartTimer,
            SessionAction::FeedPong(frame) => SessionActionView::FeedPong(frame@),
            SessionAction::AwaitNext => SessionActionView::AwaitNext,
            SessionAction::Stop => SessionActionView::Stop,
            SessionAction::Fail(fault) => SessionActionView::Fail(fault),
        }
    }
}

/// The state after a command arrived from `peer`.
///
/// A broadcast joins the broadcast queue. A direct message joins the direct queue if it is meant
/// for this node and is discarded otherwise. A node that identifies itself is from then on
/// reached at `peer`. A pong is counted. A ping changes nothing.
pub open spec fn state_after_command<T>(
    state: NetworkView<T>,
    peer: SocketAddr,
    command: CommandView<T>,
) -> NetworkView<T> {
    match command {
        CommandView::Broadcast { inner, .. } => state.with_broadcast(inner),
        CommandView::Direct { inner, to, .. } => if to == state.inner.own_key {
            state.with_direct(inner)
        } else {
            state
        },
        CommandView::Identify { from } => state.with_node(from, peer),
        CommandView::Ping => state,
        CommandView::Pong => state.with_pong_counted(),
    }
}

/// What is done about a command that arrived from `peer`: a ping is answered by a pong over the
/// connection to `peer`, everything else calls for no answer.
pub open spec fn action_after_command<T>(
    state: NetworkView<T>,
    peer: SocketAddr,
    command: CommandView<T>,
) -> SessionActionView {
    if command is Ping {
        if state.connected(peer) {
            SessionActionView::FeedPong(encoding(CommandView::Pong))
        } else {
            SessionActionView::Fail(Fault::UnknownSocket)
        }
    } else {
        SessionActionView::AwaitNext
    }
}

/// The state after `event` happened to the session with `peer`.
pub open spec fn state_after<T>(
    state: NetworkView<T>,
    peer: SocketAddr,
    event: SessionEvent<T>,
) -> NetworkView<T> {
    match event {
        SessionEvent::PingFed(true) => state.with_ping_counted(),
        SessionEvent::Received(Incoming::Binary { bytes, message }) => match decoding(
            bytes@,
            message,
        ) {
            Ok(command) => state_after_command(state, peer, command),
            Err(_) => state,
        },
        _ => state,
    }
}

/// What the session with `peer` does about `event`.
pub open spec fn action_after<T>(
    state: NetworkView<T>,
    peer: SocketAddr,
    event: SessionEvent<T>,
) -> SessionActionView {
    match event {
        SessionEvent::TimerFired => if state.connected(peer) {
            SessionActionView::FeedPing(encoding(CommandView::Ping))
        } else {
            SessionActionView::Fail(Fault::NoPingSocket)
        },
        SessionEvent::PingFed(true) => SessionActionView::RestartTimer,
        SessionEvent::PingFed(false) => SessionActionView::Fail(Fault::PingNotSent),
        SessionEvent::PongFed(true) => SessionActionView::AwaitNext,
        SessionEvent::PongFed(false) => SessionActionView::Fail(Fault::PongNotSent),
        SessionEvent::Received(incoming) => match incoming {
            Incoming::Ended => SessionActionView::Fail(Fault::StreamEnded),
            Incoming::Failed => SessionActionView::Fail(Fault::StreamError),
            Incoming::Close => SessionActionView::Stop,
            Incoming::Other => SessionActionView::AwaitNext,
            Incoming::Binary { bytes, message } => match decoding(bytes@, message) {
                Ok(command) => action_after_command(state, peer, command),
                Err(error) => SessionActionView::Fail(Fault::Undecodable(error)),
            },
        },
    }
}

impl<T> WNetwork<T> {
    /// The session that serves the connection to `peer`. It begins with a fresh keep-alive
    /// period and by waiting for what the stream gives.
    pub fn register_incoming_connection(&self, peer: SocketAddr) -> (session: Session)
        ensures
            session@ == SessionView::begun(peer),
    {
        Session { peer, pinging: false, ponging: false, over: false }
    }

    /// Deals with a command that arrived from `peer`.
    pub fn receive(&mut self, peer: SocketAddr, command: Command<T>) -> (action: SessionAction)
        ensures
            final(self)@ == state_after_command(old(self)@, peer, command@),
            action@ == action_after_command(old(self)@, peer, command@),
    {
        match command {
            Command::Broadcast { inner, from: _ } => {
                self.push_broadcast(inner);
                SessionAction::AwaitNext
            },
            Command::Direct { inner, from: _, to } => {
                if self.own_key().same(&to) {
                    self.push_direct(inner);
                }
                SessionAction::AwaitNext
            },
            Command::Ping => {
                if self.is_connected(peer) {
                    SessionAction::FeedPong(pong_frame())
                } else {
                    SessionAction::Fail(Fault::UnknownSocket)
                }
            },
            Command::Pong => {
                self.count_pong();
                SessionAction::AwaitNext
            },
            Command::Identify { from } => {
                self.insert_node(from, peer);
                SessionAction::AwaitNext
            },
        }
    }

    /// Deals with what the stream of the connection to `peer` gave.
    fn receive_incoming(&mut self, peer: SocketAddr, incoming: Incoming<T>) -> (action:
        SessionAction)
        ensures
            final(self)@ == state_after(old(self)@, peer, SessionEvent::Received(incoming)),
            action@ == action_after(old(self)@, peer, SessionEvent::Received(incoming)),
    {
        match incoming {
            Incoming::Ended => SessionAction::Fail(Fault::StreamEnded),
            Incoming::Failed => SessionAction::Fail(Fault::StreamError),
            Incoming::Close => SessionAction::Stop,
            Incoming::Other => SessionAction::AwaitNext,
            Incoming::Binary { bytes, message } => match decode_command(bytes.as_slice(), message) {
                Ok(command) => self.receive(peer, command),
                Err(error) => SessionAction::Fail(Fault::Undecodable(error)),
            },
        }
    }

    /// What a session does about an event.
    fn react(&mut self, peer: SocketAddr, event: SessionEvent<T>) -> (action: SessionAction)
        ensures
            final(self)@ == state_after(old(self)@, peer, event),
            action@ == action_after(old(self)@, peer, event),
    {
        match event {
            SessionEvent::TimerFired => {
                if self.is_connected(peer) {
                    SessionAction::FeedPing(ping_frame())
                } else {
                    SessionAction::Fail(Fault::NoPingSocket)
                }
            },
            SessionEvent::PingFed(fed) => {
                if fed {
                    self.count_ping();
                    SessionAction::RestartTimer
                } else {
                    SessionAction::Fail(Fault::PingNotSent)
                }
            },
            SessionEvent::Received(incoming) => self.receive_incoming(peer, incoming),
            SessionEvent::PongFed(fed) => {
                if fed {
                    SessionAction::AwaitNext
                } else {
                    SessionAction::Fail(Fault::PongNotSent)
                }
            },
        }
    }

    /// Deals with what happened to a session; the session is from then on at the action that it
    /// is given.
    pub fn session_step(&mut self, session: &mut Session, event: SessionEvent<T>) -> (action:
        SessionAction)
        requires
            old(session)@.expects(event),
        ensures
            final(self)@ == state_after(old(self)@, old(session)@.peer, event),
            action@ == action_after(old(self)@, old(session)@.peer, event),
            final(session)@ == old(session)@.doing(action@),
            event == SessionEvent::<T>::PingFed(true) ==> action is RestartTimer,
            action is Stop <==> (event matches SessionEvent::Received(incoming)
                && incoming is Close),
    {
        let action = self.react(session.peer(), event);
        session.turn_to(&action);
        action
    }
}

} // verus!
