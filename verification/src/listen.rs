//! The background task that accepts connections.

use vstd::prelude::*;
use vstd::string::*;
use crate::addr::SocketAddr;
use crate::error::NetworkError;
use crate::fault::Fault;
use crate::network::WNetwork;
use crate::resolve::{pick_address, picked, Resolution};
use crate::session::{Session, SessionView};

verus! {

/// The number `n` in decimal, without leading zeros.
pub open spec fn decimal(n: nat) -> Seq<char>
    decreases n,
{
    let digit = (48 + n % 10) as char;
    if n < 10 {
        seq![digit]
    } else {
        decimal(n / 10).push(digit)
    }
}

/// The digit `d` as a string.
fn digit(d: u16) -> (s: &'static str)
    requires
        d < 10,
    ensures
        s@ == seq![(48 + d) as char],
{
    proof {
        reveal_strlit("0");
        reveal_strlit("1");
        reveal_strlit("2");
        reveal_strlit("3");
        reveal_strlit("4");
        reveal_strlit("5");
        reveal_strlit("6");
        reveal_strlit("7");
        reveal_strlit("8");
        reveal_strlit("9");
    }
    let s = if d == 0 {
        "0"
    } else if d == 1 {
        "1"
    } else if d == 2 {
        "2"
    } else if d == 3 {
        "3"
    } else if d == 4 {
        "4"
    } else if d == 5 {
        "5"
    } else if d == 6 {
        "6"
    } else if d == 7 {
        "7"
    } else if d == 8 {
        "8"
    } else {
        "9"
    };
    assert(s@ =~= seq![(48 + d) as char]);
    s
}

/// Writes `n` in decimal.
fn to_decimal(n: u16) -> (s: String)
    ensures
        s@ == decimal(n as nat),
    decreases n,
{
    if n < 10 {
        digit(n).to_owned()
    } else {
        let mut s = to_decimal(n / 10);
        let ghost high = s@;
        s.append(digit(n % 10));
        assert(s@ =~= high.push((48 + n % 10) as char));
        s
    }
}

/// The background task of a node: it is to listen on `port` on every interface.
#[derive(Debug, PartialEq, Eq)]
pub struct ListenTask {
    pub port: u16,
}

/// What the listener gave.
#[derive(Clone, Copy, Debug, PartialEq, Eq, Structural)]
pub enum Arrival {
    /// No more connections will come.
    Exhausted,
    /// A connection could not be accepted.
    Failed,
    /// A connection was accepted.
    Stream,
}

/// What the background task is to do next.
#[derive(Clone, Copy, Debug, PartialEq, Eq, Structural)]
pub enum ListenAction {
    /// End with success.
    Finish,
    /// Perform the handshake on the connection and report whether it worked to `accepted`.
    Handshake,
    /// Panic.
    Fail(Fault),
}

/// What is done about an arrival.
pub open spec fn action_on(arrival: Arrival) -> ListenAction {
    match arrival {
        Arrival::Exhausted => ListenAction::Finish,
        Arrival::Failed => ListenAction::Fail(Fault::IncomingFailed),
        Arrival::Stream => ListenAction::Handshake,
    }
}

impl ListenTask {
    /// The host whose address is to be listened on: every interface.
    pub fn host(&self) -> (host: &'static str)
        ensures
            host@ == "0.0.0.0"@,
    {
        "0.0.0.0"
    }

    /// Goes on from the resolution of host and port to the address to listen on. In an error the
    /// port stands for what was resolved.
    pub fn listen_address(&self, outcome: &Resolution) -> (r: Result<SocketAddr, NetworkError>)
        ensures
            exists|input: String|
                input@ == decimal(self.port as nat) && r == #[trigger] picked(input, *outcome),
    {
        let input = to_decimal(self.port);
        pick_address(&input, outcome)
    }

    /// Goes on from the outcome of binding the listener.
    pub fn bound(&self, outcome: Result<(), String>) -> (r: Result<(), NetworkError>)
        ensures
            match outcome {
                Ok(_) => r == Ok::<(), NetworkError>(()),
                Err(source) => r == Err::<(), NetworkError>(
                    NetworkError::FailedToBindListener { source },
                ),
            },
    {
        match outcome {
            Ok(_) => Ok(()),
            Err(source) => Err(NetworkError::FailedToBindListener { source }),
        }
    }

    /// Goes on from what the listener gave.
    pub fn arrived(&self, arrival: Arrival) -> (action: ListenAction)
        ensures
            action == action_on(arrival),
    {
        match arrival {
            Arrival::Exhausted => ListenAction::Finish,
            Arrival::Failed => ListenAction::Fail(Fault::IncomingFailed),
            Arrival::Stream => ListenAction::Handshake,
        }
    }
}

impl<T> WNetwork<T> {
    /// Hands out the background task, once: after the first call there is none.
    pub fn generate_task(&mut self) -> (task: Option<ListenTask>)
        ensures
            match task {
                Some(task) => !old(self)@.tasks_generated && task.port == old(self)@.port,
                None => old(self)@.tasks_generated,
            },
            final(self)@ == old(self)@.with_task_generated(),
    {
        if self.claim_task() {
            Some(ListenTask { port: self.port() })
        } else {
            None
        }
    }

    /// Goes on from the handshake on a connection that was accepted from `peer`: takes the
    /// connection on record, and hands out the session that serves it.
    pub fn accepted(&mut self, peer: SocketAddr, handshake: bool) -> (r: Result<Session, Fault>)
        ensures
            if handshake {
                &&& r matches Ok(session) && session@ == SessionView::begun(peer)
                &&& final(self)@ == old(self)@.with_connection(peer)
                &&& final(self)@.inner.nodes == old(self)@.inner.nodes
                &&& final(self)@.inner.outgoing_connections == old(
                    self,
                )@.inner.outgoing_connections.insert(peer)
            } else {
                &&& r == Err::<Session, Fault>(Fault::HandshakeFailed)
                &&& final(self)@ == old(self)@
            },
    {
        if handshake {
            self.insert_connection(peer);
            Ok(self.register_incoming_connection(peer))
        } else {
            Err(Fault::HandshakeFailed)
        }
    }
}

} // verus!
