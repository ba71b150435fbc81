//! What the state of a node is, and how it changes.

use vstd::prelude::*;
use crate::addr::SocketAddr;

verus! {

/// The number of nanoseconds in a second.
pub const NANOS_PER_SEC: u32 = 1_000_000_000;

/// The keep-alive period that is used where none is given: 100 milliseconds.
pub const STANDARD_NANOS: u32 = 100_000_000;

/// How long a connection may be silent before it is pinged: whole seconds, and nanoseconds below
/// one second.
#[derive(Clone, Copy, Debug, PartialEq, Eq)]
pub struct KeepAlive {
    secs: u64,
    nanos: u32,
}

impl View for KeepAlive {
    type V = nat;

    /// The period in nanoseconds.
    closed spec fn view(&self) -> nat {
        (self.secs * NANOS_PER_SEC + self.nanos) as nat
    }
}

impl KeepAlive {
    #[verifier::type_invariant]
    spec fn well_formed(self) -> bool {
        self.nanos < NANOS_PER_SEC
    }

    /// The period of `secs` seconds and `nanos` nanoseconds, if the latter are below a second.
    pub fn new(secs: u64, nanos: u32) -> (r: Option<KeepAlive>)
        ensures
            match r {
                Some(period) => nanos < 1_000_000_000 && period@ == secs * 1_000_000_000 + nanos,
                None => nanos >= 1_000_000_000,
            },
    {
        if nanos < NANOS_PER_SEC {
            Some(KeepAlive { secs, nanos })
        } else {
            None
        }
    }

    /// The whole seconds of the period.
    pub fn secs(&self) -> (secs: u64)
        ensures
            secs == self@ / 1_000_000_000,
    {
        proof {
            use_type_invariant(self);
        }
        self.secs
    }

    /// The nanoseconds of the period beyond its whole seconds.
    pub fn nanos(&self) -> (nanos: u32)
        ensures
            nanos == self@ % 1_000_000_000,
    {
        proof {
            use_type_invariant(self);
        }
        self.nanos
    }
}

impl Default for KeepAlive {
    fn default() -> (period: KeepAlive)
        ensures
            period@ == 100_000_000,
    {
        KeepAlive { secs: 0, nanos: STANDARD_NANOS }
    }
}

/// What the tasks of a node share.
#[verifier::ext_equal]
pub struct InnerView<T> {
    /// The key of the node itself.
    pub own_key: Seq<u8>,
    /// Broadcast messages that were received and not yet taken, the oldest first.
    pub broadcast_queue: Seq<T>,
    /// Direct messages that were received and not yet taken, the oldest first.
    pub direct_queue: Seq<T>,
    /// Where each known node is reached.
    pub nodes: Map<Seq<u8>, SocketAddr>,
    /// Which addresses a connection is open to.
    pub outgoing_connections: Set<SocketAddr>,
}

impl<T> InnerView<T> {
    /// A node that has received nothing and is connected to nobody.
    pub open spec fn fresh(own_key: Seq<u8>, nodes: Map<Seq<u8>, SocketAddr>) -> InnerView<T> {
        InnerView {
            own_key,
            broadcast_queue: Seq::empty(),
            direct_queue: Seq::empty(),
            nodes,
            outgoing_connections: Set::empty(),
        }
    }
}

/// The state of a node.
#[verifier::ext_equal]
pub struct NetworkView<T> {
    pub inner: InnerView<T>,
    /// Whether the background task was handed out.
    pub tasks_generated: bool,
    /// The port to listen on.
    pub port: u16,
    /// How long a connection may be silent, in nanoseconds.
    pub keep_alive: nat,
    /// How many pings were sent.
    pub ping_count: u64,
    /// How many pongs were received.
    pub pong_count: u64,
}

/// A counter after one more event; it starts over after its largest value.
pub open spec fn counted(n: u64) -> u64 {
    if n == u64::MAX {
        0
    } else {
        (n + 1) as u64
    }
}

impl<T> NetworkView<T> {
    /// A node that has done nothing yet.
    pub open spec fn fresh(
        own_key: Seq<u8>,
        nodes: Map<Seq<u8>, SocketAddr>,
        port: u16,
        keep_alive: Option<KeepAlive>,
    ) -> NetworkView<T> {
        NetworkView {
            inner: InnerView::fresh(own_key, nodes),
            tasks_generated: false,
            port,
            keep_alive: match keep_alive {
                Some(period) => period@,
                None => STANDARD_NANOS as nat,
            },
            ping_count: 0,
            pong_count: 0,
        }
    }

    /// Whether a connection to `addr` is open.
    pub open spec fn connected(self, addr: SocketAddr) -> bool {
        self.inner.outgoing_connections.contains(addr)
    }

    /// Whether the node with key `key` is known.
    pub open spec fn knows(self, key: Seq<u8>) -> bool {
        self.inner.nodes.contains_key(key)
    }

    /// The state once `message` has joined the broadcast queue.
    pub open spec fn with_broadcast(self, message: T) -> NetworkView<T> {
        NetworkView {
            inner: InnerView {
                broadcast_queue: self.inner.broadcast_queue.push(message),
                ..self.inner
            },
            ..self
        }
    }

    /// The state once `message` has joined the direct queue.
    pub open spec fn with_direct(self, message: T) -> NetworkView<T> {
        NetworkView {
            inner: InnerView { direct_queue: self.inner.direct_queue.push(message), ..self.inner },
            ..self
        }
    }

    /// The state with `queue` as its broadcast queue.
    pub open spec fn with_broadcast_queue(self, queue: Seq<T>) -> NetworkView<T> {
        NetworkView { inner: InnerView { broadcast_queue: queue, ..self.inner }, ..self }
    }

    /// The state with `queue` as its direct queue.
    pub open spec fn with_direct_queue(self, queue: Seq<T>) -> NetworkView<T> {
        NetworkView { inner: InnerView { direct_queue: queue, ..self.inner }, ..self }
    }

    /// The state once the node with key `key` is known to be reached at `addr`.
    pub open spec fn with_node(self, key: Seq<u8>, addr: SocketAddr) -> NetworkView<T> {
        NetworkView {
            inner: InnerView { nodes: self.inner.nodes.insert(key, addr), ..self.inner },
            ..self
        }
    }

    /// The state once a connection to `addr` is open.
    pub open spec fn with_connection(self, addr: SocketAddr) -> NetworkView<T> {
        NetworkView {
            inner: InnerView {
                outgoing_connections: self.inner.outgoing_connections.insert(addr),
                ..self.inner
            },
            ..self
        }
    }

    /// The state once the background task was handed out.
    pub open spec fn with_task_generated(self) -> NetworkView<T> {
        NetworkView { tasks_generated: true, ..self }
    }

    /// The state after one more ping was sent.
    pub open spec fn with_ping_counted(self) -> NetworkView<T> {
        NetworkView { ping_count: counted(self.ping_count), ..self }
    }

    /// The state after one more pong was received.
    pub open spec fn with_pong_counted(self) -> NetworkView<T> {
        NetworkView { pong_count: counted(self.pong_count), ..self }
    }
}

} // verus!
