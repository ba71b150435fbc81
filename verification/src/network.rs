//! The state of a node.

use std::collections::VecDeque;
use vstd::prelude::*;
use crate::addr::SocketAddr;
use crate::connections::Connections;
use crate::error::NetworkError;
use crate::key::PubKey;
use crate::model::{InnerView, KeepAlive, NetworkView};
use crate::nodes::{entered, key_views, NodeTable};
use crate::resolve::{all_usable, first_unusable, pick_address, resolved, Lookup};

verus! {

/// What the tasks of a node share.
#[derive(Debug)]
pub struct WNetworkInner<T> {
    own_key: PubKey,
    broadcast_queue: VecDeque<T>,
    direct_queue: VecDeque<T>,
    nodes: NodeTable,
    outgoing_connections: Connections,
}

impl<T> View for WNetworkInner<T> {
    type V = InnerView<T>;

    closed spec fn view(&self) -> InnerView<T> {
        InnerView {
            own_key: self.own_key@,
            broadcast_queue: self.broadcast_queue@,
            direct_queue: self.direct_queue@,
            nodes: self.nodes@,
            outgoing_connections: self.outgoing_connections@,
        }
    }
}

impl<T> WNetworkInner<T> {
    fn with_nodes(own_key: PubKey, nodes: NodeTable) -> (inner: Self)
        ensures
            inner@ == InnerView::<T>::fresh(own_key@, nodes@),
    {
        WNetworkInner {
            own_key,
            broadcast_queue: VecDeque::new(),
            direct_queue: VecDeque::new(),
            nodes,
            outgoing_connections: Connections::new(),
        }
    }

    /// A node that knows the nodes of `node_list`.
    pub fn new(own_key: PubKey, node_list: Vec<(PubKey, SocketAddr)>) -> (inner: Self)
        ensures
            inner@ == InnerView::<T>::fresh(own_key@, entered(node_list@)),
    {
        Self::with_nodes(own_key, NodeTable::from_list(node_list))
    }

    /// A node that knows the nodes of `node_list`, each at the first address that its name
    /// resolved to. The first name without an address is answered with its error.
    pub fn new_from_strings(own_key: PubKey, node_list: Vec<Lookup>) -> (r: Result<
        Self,
        NetworkError,
    >)
        ensures
            match r {
                Ok(inner) => all_usable(node_list@) && inner@ == InnerView::<T>::fresh(
                    own_key@,
                    resolved(node_list@),
                ),
                Err(error) => exists|i: int| #[trigger]
                    first_unusable(node_list@, i) && node_list@[i].address() == Err::<
                        SocketAddr,
                        NetworkError,
                    >(error),
            },
    {
        let mut nodes = NodeTable::new();
        let n: usize = node_list.len();
        assert(node_list@.take(0) =~= Seq::empty());
        for i in 0..n
            invariant
                n == node_list@.len(),
                forall|j: int| 0 <= j < i ==> (#[trigger] node_list@[j]).address() is Ok,
                nodes@ == resolved(node_list@.take(i as int)),
        {
            let lookup = &node_list[i];
            match pick_address(&lookup.input, &lookup.outcome) {
                Ok(addr) => {
                    let ghost next = node_list@.take(i + 1);
                    assert(next.drop_last() =~= node_list@.take(i as int));
                    nodes.insert(lookup.key.clone(), addr);
                },
                Err(error) => {
                    assert(first_unusable(node_list@, i as int));
                    return Err(error);
                },
            }
        }
        assert(node_list@.take(n as int) =~= node_list@);
        Ok(Self::with_nodes(own_key, nodes))
    }

    /// Whether both tables of known nodes are the same.
    ///
    /// The keys of one are looked up in the other, in both directions.
    pub fn same_nodes(&self, other: &Self) -> (r: bool)
        ensures
            r == (self@.nodes == other@.nodes),
    {
        let r = self.nodes.agrees_with(&other.nodes) && other.nodes.agrees_with(&self.nodes);
        proof {
            if r {
                assert(self@.nodes =~= other@.nodes);
            }
        }
        r
    }
}

/// A node of the network.
#[derive(Debug)]
pub struct WNetwork<T> {
    inner: WNetworkInner<T>,
    tasks_generated: bool,
    port: u16,
    keep_alive_duration: KeepAlive,
    ping_count: u64,
    pong_count: u64,
}

impl<T> View for WNetwork<T> {
    type V = NetworkView<T>;

    closed spec fn view(&self) -> NetworkView<T> {
        NetworkView {
            inner: self.inner@,
            tasks_generated: self.tasks_generated,
            port: self.port,
            keep_alive: self.keep_alive_duration@,
            ping_count: self.ping_count,
            pong_count: self.pong_count,
        }
    }
}

/// Takes all items out of a queue.
fn drain<T>(queue: &mut VecDeque<T>) -> (items: Vec<T>)
    ensures
        items@ == old(queue)@,
        final(queue)@ == Seq::<T>::empty(),
{
    let mut items: Vec<T> = Vec::new();
    let ghost all = queue@;
    while queue.len() > 0
        invariant
            items@ + queue@ == all,
        decreases queue@.len(),
    {
        if let Some(item) = queue.pop_front() {
            items.push(item);
            assert(items@ + queue@ =~= all);
        }
    }
    assert(items@ =~= all);
    items
}

impl<T> WNetwork<T> {
    /// A node with key `own_key` that listens on `port` and knows the nodes of `node_list`. The
    /// first name without an address is answered with its error.
    pub fn new_from_strings(
        own_key: PubKey,
        node_list: Vec<Lookup>,
        port: u16,
        keep_alive_duration: Option<KeepAlive>,
    ) -> (r: Result<Self, NetworkError>)
        ensures
            match r {
                Ok(network) => all_usable(node_list@) && network@ == NetworkView::<T>::fresh(
                    own_key@,
                    resolved(node_list@),
                    port,
                    keep_alive_duration,
                ),
                Err(error) => exists|i: int| #[trigger]
                    first_unusable(node_list@, i) && node_list@[i].address() == Err::<
                        SocketAddr,
                        NetworkError,
                    >(error),
            },
    {
        match WNetworkInner::new_from_strings(own_key, node_list) {
            Err(error) => Err(error),
            Ok(inner) => Ok(
                WNetwork {
                    inner,
                    tasks_generated: false,
                    port,
                    keep_alive_duration: match keep_alive_duration {
                        Some(period) => period,
                        None => KeepAlive::default(),
                    },
                    ping_count: 0,
                    pong_count: 0,
                },
            ),
        }
    }

    /// Takes all broadcast messages that have arrived, the oldest first.
    pub fn broadcast_queue(&mut self) -> (r: Result<Vec<T>, NetworkError>)
        ensures
            r matches Ok(messages) && messages@ == old(self)@.inner.broadcast_queue,
            final(self)@ == old(self)@.with_broadcast_queue(Seq::empty()),
            final(self)@.inner.broadcast_queue.len() == 0,
            final(self)@.inner.direct_queue == old(self)@.inner.direct_queue,
            final(self)@.inner.own_key == old(self)@.inner.own_key,
            final(self)@.inner.nodes == old(self)@.inner.nodes,
            final(self)@.inner.outgoing_connections == old(self)@.inner.outgoing_connections,
            final(self)@.tasks_generated == old(self)@.tasks_generated,
            final(self)@.port == old(self)@.port,
            final(self)@.keep_alive == old(self)@.keep_alive,
            final(self)@.ping_count == old(self)@.ping_count,
            final(self)@.pong_count == old(self)@.pong_count,
    {
        Ok(drain(&mut self.inner.broadcast_queue))
    }

    /// Takes the oldest broadcast message that has arrived.
    pub fn next_broadcast(&mut self) -> (r: Result<Option<T>, NetworkError>)
        ensures
            ({
                let queue = old(self)@.inner.broadcast_queue;
                if queue.len() == 0 {
                    r == Ok::<Option<T>, NetworkError>(None) && final(self)@ == old(self)@
                } else {
                    r == Ok::<Option<T>, NetworkError>(Some(queue[0])) && final(self)@ == old(
                        self,
                    )@.with_broadcast_queue(queue.drop_first())
                }
            }),
            ({
                let queue = old(self)@.inner.broadcast_queue;
                let left = final(self)@.inner.broadcast_queue;
                match r {
                    Ok(Some(message)) => seq![message] + left == queue,
                    Ok(None) => queue.len() == 0 && left.len() == 0,
                    Err(_) => false,
                }
            }),
            final(self)@.inner.direct_queue == old(self)@.inner.direct_queue,
            final(self)@.inner.own_key == old(self)@.inner.own_key,
            final(self)@.inner.nodes == old(self)@.inner.nodes,
            final(self)@.inner.outgoing_connections == old(self)@.inner.outgoing_connections,
            final(self)@.tasks_generated == old(self)@.tasks_generated,
            final(self)@.port == old(self)@.port,
            final(self)@.keep_alive == old(self)@.keep_alive,
            final(self)@.ping_count == old(self)@.ping_count,
            final(self)@.pong_count == old(self)@.pong_count,
    {
        let r = self.inner.broadcast_queue.pop_front();
        assert(old(self)@.inner.broadcast_queue.len() > 0 ==> self@.inner.broadcast_queue
            =~= old(self)@.inner.broadcast_queue.drop_first());
        assert(r is Some ==> seq![r->0] + self@.inner.broadcast_queue =~= old(
            self,
        )@.inner.broadcast_queue);
        Ok(r)
    }

    /// Takes all direct messages that have arrived, the oldest first.
    pub fn direct_queue(&mut self) -> (r: Result<Vec<T>, NetworkError>)
        ensures
            r matches Ok(messages) && messages@ == old(self)@.inner.direct_queue,
            final(self)@ == old(self)@.with_direct_queue(Seq::empty()),
            final(self)@.inner.direct_queue.len() == 0,
            final(self)@.inner.broadcast_queue == old(self)@.inner.broadcast_queue,
            final(self)@.inner.own_key == old(self)@.inner.own_key,
            final(self)@.inner.nodes == old(self)@.inner.nodes,
            final(self)@.inner.outgoing_connections == old(self)@.inner.outgoing_connections,
            final(self)@.tasks_generated == old(self)@.tasks_generated,
            final(self)@.port == old(self)@.port,
            final(self)@.keep_alive == old(self)@.keep_alive,
            final(self)@.ping_count == old(self)@.ping_count,
            final(self)@.pong_count == old(self)@.pong_count,
    {
        Ok(drain(&mut self.inner.direct_queue))
    }

    /// Takes the oldest direct message that has arrived.
    pub fn next_direct(&mut self) -> (r: Result<Option<T>, NetworkError>)
        ensures
            ({
                let queue = old(self)@.inner.direct_queue;
                if queue.len() == 0 {
                    r == Ok::<Option<T>, NetworkError>(None) && final(self)@ == old(self)@
                } else {
                    r == Ok::<Option<T>, NetworkError>(Some(queue[0])) && final(self)@ == old(
                        self,
                    )@.with_direct_queue(queue.drop_first())
                }
            }),
            ({
                let queue = old(self)@.inner.direct_queue;
                let left = final(self)@.inner.direct_queue;
                match r {
                    Ok(Some(message)) => seq![message] + left == queue,
                    Ok(None) => queue.len() == 0 && left.len() == 0,
                    Err(_) => false,
                }
            }),
            final(self)@.inner.broadcast_queue == old(self)@.inner.broadcast_queue,
            final(self)@.inner.own_key == old(self)@.inner.own_key,
            final(self)@.inner.nodes == old(self)@.inner.nodes,
            final(self)@.inner.outgoing_connections == old(self)@.inner.outgoing_connections,
            final(self)@.tasks_generated == old(self)@.tasks_generated,
            final(self)@.port == old(self)@.port,
            final(self)@.keep_alive == old(self)@.keep_alive,
            final(self)@.ping_count == old(self)@.ping_count,
            final(self)@.pong_count == old(self)@.pong_count,
    {
        let r = self.inner.direct_queue.pop_front();
        assert(old(self)@.inner.direct_queue.len() > 0 ==> self@.inner.direct_queue =~= old(
            self,
        )@.inner.direct_queue.drop_first());
        assert(r is Some ==> seq![r->0] + self@.inner.direct_queue =~= old(
            self,
        )@.inner.direct_queue);
        Ok(r)
    }

    /// The keys of all known nodes, each once, in no promised order.
    pub fn known_nodes(&self) -> (keys: Vec<PubKey>)
        ensures
            key_views(keys@).no_duplicates(),
            key_views(keys@).to_set() == self@.inner.nodes.dom(),
    {
        self.inner.nodes.keys()
    }

    /// The key of the node itself.
    pub fn own_key(&self) -> (key: &PubKey)
        ensures
            key@ == self@.inner.own_key,
    {
        &self.inner.own_key
    }

    /// The port to listen on.
    pub fn port(&self) -> (port: u16)
        ensures
            port == self@.port,
    {
        self.port
    }

    /// How long a connection may be silent before it is pinged.
    pub fn keep_alive_duration(&self) -> (period: KeepAlive)
        ensures
            period@ == self@.keep_alive,
    {
        self.keep_alive_duration
    }

    /// How many pings were sent.
    pub fn ping_count(&self) -> (n: u64)
        ensures
            n == self@.ping_count,
    {
        self.ping_count
    }

    /// How many pongs were received.
    pub fn pong_count(&self) -> (n: u64)
        ensures
            n == self@.pong_count,
    {
        self.pong_count
    }

    /// Whether a connection to `addr` is open.
    pub fn is_connected(&self, addr: SocketAddr) -> (r: bool)
        ensures
            r == self@.connected(addr),
    {
        self.inner.outgoing_connections.contains(addr)
    }

    /// Where a node is reached, if it is known.
    pub(crate) fn address_of(&self, key: &PubKey) -> (r: Option<SocketAddr>)
        ensures
            match r {
                Some(addr) => self@.knows(key@) && addr == self@.inner.nodes[key@],
                None => !self@.knows(key@),
            },
    {
        self.inner.nodes.get(key)
    }

    pub(crate) fn push_broadcast(&mut self, message: T)
        ensures
            final(self)@ == old(self)@.with_broadcast(message),
            final(self)@.inner.broadcast_queue == old(self)@.inner.broadcast_queue.push(message),
            final(self)@.inner.direct_queue == old(self)@.inner.direct_queue,
    {
        self.inner.broadcast_queue.push_back(message);
    }

    pub(crate) fn push_direct(&mut self, message: T)
        ensures
            final(self)@ == old(self)@.with_direct(message),
            final(self)@.inner.direct_queue == old(self)@.inner.direct_queue.push(message),
            final(self)@.inner.broadcast_queue == old(self)@.inner.broadcast_queue,
    {
        self.inner.direct_queue.push_back(message);
    }

    pub(crate) fn insert_node(&mut self, key: PubKey, addr: SocketAddr)
        ensures
            final(self)@ == old(self)@.with_node(key@, addr),
            final(self)@.inner.nodes == old(self)@.inner.nodes.insert(key@, addr),
            final(self)@.inner.outgoing_connections == old(self)@.inner.outgoing_connections,
    {
        self.inner.nodes.insert(key, addr);
    }

    pub(crate) fn insert_connection(&mut self, addr: SocketAddr)
        ensures
            final(self)@ == old(self)@.with_connection(addr),
            final(self)@.inner.outgoing_connections == old(
                self,
            )@.inner.outgoing_connections.insert(addr),
            final(self)@.inner.nodes == old(self)@.inner.nodes,
    {
        self.inner.outgoing_connections.insert(addr);
    }

    pub(crate) fn count_ping(&mut self)
        ensures
            final(self)@ == old(self)@.with_ping_counted(),
    {
        self.ping_count = self.ping_count.wrapping_add(1);
    }

    pub(crate) fn count_pong(&mut self)
        ensures
            final(self)@ == old(self)@.with_pong_counted(),
    {
        self.pong_count = self.pong_count.wrapping_add(1);
    }

    /// Claims the background task; fails where it was claimed before.
    pub(crate) fn claim_task(&mut self) -> (claimed: bool)
        ensures
            claimed == !old(self)@.tasks_generated,
            final(self)@ == old(self)@.with_task_generated(),
    {
        let claimed = !self.tasks_generated;
        self.tasks_generated = true;
        claimed
    }
}

} // verus!
