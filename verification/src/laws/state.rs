//! What each change of a node's state does to each part of it, and what it leaves alone.

use vstd::prelude::*;
use crate::addr::SocketAddr;
use crate::key::PubKey;
use crate::model::{counted, InnerView, NetworkView};
use crate::nodes::{entered, key_views};

verus! {

/// A direct message joins the end of the direct queue, and nothing else changes.
pub proof fn law_direct_message_joins_its_queue<T>(state: NetworkView<T>, message: T)
    ensures
        state.with_direct(message).inner.direct_queue == state.inner.direct_queue.push(message),
        state.with_direct(message).inner.broadcast_queue == state.inner.broadcast_queue,
        state.with_direct(message).inner.own_key == state.inner.own_key,
        state.with_direct(message).inner.nodes == state.inner.nodes,
        state.with_direct(message).inner.outgoing_connections == state.inner.outgoing_connections,
        state.with_direct(message).tasks_generated == state.tasks_generated,
        state.with_direct(message).port == state.port,
        state.with_direct(message).keep_alive == state.keep_alive,
        state.with_direct(message).ping_count == state.ping_count,
        state.with_direct(message).pong_count == state.pong_count,
{
}

/// A broadcast message joins the end of the broadcast queue, and nothing else changes.
pub proof fn law_broadcast_message_joins_its_queue<T>(state: NetworkView<T>, message: T)
    ensures
        state.with_broadcast(message).inner.broadcast_queue == state.inner.broadcast_queue.push(
            message,
        ),
        state.with_broadcast(message).inner.direct_queue == state.inner.direct_queue,
        state.with_broadcast(message).inner.own_key == state.inner.own_key,
        state.with_broadcast(message).inner.nodes == state.inner.nodes,
        state.with_broadcast(message).inner.outgoing_connections
            == state.inner.outgoing_connections,
        state.with_broadcast(message).tasks_generated == state.tasks_generated,
        state.with_broadcast(message).port == state.port,
        state.with_broadcast(message).keep_alive == state.keep_alive,
        state.with_broadcast(message).ping_count == state.ping_count,
        state.with_broadcast(message).pong_count == state.pong_count,
{
}

/// What is left of the direct messages is exactly what was to be left, and nothing else changes.
pub proof fn law_direct_queue_is_what_is_left<T>(state: NetworkView<T>, left: Seq<T>)
    ensures
        state.with_direct_queue(left).inner.direct_queue == left,
        state.with_direct_queue(left).inner.broadcast_queue == state.inner.broadcast_queue,
        state.with_direct_queue(left).inner.own_key == state.inner.own_key,
        state.with_direct_queue(left).inner.nodes == state.inner.nodes,
        state.with_direct_queue(left).inner.outgoing_connections
            == state.inner.outgoing_connections,
        state.with_direct_queue(left).tasks_generated == state.tasks_generated,
        state.with_direct_queue(left).port == state.port,
        state.with_direct_queue(left).keep_alive == state.keep_alive,
        state.with_direct_queue(left).ping_count == state.ping_count,
        state.with_direct_queue(left).pong_count == state.pong_count,
{
}

/// What is left of the broadcast messages is exactly what was to be left, and nothing else
/// changes.
pub proof fn law_broadcast_queue_is_what_is_left<T>(state: NetworkView<T>, left: Seq<T>)
    ensures
        state.with_broadcast_queue(left).inner.broadcast_queue == left,
        state.with_broadcast_queue(left).inner.direct_queue == state.inner.direct_queue,
        state.with_broadcast_queue(left).inner.own_key == state.inner.own_key,
        state.with_broadcast_queue(left).inner.nodes == state.inner.nodes,
        state.with_broadcast_queue(left).inner.outgoing_connections
            == state.inner.outgoing_connections,
        state.with_broadcast_queue(left).tasks_generated == state.tasks_generated,
        state.with_broadcast_queue(left).port == state.port,
        state.with_broadcast_queue(left).keep_alive == state.keep_alive,
        state.with_broadcast_queue(left).ping_count == state.ping_count,
        state.with_broadcast_queue(left).pong_count == state.pong_count,
{
}

/// Direct messages that are taken one at a time are the first ones of the queue, in order, and
/// those not yet taken stay: `states` are the states between the calls.
pub proof fn law_direct_messages_one_by_one<T>(states: Seq<NetworkView<T>>, n: int)
    requires
        0 <= n < states.len(),
        n <= states[0].inner.direct_queue.len(),
        forall|i: int|
            #![trigger states[i]]
            0 <= i < states.len() - 1 ==> states[i + 1] == states[i].with_direct_queue(
                states[i].inner.direct_queue.drop_first(),
            ),
    ensures
        states[n].inner.direct_queue == states[0].inner.direct_queue.skip(n),
        n < states[0].inner.direct_queue.len() ==> states[n].inner.direct_queue[0]
            == states[0].inner.direct_queue[n],
        states[n].inner.broadcast_queue == states[0].inner.broadcast_queue,
    decreases n,
{
    let queue = states[0].inner.direct_queue;
    if n == 0 {
        assert(queue.skip(0) =~= queue);
    } else {
        law_direct_messages_one_by_one(states, n - 1);
        law_direct_queue_is_what_is_left(
            states[n - 1],
            states[n - 1].inner.direct_queue.drop_first(),
        );
        assert(states[n - 1 + 1] == states[n]);
        assert(queue.skip(n - 1).drop_first() =~= queue.skip(n));
    }
}

/// Broadcast messages that are taken one at a time are the first ones of the queue, in order,
/// and those not yet taken stay: `states` are the states between the calls.
pub proof fn law_broadcast_messages_one_by_one<T>(states: Seq<NetworkView<T>>, n: int)
    requires
        0 <= n < states.len(),
        n <= states[0].inner.broadcast_queue.len(),
        forall|i: int|
            #![trigger states[i]]
            0 <= i < states.len() - 1 ==> states[i + 1] == states[i].with_broadcast_queue(
                states[i].inner.broadcast_queue.drop_first(),
            ),
    ensures
        states[n].inner.broadcast_queue == states[0].inner.broadcast_queue.skip(n),
        n < states[0].inner.broadcast_queue.len() ==> states[n].inner.broadcast_queue[0]
            == states[0].inner.broadcast_queue[n],
        states[n].inner.direct_queue == states[0].inner.direct_queue,
    decreases n,
{
    let queue = states[0].inner.broadcast_queue;
    if n == 0 {
        assert(queue.skip(0) =~= queue);
    } else {
        law_broadcast_messages_one_by_one(states, n - 1);
        law_broadcast_queue_is_what_is_left(
            states[n - 1],
            states[n - 1].inner.broadcast_queue.drop_first(),
        );
        assert(states[n - 1 + 1] == states[n]);
        assert(queue.skip(n - 1).drop_first() =~= queue.skip(n));
    }
}

/// A node that is entered is reached at its address; every other node is known exactly if it was
/// before, and keeps its address; and nothing but the table changes.
pub proof fn law_entering_a_node_moves_no_other<T>(
    state: NetworkView<T>,
    key: Seq<u8>,
    addr: SocketAddr,
)
    ensures
        state.with_node(key, addr).inner.nodes.contains_key(key),
        state.with_node(key, addr).inner.nodes[key] == addr,
        forall|k: Seq<u8>|
            k != key ==> #[trigger] state.with_node(key, addr).inner.nodes.contains_key(k)
                == state.inner.nodes.contains_key(k),
        forall|k: Seq<u8>|
            k != key && state.inner.nodes.contains_key(k) ==> #[trigger] state.with_node(
                key,
                addr,
            ).inner.nodes[k] == state.inner.nodes[k],
        state.with_node(key, addr).inner.outgoing_connections == state.inner.outgoing_connections,
        state.with_node(key, addr).inner.own_key == state.inner.own_key,
        state.with_node(key, addr).inner.direct_queue == state.inner.direct_queue,
        state.with_node(key, addr).inner.broadcast_queue == state.inner.broadcast_queue,
        state.with_node(key, addr).tasks_generated == state.tasks_generated,
        state.with_node(key, addr).port == state.port,
        state.with_node(key, addr).keep_alive == state.keep_alive,
        state.with_node(key, addr).ping_count == state.ping_count,
        state.with_node(key, addr).pong_count == state.pong_count,
{
}

/// Taking a connection on record opens that one and closes none, and changes nothing else.
pub proof fn law_recording_a_connection_closes_none<T>(state: NetworkView<T>, addr: SocketAddr)
    ensures
        forall|a: SocketAddr| #[trigger]
            state.with_connection(addr).inner.outgoing_connections.contains(a) <==> (a == addr
                || state.inner.outgoing_connections.contains(a)),
        state.with_connection(addr).inner.nodes == state.inner.nodes,
        state.with_connection(addr).inner.own_key == state.inner.own_key,
        state.with_connection(addr).inner.direct_queue == state.inner.direct_queue,
        state.with_connection(addr).inner.broadcast_queue == state.inner.broadcast_queue,
        state.with_connection(addr).tasks_generated == state.tasks_generated,
        state.with_connection(addr).port == state.port,
        state.with_connection(addr).keep_alive == state.keep_alive,
        state.with_connection(addr).ping_count == state.ping_count,
        state.with_connection(addr).pong_count == state.pong_count,
{
}

/// A connection is open, and a node known, exactly where it is on record.
pub proof fn law_records_decide<T>(state: NetworkView<T>, addr: SocketAddr, key: Seq<u8>)
    ensures
        state.connected(addr) <==> state.inner.outgoing_connections.contains(addr),
        state.knows(key) <==> state.inner.nodes.contains_key(key),
{
}

/// Handing out the background task changes nothing but that it is handed out.
pub proof fn law_generating_the_task_changes_nothing_else<T>(state: NetworkView<T>)
    ensures
        state.with_task_generated().tasks_generated,
        state.with_task_generated().inner == state.inner,
        state.with_task_generated().port == state.port,
        state.with_task_generated().keep_alive == state.keep_alive,
        state.with_task_generated().ping_count == state.ping_count,
        state.with_task_generated().pong_count == state.pong_count,
{
}

/// Pings and pongs are counted one by one, modulo the counters' range, each by its own counter
/// and without any other change.
pub proof fn law_pings_and_pongs_are_counted<T>(state: NetworkView<T>, n: u64)
    ensures
        counted(n) == (n + 1) % 0x1_0000_0000_0000_0000,
        state.with_ping_counted().ping_count == (state.ping_count + 1) % 0x1_0000_0000_0000_0000,
        state.with_ping_counted().pong_count == state.pong_count,
        state.with_ping_counted().inner == state.inner,
        state.with_ping_counted().tasks_generated == state.tasks_generated,
        state.with_ping_counted().port == state.port,
        state.with_ping_counted().keep_alive == state.keep_alive,
        state.with_pong_counted().pong_count == (state.pong_count + 1) % 0x1_0000_0000_0000_0000,
        state.with_pong_counted().ping_count == state.ping_count,
        state.with_pong_counted().inner == state.inner,
        state.with_pong_counted().tasks_generated == state.tasks_generated,
        state.with_pong_counted().port == state.port,
        state.with_pong_counted().keep_alive == state.keep_alive,
{
}

/// A fresh node has its key, its port and the nodes that it was given; it has received nothing,
/// counted nothing, is connected to nobody and has not handed out its task. Its keep-alive period
/// is the one that it was given, or 100 milliseconds.
pub proof fn law_fresh_node<T>(
    own_key: Seq<u8>,
    nodes: Map<Seq<u8>, SocketAddr>,
    port: u16,
    keep_alive: Option<crate::model::KeepAlive>,
)
    ensures
        ({
            let fresh = NetworkView::<T>::fresh(own_key, nodes, port, keep_alive);
            &&& fresh.inner.own_key == own_key
            &&& fresh.inner.nodes == nodes
            &&& fresh.inner.direct_queue.len() == 0
            &&& fresh.inner.broadcast_queue.len() == 0
            &&& forall|a: SocketAddr| !fresh.inner.outgoing_connections.contains(a)
            &&& fresh.port == port
            &&& !fresh.tasks_generated
            &&& fresh.ping_count == 0
            &&& fresh.pong_count == 0
            &&& keep_alive is None ==> fresh.keep_alive == 100_000_000
            &&& keep_alive is Some ==> fresh.keep_alive == keep_alive->0@
        }),
        ({
            let fresh = InnerView::<T>::fresh(own_key, nodes);
            &&& fresh.own_key == own_key
            &&& fresh.nodes == nodes
            &&& fresh.direct_queue.len() == 0
            &&& fresh.broadcast_queue.len() == 0
            &&& forall|a: SocketAddr| !fresh.outgoing_connections.contains(a)
        }),
{
}

/// Of the pairs that are entered, the last one of each key counts.
pub proof fn law_last_entry_counts(list: Seq<(PubKey, SocketAddr)>, i: int)
    requires
        0 <= i < list.len(),
        forall|j: int| i < j < list.len() ==> (#[trigger] list[j]).0@ != list[i].0@,
    ensures
        entered(list).contains_key(list[i].0@),
        entered(list)[list[i].0@] == list[i].1,
    decreases list.len(),
{
    let last = list[list.len() - 1];
    if i < list.len() - 1 {
        let shorter = list.drop_last();
        assert forall|j: int| i < j < shorter.len() implies (#[trigger] shorter[j]).0@
            != shorter[i].0@ by {
            assert(shorter[j] == list[j]);
        }
        law_last_entry_counts(shorter, i);
        assert(last.0@ != list[i].0@);
    }
}

/// Only nodes that were entered are in the table.
pub proof fn law_only_entered_nodes_are_known(list: Seq<(PubKey, SocketAddr)>, key: Seq<u8>)
    requires
        entered(list).contains_key(key),
    ensures
        exists|i: int| 0 <= i < list.len() && (#[trigger] list[i]).0@ == key,
    decreases list.len(),
{
    if list.len() > 0 {
        if list[list.len() - 1].0@ != key {
            let shorter = list.drop_last();
            law_only_entered_nodes_are_known(shorter, key);
            let i = choose|i: int| 0 <= i < shorter.len() && (#[trigger] shorter[i]).0@ == key;
            assert(list[i].0@ == key);
        }
    }
}

/// A list of keys stands for those keys, in the same places.
pub proof fn law_keys_stand_for_themselves(keys: Seq<PubKey>)
    ensures
        key_views(keys).len() == keys.len(),
        forall|i: int| 0 <= i < keys.len() ==> #[trigger] key_views(keys)[i] == keys[i]@,
{
}

} // verus!
