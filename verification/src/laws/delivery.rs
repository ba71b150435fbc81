//! Where commands go, in terms of the parts of the state.

use vstd::prelude::*;
use crate::addr::SocketAddr;
use crate::broadcast::{BroadcastStep, BroadcastStepView, BroadcastView};
use crate::command::CommandView;
use crate::error::NetworkError;
use crate::fault::Fault;
use crate::model::NetworkView;
use crate::send::{delivery, is_delivery, resumption, Delivery, DeliveryView};
use crate::session::state_after_command;
use crate::wire::{serialized, Encoded};

verus! {

/// A command that can be serialized goes to the recorded address of its node, whatever command
/// it is: by the open connection exactly where there is one, and by a new one otherwise. In
/// particular a frame is never to be fed to a connection that is not on record.
pub proof fn law_commands_go_by_open_connections<T>(
    state: NetworkView<T>,
    node: Seq<u8>,
    command: CommandView<Encoded>,
    frame: Seq<u8>,
)
    requires
        state.inner.nodes.contains_key(node),
        serialized(command) == Ok::<Seq<u8>, NetworkError>(frame),
    ensures
        ({
            let addr = state.inner.nodes[node];
            &&& delivery(state, node, command) is Ok
            &&& state.inner.outgoing_connections.contains(addr) <==> delivery(
                state,
                node,
                command,
            ) == Ok::<DeliveryView, NetworkError>(DeliveryView::Feed { addr, frame })
            &&& !state.inner.outgoing_connections.contains(addr) <==> delivery(
                state,
                node,
                command,
            ) == Ok::<DeliveryView, NetworkError>(DeliveryView::Connect { addr, frame })
        }),
{
}

/// Whatever is to be fed is to be fed to a connection that is on record, and whatever calls for a
/// connection has none yet; both concern the address of the node, which is known.
pub proof fn law_deliveries_fit_the_records<T>(
    state: NetworkView<T>,
    node: Seq<u8>,
    command: CommandView<Encoded>,
)
    ensures
        delivery(state, node, command) matches Ok(DeliveryView::Feed { addr, frame }) ==> {
            &&& state.inner.nodes.contains_key(node)
            &&& addr == state.inner.nodes[node]
            &&& state.inner.outgoing_connections.contains(addr)
            &&& serialized(command) == Ok::<Seq<u8>, NetworkError>(frame)
        },
        delivery(state, node, command) matches Ok(DeliveryView::Connect { addr, frame }) ==> {
            &&& state.inner.nodes.contains_key(node)
            &&& addr == state.inner.nodes[node]
            &&& !state.inner.outgoing_connections.contains(addr)
            &&& serialized(command) == Ok::<Seq<u8>, NetworkError>(frame)
        },
{
}

/// A node that is not in the table is refused, whatever is sent to it; and where the node is
/// known, a command that cannot be serialized is refused with the serializer's own error.
pub proof fn law_refusals<T>(
    state: NetworkView<T>,
    node: Seq<u8>,
    command: CommandView<Encoded>,
    error: NetworkError,
)
    ensures
        !state.inner.nodes.contains_key(node) ==> delivery(state, node, command) == Err::<
            DeliveryView,
            NetworkError,
        >(NetworkError::NoSuchNode),
        state.inner.nodes.contains_key(node) && serialized(command) == Err::<
            Seq<u8>,
            NetworkError,
        >(error) ==> delivery(state, node, command) == Err::<DeliveryView, NetworkError>(error),
{
}

/// Getting to know one node changes nothing for the others: whether it identified itself or a
/// connection to it was opened, a command for another node that had its connection still leaves
/// by that very connection; and an identification leaves every other delivery as it was.
pub proof fn law_other_nodes_are_reached_as_before<T>(
    state: NetworkView<T>,
    key: Seq<u8>,
    peer: SocketAddr,
    other: Seq<u8>,
    command: CommandView<Encoded>,
    frame: Seq<u8>,
)
    requires
        key != other,
        state.inner.nodes.contains_key(other),
        serialized(command) == Ok::<Seq<u8>, NetworkError>(frame),
    ensures
        ({
            let addr = state.inner.nodes[other];
            let introduced = state.with_connection(peer).with_node(key, peer);
            let identified = state_after_command(state, peer, CommandView::Identify { from: key });
            &&& introduced.inner.nodes[other] == addr
            &&& identified.inner.nodes[other] == addr
            &&& state.inner.outgoing_connections.contains(addr) ==> {
                &&& delivery(introduced, other, command) == Ok::<DeliveryView, NetworkError>(
                    DeliveryView::Feed { addr, frame },
                )
                &&& delivery(identified, other, command) == Ok::<DeliveryView, NetworkError>(
                    DeliveryView::Feed { addr, frame },
                )
            }
            &&& delivery(identified, other, command) == delivery(state, other, command)
        }),
{
}

/// A connection that was opened to a node is on record, as is the node at its address; every
/// other node and connection stays as it was.
pub proof fn law_introduction_adds_one_node<T>(
    state: NetworkView<T>,
    key: Seq<u8>,
    peer: SocketAddr,
)
    ensures
        ({
            let later = state.with_connection(peer).with_node(key, peer);
            &&& later.inner.nodes.contains_key(key)
            &&& later.inner.nodes[key] == peer
            &&& later.inner.outgoing_connections.contains(peer)
            &&& forall|k: Seq<u8>|
                k != key ==> #[trigger] later.inner.nodes.contains_key(k)
                    == state.inner.nodes.contains_key(k)
            &&& forall|k: Seq<u8>|
                k != key && state.inner.nodes.contains_key(k)
                    ==> #[trigger] later.inner.nodes[k] == state.inner.nodes[k]
            &&& forall|a: SocketAddr|
                a != peer ==> #[trigger] later.inner.outgoing_connections.contains(a)
                    == state.inner.outgoing_connections.contains(a)
            &&& later.inner.direct_queue == state.inner.direct_queue
            &&& later.inner.broadcast_queue == state.inner.broadcast_queue
            &&& later.inner.own_key == state.inner.own_key
        }),
{
}

/// A send goes on from the connect that it called for: with the error of the connect where that
/// failed; with the frame that it is about where the address is on record; and with a fault
/// where it is not.
pub proof fn law_send_resumes<T>(
    state: NetworkView<T>,
    addr: SocketAddr,
    frame: Seq<u8>,
    error: NetworkError,
)
    ensures
        resumption(state, addr, frame, Err(error)) == Err::<
            Result<DeliveryView, Fault>,
            NetworkError,
        >(error),
        state.inner.outgoing_connections.contains(addr) ==> resumption(
            state,
            addr,
            frame,
            Ok(()),
        ) == Ok::<Result<DeliveryView, Fault>, NetworkError>(
            Ok(DeliveryView::Feed { addr, frame }),
        ),
        !state.inner.outgoing_connections.contains(addr) ==> resumption(
            state,
            addr,
            frame,
            Ok(()),
        ) == Ok::<Result<DeliveryView, Fault>, NetworkError>(Err(Fault::ConnectionMissing)),
{
}

/// A delivery stands for its own fields, and its frame is the one in it.
pub proof fn law_deliveries_stand_for_themselves(given: Delivery)
    ensures
        match given {
            Delivery::Feed { addr, frame } => given@ == (DeliveryView::Feed { addr, frame: frame@ })
                && given@.frame() == frame@,
            Delivery::Connect { addr, frame } => given@ == (DeliveryView::Connect {
                addr,
                frame: frame@,
            }) && given@.frame() == frame@,
        },
{
}

/// What a send is started with is what was to come of it, field by field.
pub proof fn law_outcomes_stand_for_themselves(
    r: Result<Delivery, NetworkError>,
    expected: Result<DeliveryView, NetworkError>,
)
    ensures
        is_delivery(r, expected) <==> match (r, expected) {
            (Ok(given), Ok(due)) => given@ == due,
            (Err(error), Err(due)) => error == due,
            _ => false,
        },
{
}

/// A broadcast whose latest send failed is over with that very error, whatever it is and however
/// many nodes are pending.
pub proof fn law_broadcast_reports_the_failure(broadcast: BroadcastView, error: NetworkError)
    ensures
        broadcast.step(Err(error)) == BroadcastStepView::Done(Err(error)),
        broadcast.after(Err(error)) == broadcast,
{
}

/// A broadcast is over with success only where the latest send succeeded and no node is pending;
/// and it is over at all only there or where the latest send failed.
pub proof fn law_broadcast_succeeds_only_when_done(
    broadcast: BroadcastView,
    outcome: Result<(), NetworkError>,
)
    ensures
        broadcast.step(outcome) == BroadcastStepView::Done(Ok(())) <==> outcome is Ok
            && broadcast.pending.len() == 0,
        broadcast.step(outcome) is Done <==> outcome is Err || broadcast.pending.len() == 0,
{
    if let Ok(unit) = outcome {
        assert(unit == ());
    }
}

/// A broadcast that goes on sends to a node that was pending and is so no more; the other nodes
/// stay pending, and the command stays the same.
pub proof fn law_broadcast_goes_on_node_by_node(broadcast: BroadcastView)
    requires
        broadcast.pending.len() > 0,
    ensures
        broadcast.step(Ok(())) matches BroadcastStepView::Send(key) && broadcast.after(
            Ok(()),
        ).pending.push(key) == broadcast.pending,
        broadcast.after(Ok(())).command == broadcast.command,
{
    assert(broadcast.pending.drop_last().push(broadcast.pending.last()) =~= broadcast.pending);
}

/// A broadcast's step stands for its own fields.
pub proof fn law_steps_stand_for_themselves(step: BroadcastStep)
    ensures
        match step {
            BroadcastStep::Send(key) => step@ == BroadcastStepView::Send(key@),
            BroadcastStep::Done(result) => step@ == BroadcastStepView::Done(result),
        },
{
}

} // verus!
