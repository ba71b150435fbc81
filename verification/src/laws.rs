//! What holds of a node as a whole, over any history of what happens to it.

pub mod delivery;
pub mod frames;
pub mod session;
pub mod setup;
pub mod state;

use vstd::prelude::*;
use crate::addr::SocketAddr;
use crate::broadcast::{BroadcastStepView, BroadcastView};
use crate::command::CommandView;
use crate::error::NetworkError;
use crate::fault::Fault;
use crate::key::PubKey;
use crate::model::NetworkView;
use crate::nodes::entered;
use crate::resolve::{all_usable, first_unusable, resolved, Lookup};
use crate::send::{delivery, resumption, DeliveryView};
use crate::session::{
    action_after, state_after, state_after_command, Incoming, SessionActionView, SessionEvent,
    SessionView,
};
use crate::wire::{encoding, law_decoding_undoes_encoding, serialized, Encoded};

verus! {

/// One change of a node's state.
pub enum Change<T> {
    /// An event of the session with `peer`.
    Session { peer: SocketAddr, event: SessionEvent<T> },
    /// A command from `peer` was dealt with.
    Received { peer: SocketAddr, command: CommandView<T> },
    /// A connection to the node with key `key` was opened.
    Introduced { key: Seq<u8>, peer: SocketAddr },
    /// A connection was accepted.
    Accepted { peer: SocketAddr },
    /// The background task was asked for.
    TaskGenerated,
    /// The broadcast messages were taken but for these.
    BroadcastsTaken { left: Seq<T> },
    /// The direct messages were taken but for these.
    DirectsTaken { left: Seq<T> },
}

/// The state after a change.
pub open spec fn changed<T>(state: NetworkView<T>, change: Change<T>) -> NetworkView<T> {
    match change {
        Change::Session { peer, event } => state_after(state, peer, event),
        Change::Received { peer, command } => state_after_command(state, peer, command),
        Change::Introduced { key, peer } => state.with_connection(peer).with_node(key, peer),
        Change::Accepted { peer } => state.with_connection(peer),
        Change::TaskGenerated => state.with_task_generated(),
        Change::BroadcastsTaken { left } => state.with_broadcast_queue(left),
        Change::DirectsTaken { left } => state.with_direct_queue(left),
    }
}

/// The state after a series of changes.
pub open spec fn history<T>(state: NetworkView<T>, changes: Seq<Change<T>>) -> NetworkView<T>
    decreases changes.len(),
{
    if changes.len() == 0 {
        state
    } else {
        changed(history(state, changes.drop_last()), changes.last())
    }
}

/// Whatever happens, a node keeps its key, its port and its keep-alive period; it forgets no node
/// that it knows and no connection that it has; and the background task stays handed out.
pub proof fn law_nothing_is_forgotten<T>(state: NetworkView<T>, changes: Seq<Change<T>>)
    ensures
        ({
            let later = history(state, changes);
            &&& later.inner.own_key == state.inner.own_key
            &&& later.port == state.port
            &&& later.keep_alive == state.keep_alive
            &&& state.inner.nodes.dom().subset_of(later.inner.nodes.dom())
            &&& state.inner.outgoing_connections.subset_of(later.inner.outgoing_connections)
            &&& state.tasks_generated ==> later.tasks_generated
        }),
    decreases changes.len(),
{
    if changes.len() > 0 {
        law_nothing_is_forgotten(state, changes.drop_last());
    }
}

/// The background task is handed out once: however often it is asked for and whatever happens in
/// between, it is never to be had again after the first time.
pub proof fn law_task_is_generated_once<T>(state: NetworkView<T>, changes: Seq<Change<T>>)
    ensures
        history(changed(state, Change::TaskGenerated), changes).tasks_generated,
{
    law_nothing_is_forgotten(changed(state, Change::TaskGenerated), changes);
}

/// A session whose connection was taken on record never finds it missing: whatever happened
/// since, its pings have a socket to leave by, and so have its answers to pings.
pub proof fn law_sessions_keep_their_socket<T>(
    state: NetworkView<T>,
    peer: SocketAddr,
    changes: Seq<Change<T>>,
    event: SessionEvent<T>,
)
    requires
        state.connected(peer),
    ensures
        ({
            let action = action_after(history(state, changes), peer, event);
            &&& action != SessionActionView::Fail(Fault::NoPingSocket)
            &&& action != SessionActionView::Fail(Fault::UnknownSocket)
            &&& event is TimerFired ==> action == SessionActionView::FeedPing(
                encoding(CommandView::Ping),
            )
        }),
{
    law_nothing_is_forgotten(state, changes);
}

/// A session goes on until it is told to stop or to fail: until then there is always something
/// that can happen to it next, and from then on nothing.
pub proof fn law_session_goes_on_until_told<T>(session: SessionView, action: SessionActionView)
    requires
        !session.over,
    ensures
        exists|event: SessionEvent<T>| #[trigger] session.expects(event),
        (forall|event: SessionEvent<T>| ! #[trigger] session.doing(action).expects(event)) <==> (
        action is Stop || action is Fail),
{
    assert(session.pinging ==> session.expects(SessionEvent::<T>::PingFed(true)));
    assert(!session.pinging ==> session.expects(SessionEvent::<T>::TimerFired));
    let next = session.doing(action);
    if !next.over {
        assert(next.pinging ==> next.expects(SessionEvent::<T>::PingFed(true)));
        assert(!next.pinging ==> next.expects(SessionEvent::<T>::TimerFired));
    }
}

/// A node is refused as unknown exactly where it is not known.
pub proof fn law_only_unknown_nodes_are_refused<T>(
    state: NetworkView<T>,
    node: Seq<u8>,
    command: CommandView<Encoded>,
)
    ensures
        delivery(state, node, command) == Err::<DeliveryView, NetworkError>(
            NetworkError::NoSuchNode,
        ) <==> !state.knows(node),
{
}

/// Once a connection to a node was opened, every command for it leaves by that connection.
pub proof fn law_connected_node_is_reached<T>(
    state: NetworkView<T>,
    key: Seq<u8>,
    peer: SocketAddr,
    command: CommandView<Encoded>,
)
    requires
        serialized(command) is Ok,
    ensures
        delivery(changed(state, Change::Introduced { key, peer }), key, command) == Ok::<
            DeliveryView,
            NetworkError,
        >(DeliveryView::Feed { addr: peer, frame: serialized(command)->Ok_0 }),
{
}

/// A send that calls for a connection goes on with it: once the node was reached at the address
/// that was asked for, the frame that was serialized before, and no other, leaves by the new
/// connection. Where the node could not be reached, the send fails with the same error.
pub proof fn law_send_goes_on_after_connecting<T>(
    state: NetworkView<T>,
    node: Seq<u8>,
    command: CommandView<Encoded>,
    addr: SocketAddr,
    frame: Seq<u8>,
    changes: Seq<Change<T>>,
    error: NetworkError,
)
    requires
        delivery(state, node, command) == Ok::<DeliveryView, NetworkError>(
            DeliveryView::Connect { addr, frame },
        ),
    ensures
        serialized(command) == Ok::<Seq<u8>, NetworkError>(frame),
        ({
            let reached = changed(state, Change::Introduced { key: node, peer: addr });
            resumption(history(reached, changes), addr, frame, Ok(())) == Ok::<
                Result<DeliveryView, Fault>,
                NetworkError,
            >(Ok(DeliveryView::Feed { addr, frame }))
        }),
        resumption(history(state, changes), addr, frame, Err(error)) == Err::<
            Result<DeliveryView, Fault>,
            NetworkError,
        >(error),
{
    law_nothing_is_forgotten(changed(state, Change::Introduced { key: node, peer: addr }), changes);
}

/// A node that identified itself over a connection is answered over that connection.
pub proof fn law_identified_node_is_reached<T>(
    state: NetworkView<T>,
    from: Seq<u8>,
    peer: SocketAddr,
    command: CommandView<Encoded>,
)
    requires
        state.connected(peer),
        serialized(command) is Ok,
    ensures
        delivery(
            state_after_command(state, peer, CommandView::Identify { from }),
            from,
            command,
        ) == Ok::<DeliveryView, NetworkError>(
            DeliveryView::Feed { addr: peer, frame: serialized(command)->Ok_0 },
        ),
{
}

/// Whether `event` is the arrival of `frame`, with its message decoded to `decoded`.
pub open spec fn arrives<T>(
    event: SessionEvent<T>,
    frame: Seq<u8>,
    decoded: Option<(T, usize)>,
) -> bool {
    event matches SessionEvent::Received(Incoming::Binary { bytes, message }) && bytes@ == frame
        && message == decoded
}

/// A direct message arrives: the frame that a node sends joins the direct queue of the node that
/// it is meant for, and leaves every other node as it was.
pub proof fn law_direct_message_arrives<T>(
    receiver: NetworkView<T>,
    peer: SocketAddr,
    from: Seq<u8>,
    to: Seq<u8>,
    encoded: Vec<u8>,
    message: T,
    event: SessionEvent<T>,
)
    requires
        from.len() <= u64::MAX,
        to.len() <= u64::MAX,
        arrives(
            event,
            serialized(CommandView::Direct { inner: Ok(encoded), from, to })->Ok_0,
            Some((message, encoded.len())),
        ),
    ensures
        action_after(receiver, peer, event) == SessionActionView::AwaitNext,
        to == receiver.inner.own_key ==> state_after(receiver, peer, event)
            == receiver.with_direct(message),
        to != receiver.inner.own_key ==> state_after(receiver, peer, event) == receiver,
{
    let command = CommandView::Direct { inner: message, from, to };
    let decoded = Some((message, encoded.len()));
    law_decoding_undoes_encoding(command, encoded@, decoded, Seq::empty());
    let frame = encoding(command.with_message(encoded@));
    assert(frame + Seq::<u8>::empty() =~= frame);
}

/// What is sent is received: whatever a node makes of a message for another node that it knows,
/// be the connection open or not, joins the direct queue of that node once it arrives there.
pub proof fn law_sent_message_is_received<T>(
    sender: NetworkView<T>,
    receiver: NetworkView<T>,
    peer: SocketAddr,
    encoded: Vec<u8>,
    message: T,
    event: SessionEvent<T>,
)
    requires
        sender.inner.own_key.len() <= u64::MAX,
        receiver.inner.own_key.len() <= u64::MAX,
        sender.knows(receiver.inner.own_key),
        arrives(
            event,
            delivery(
                sender,
                receiver.inner.own_key,
                CommandView::Direct {
                    inner: Ok(encoded),
                    from: sender.inner.own_key,
                    to: receiver.inner.own_key,
                },
            )->Ok_0.frame(),
            Some((message, encoded.len())),
        ),
    ensures
        delivery(
            sender,
            receiver.inner.own_key,
            CommandView::Direct {
                inner: Ok(encoded),
                from: sender.inner.own_key,
                to: receiver.inner.own_key,
            },
        ) is Ok,
        action_after(receiver, peer, event) == SessionActionView::AwaitNext,
        state_after(receiver, peer, event) == receiver.with_direct(message),
{
    law_direct_message_arrives(
        receiver,
        peer,
        sender.inner.own_key,
        receiver.inner.own_key,
        encoded,
        message,
        event,
    );
}

/// A broadcast message arrives: the frame that a node sends joins the broadcast queue of every
/// node that receives it.
pub proof fn law_broadcast_message_arrives<T>(
    receiver: NetworkView<T>,
    peer: SocketAddr,
    from: Seq<u8>,
    encoded: Vec<u8>,
    message: T,
    event: SessionEvent<T>,
)
    requires
        from.len() <= u64::MAX,
        arrives(
            event,
            serialized(CommandView::Broadcast { inner: Ok(encoded), from })->Ok_0,
            Some((message, encoded.len())),
        ),
    ensures
        action_after(receiver, peer, event) == SessionActionView::AwaitNext,
        state_after(receiver, peer, event) == receiver.with_broadcast(message),
{
    let command = CommandView::Broadcast { inner: message, from };
    let decoded = Some((message, encoded.len()));
    law_decoding_undoes_encoding(command, encoded@, decoded, Seq::empty());
    let frame = encoding(command.with_message(encoded@));
    assert(frame + Seq::<u8>::empty() =~= frame);
}

/// A node that receives the identification of another one knows it from then on at the address
/// that the identification came from.
pub proof fn law_identification_arrives<T>(
    receiver: NetworkView<T>,
    peer: SocketAddr,
    from: Seq<u8>,
    decoded: Option<(T, usize)>,
    event: SessionEvent<T>,
)
    requires
        from.len() <= u64::MAX,
        arrives(event, encoding(CommandView::Identify { from }), decoded),
    ensures
        action_after(receiver, peer, event) == SessionActionView::AwaitNext,
        state_after(receiver, peer, event) == receiver.with_node(from, peer),
{
    let command = CommandView::<T>::Identify { from };
    law_decoding_undoes_encoding(command, Seq::empty(), decoded, Seq::empty());
    let frame = encoding(command.with_message(Seq::empty()));
    assert(frame + Seq::<u8>::empty() =~= frame);
}

/// A ping comes back as a pong: what a session sends when its timer fires is answered by a node
/// that has the connection on record, without changing that node, and the answer is counted by
/// the node that asked.
pub proof fn law_ping_comes_back<T>(
    asking: NetworkView<T>,
    to: SocketAddr,
    answering: NetworkView<T>,
    from: SocketAddr,
    decoded: Option<(T, usize)>,
    ping: SessionEvent<T>,
    pong: SessionEvent<T>,
)
    requires
        asking.connected(to),
        answering.connected(from),
        arrives(ping, action_after(asking, to, SessionEvent::TimerFired)->FeedPing_0, decoded),
        arrives(pong, action_after(answering, from, ping)->FeedPong_0, decoded),
    ensures
        action_after(asking, to, SessionEvent::TimerFired) is FeedPing,
        state_after(answering, from, ping) == answering,
        action_after(answering, from, ping) is FeedPong,
        state_after(asking, to, pong) == asking.with_pong_counted(),
        action_after(asking, to, pong) == SessionActionView::AwaitNext,
{
    let frame = encoding(CommandView::<T>::Ping.with_message(Seq::empty()));
    law_decoding_undoes_encoding(CommandView::<T>::Ping, Seq::empty(), decoded, Seq::empty());
    assert(frame + Seq::<u8>::empty() =~= frame);
    let reply = encoding(CommandView::<T>::Pong.with_message(Seq::empty()));
    law_decoding_undoes_encoding(CommandView::<T>::Pong, Seq::empty(), decoded, Seq::empty());
    assert(reply + Seq::<u8>::empty() =~= reply);
}

/// The state after a series of commands, each with the address that it came from.
pub open spec fn state_after_commands<T>(
    state: NetworkView<T>,
    commands: Seq<(SocketAddr, CommandView<T>)>,
) -> NetworkView<T>
    decreases commands.len(),
{
    if commands.len() == 0 {
        state
    } else {
        let (peer, command) = commands.last();
        state_after_command(state_after_commands(state, commands.drop_last()), peer, command)
    }
}

/// The direct messages among the commands that are meant for the node with key `own_key`, in
/// order.
pub open spec fn direct_messages<T>(
    own_key: Seq<u8>,
    commands: Seq<(SocketAddr, CommandView<T>)>,
) -> Seq<T>
    decreases commands.len(),
{
    if commands.len() == 0 {
        Seq::empty()
    } else {
        let earlier = direct_messages(own_key, commands.drop_last());
        match commands.last().1 {
            CommandView::Direct { inner, to, .. } => if to == own_key {
                earlier.push(inner)
            } else {
                earlier
            },
            _ => earlier,
        }
    }
}

/// The broadcast messages among the commands, in order.
pub open spec fn broadcast_messages<T>(commands: Seq<(SocketAddr, CommandView<T>)>) -> Seq<T>
    decreases commands.len(),
{
    if commands.len() == 0 {
        Seq::empty()
    } else {
        let earlier = broadcast_messages(commands.drop_last());
        match commands.last().1 {
            CommandView::Broadcast { inner, .. } => earlier.push(inner),
            _ => earlier,
        }
    }
}

/// Messages are queued in the order in which they arrive, none twice and none lost, whatever
/// else arrives between them.
pub proof fn law_messages_queue_in_order<T>(
    state: NetworkView<T>,
    commands: Seq<(SocketAddr, CommandView<T>)>,
)
    ensures
        ({
            let later = state_after_commands(state, commands).inner;
            &&& later.own_key == state.inner.own_key
            &&& later.direct_queue == state.inner.direct_queue + direct_messages(
                state.inner.own_key,
                commands,
            )
            &&& later.broadcast_queue == state.inner.broadcast_queue + broadcast_messages(commands)
        }),
    decreases commands.len(),
{
    if commands.len() == 0 {
        assert(state.inner.direct_queue + Seq::<T>::empty() =~= state.inner.direct_queue);
        assert(state.inner.broadcast_queue + Seq::<T>::empty() =~= state.inner.broadcast_queue);
    } else {
        law_messages_queue_in_order(state, commands.drop_last());
        let later = state_after_commands(state, commands).inner;
        assert(later.direct_queue =~= state.inner.direct_queue + direct_messages(
            state.inner.own_key,
            commands,
        ));
        assert(later.broadcast_queue =~= state.inner.broadcast_queue + broadcast_messages(
            commands,
        ));
    }
}

/// What is left of a queue after its oldest item was taken `n` times.
pub open spec fn left_after_taking<T>(queue: Seq<T>, n: nat) -> Seq<T>
    decreases n,
{
    if n == 0 {
        queue
    } else {
        left_after_taking(queue, (n - 1) as nat).drop_first()
    }
}

/// Taking messages one at a time gives them in the order in which all at once are given.
pub proof fn law_one_by_one_is_in_order<T>(queue: Seq<T>, n: nat)
    requires
        n <= queue.len(),
    ensures
        left_after_taking(queue, n) == queue.skip(n as int),
        n < queue.len() ==> left_after_taking(queue, n)[0] == queue[n as int],
    decreases n,
{
    if n == 0 {
        assert(queue.skip(0) =~= queue);
    } else {
        law_one_by_one_is_in_order(queue, (n - 1) as nat);
        assert(queue.skip(n - 1).drop_first() =~= queue.skip(n as int));
    }
}

/// Naming nodes by strings and naming them by the addresses that the strings resolve to gives
/// the same table.
pub proof fn law_strings_and_addresses_agree(
    lookups: Seq<Lookup>,
    pairs: Seq<(PubKey, SocketAddr)>,
)
    requires
        lookups.len() == pairs.len(),
        forall|i: int|
            0 <= i < lookups.len() ==> (#[trigger] lookups[i]).key@ == pairs[i].0@
                && lookups[i].address() == Ok::<SocketAddr, NetworkError>(pairs[i].1),
    ensures
        all_usable(lookups),
        resolved(lookups) == entered(pairs),
    decreases lookups.len(),
{
    if lookups.len() > 0 {
        law_strings_and_addresses_agree(lookups.drop_last(), pairs.drop_last());
        let last = lookups[lookups.len() - 1];
        assert(last.key@ == pairs.last().0@);
    }
}

/// The first name without an address decides: what stands behind it is not looked at.
pub proof fn law_first_failure_decides(lookups: Seq<Lookup>, more: Seq<Lookup>, i: int)
    requires
        first_unusable(lookups, i),
    ensures
        first_unusable(lookups + more, i),
        (lookups + more)[i].address() == lookups[i].address(),
        !all_usable(lookups + more),
{
    let all = lookups + more;
    assert forall|j: int| 0 <= j < i implies (#[trigger] all[j]).address() is Ok by {
        assert(all[j] == lookups[j]);
    }
    assert(all[i] == lookups[i]);
}

/// The nodes that a broadcast sends to where its sends come to the outcomes in turn; the first
/// outcome is the one that it begins with.
pub open spec fn recipients(
    broadcast: BroadcastView,
    outcomes: Seq<Result<(), NetworkError>>,
) -> Seq<Seq<u8>>
    decreases outcomes.len(),
{
    if outcomes.len() == 0 {
        Seq::empty()
    } else {
        match broadcast.step(outcomes[0]) {
            BroadcastStepView::Send(key) => seq![key] + recipients(
                broadcast.after(outcomes[0]),
                outcomes.drop_first(),
            ),
            BroadcastStepView::Done(_) => Seq::empty(),
        }
    }
}

/// A broadcast whose sends all succeed goes to each of its nodes once.
pub proof fn law_broadcast_goes_to_all(
    broadcast: BroadcastView,
    outcomes: Seq<Result<(), NetworkError>>,
)
    requires
        outcomes.len() > broadcast.pending.len(),
        forall|i: int| 0 <= i < outcomes.len() ==> (#[trigger] outcomes[i]) is Ok,
    ensures
        recipients(broadcast, outcomes) == broadcast.pending.reverse(),
    decreases outcomes.len(),
{
    let sent = recipients(broadcast, outcomes);
    assert(outcomes[0] is Ok);
    if broadcast.pending.len() == 0 {
        assert(sent =~= broadcast.pending.reverse());
    } else {
        law_broadcast_goes_to_all(broadcast.after(outcomes[0]), outcomes.drop_first());
        assert(sent =~= broadcast.pending.reverse());
    }
}

/// The first send that fails ends a broadcast: no further node is sent to.
pub proof fn law_broadcast_stops_at_failure(
    broadcast: BroadcastView,
    outcomes: Seq<Result<(), NetworkError>>,
    failed: int,
)
    requires
        0 <= failed < outcomes.len(),
        failed <= broadcast.pending.len(),
        outcomes[failed] is Err,
        forall|i: int| 0 <= i < failed ==> (#[trigger] outcomes[i]) is Ok,
    ensures
        recipients(broadcast, outcomes) == broadcast.pending.reverse().take(failed),
    decreases outcomes.len(),
{
    let sent = recipients(broadcast, outcomes);
    if failed == 0 {
        assert(sent =~= broadcast.pending.reverse().take(failed));
    } else {
        assert(outcomes[0] is Ok);
        law_broadcast_stops_at_failure(
            broadcast.after(outcomes[0]),
            outcomes.drop_first(),
            failed - 1,
        );
        assert(sent =~= broadcast.pending.reverse().take(failed));
    }
}

/// No node that a broadcast goes to is refused as unknown, whatever happens while it is on its
/// way.
pub proof fn law_broadcast_meets_no_unknown_node<T>(
    state: NetworkView<T>,
    broadcast: BroadcastView,
    changes: Seq<Change<T>>,
    key: Seq<u8>,
)
    requires
        broadcast.pending.to_set() == state.inner.nodes.dom(),
        broadcast.pending.contains(key),
    ensures
        delivery(history(state, changes), key, broadcast.command) != Err::<
            DeliveryView,
            NetworkError,
        >(NetworkError::NoSuchNode),
{
    law_nothing_is_forgotten(state, changes);
    assert(broadcast.pending.to_set().contains(key));
}

} // verus!
