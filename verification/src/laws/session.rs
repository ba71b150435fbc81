//! What a session does about each thing that happens to it, in terms of the parts of the state.

use vstd::bytes::{
    lemma_auto_spec_u32_to_from_le_bytes, spec_u32_from_le_bytes, spec_u32_to_le_bytes,
};
use vstd::prelude::*;
use crate::addr::SocketAddr;
use crate::command::CommandView;
use crate::fault::Fault;
use crate::model::NetworkView;
use crate::session::{
    action_after, action_after_command, state_after, state_after_command, Incoming,
    SessionAction, SessionActionView, SessionEvent, SessionView,
};
use crate::wire::{decoding, encoding, DecodeError, PING, PONG};

verus! {

/// A connection is kept alive for good: in every state and with every peer, a ping that was fed
/// is counted and the timer restarted. Only a ping that could not be fed ends the session, and
/// changes nothing.
pub proof fn law_ping_restarts_the_timer<T>(state: NetworkView<T>, peer: SocketAddr)
    ensures
        action_after(state, peer, SessionEvent::PingFed(true)) == SessionActionView::RestartTimer,
        state_after(state, peer, SessionEvent::PingFed(true)).ping_count == (state.ping_count + 1)
            % 0x1_0000_0000_0000_0000,
        state_after(state, peer, SessionEvent::PingFed(true)).pong_count == state.pong_count,
        state_after(state, peer, SessionEvent::PingFed(true)).inner == state.inner,
        state_after(state, peer, SessionEvent::PingFed(true)).tasks_generated
            == state.tasks_generated,
        state_after(state, peer, SessionEvent::PingFed(true)).port == state.port,
        state_after(state, peer, SessionEvent::PingFed(true)).keep_alive == state.keep_alive,
        action_after(state, peer, SessionEvent::PingFed(false)) == SessionActionView::Fail(
            Fault::PingNotSent,
        ),
        state_after(state, peer, SessionEvent::PingFed(false)) == state,
{
}

/// A session is told to stop by a close message of its peer, and by nothing else.
pub proof fn law_only_a_close_stops_a_session<T>(
    state: NetworkView<T>,
    peer: SocketAddr,
    event: SessionEvent<T>,
)
    ensures
        action_after(state, peer, event) is Stop <==> (event matches SessionEvent::Received(
            incoming,
        ) && incoming is Close),
{
}

/// The timer is restarted after a ping was fed, and on no other occasion; and pings and pongs are
/// fed only when the timer fires and when a ping arrives.
pub proof fn law_each_action_has_its_occasion<T>(
    state: NetworkView<T>,
    peer: SocketAddr,
    event: SessionEvent<T>,
)
    ensures
        action_after(state, peer, event) is RestartTimer <==> event == SessionEvent::<
            T,
        >::PingFed(true),
        action_after(state, peer, event) is FeedPing <==> event is TimerFired
            && state.inner.outgoing_connections.contains(peer),
        action_after(state, peer, event) is FeedPong <==> state.inner.outgoing_connections.contains(
            peer,
        ) && (event matches SessionEvent::Received(Incoming::Binary { bytes, message })
            && decoding(bytes@, message) == Ok::<CommandView<T>, DecodeError>(CommandView::Ping)),
{
}

/// When the timer fires, the connection to the peer is sent command number 3 if it is on record;
/// the state does not change either way.
pub proof fn law_timer_asks_for_a_ping<T>(state: NetworkView<T>, peer: SocketAddr)
    ensures
        state_after(state, peer, SessionEvent::TimerFired) == state,
        state.inner.outgoing_connections.contains(peer) ==> (action_after(
            state,
            peer,
            SessionEvent::TimerFired,
        ) matches SessionActionView::FeedPing(frame) && frame.len() == 4
            && spec_u32_from_le_bytes(frame) == 3),
        !state.inner.outgoing_connections.contains(peer) ==> action_after(
            state,
            peer,
            SessionEvent::TimerFired,
        ) == SessionActionView::Fail(Fault::NoPingSocket),
{
    lemma_auto_spec_u32_to_from_le_bytes();
    assert(encoding(CommandView::Ping) == spec_u32_to_le_bytes(PING));
}

/// After an answer was fed, the session waits for its stream; an answer that could not be fed
/// ends it. The state does not change either way.
pub proof fn law_answer_leads_back_to_the_stream<T>(state: NetworkView<T>, peer: SocketAddr)
    ensures
        action_after(state, peer, SessionEvent::PongFed(true)) == SessionActionView::AwaitNext,
        action_after(state, peer, SessionEvent::PongFed(false)) == SessionActionView::Fail(
            Fault::PongNotSent,
        ),
        forall|fed: bool| #[trigger] state_after(state, peer, SessionEvent::PongFed(fed)) == state,
{
}

/// What is no command changes nothing: the end and the failure of the stream and a frame that
/// cannot be decoded end the session with their own fault, a close stops it, and anything else is
/// passed over.
pub proof fn law_what_is_no_command_changes_nothing<T>(
    state: NetworkView<T>,
    peer: SocketAddr,
    bytes: Vec<u8>,
    message: Option<(T, usize)>,
    error: DecodeError,
)
    ensures
        state_after(state, peer, SessionEvent::Received(Incoming::Ended)) == state,
        action_after(state, peer, SessionEvent::Received(Incoming::Ended))
            == SessionActionView::Fail(Fault::StreamEnded),
        state_after(state, peer, SessionEvent::Received(Incoming::Failed)) == state,
        action_after(state, peer, SessionEvent::Received(Incoming::Failed))
            == SessionActionView::Fail(Fault::StreamError),
        state_after(state, peer, SessionEvent::Received(Incoming::Close)) == state,
        action_after(state, peer, SessionEvent::Received(Incoming::Close))
            == SessionActionView::Stop,
        state_after(state, peer, SessionEvent::Received(Incoming::Other)) == state,
        action_after(state, peer, SessionEvent::Received(Incoming::Other))
            == SessionActionView::AwaitNext,
        decoding(bytes@, message) == Err::<CommandView<T>, DecodeError>(error) ==> {
            let event = SessionEvent::Received(Incoming::Binary { bytes, message });
            &&& state_after(state, peer, event) == state
            &&& action_after(state, peer, event) == SessionActionView::Fail(
                Fault::Undecodable(error),
            )
        },
{
}

/// A frame that can be decoded is dealt with as the command that it holds.
pub proof fn law_frames_are_dealt_with_as_commands<T>(
    state: NetworkView<T>,
    peer: SocketAddr,
    bytes: Vec<u8>,
    message: Option<(T, usize)>,
)
    requires
        decoding(bytes@, message) is Ok,
    ensures
        ({
            let event = SessionEvent::Received(Incoming::Binary { bytes, message });
            let command = decoding(bytes@, message)->Ok_0;
            &&& state_after(state, peer, event) == state_after_command(state, peer, command)
            &&& action_after(state, peer, event) == action_after_command(state, peer, command)
        }),
{
}

/// Whoever sent it, a direct message is queued last among the direct messages if it is meant for
/// this node, and dropped otherwise; nothing else changes and nothing is answered.
pub proof fn law_direct_command<T>(
    state: NetworkView<T>,
    peer: SocketAddr,
    inner: T,
    from: Seq<u8>,
    to: Seq<u8>,
)
    ensures
        ({
            let command = CommandView::Direct { inner, from, to };
            let later = state_after_command(state, peer, command);
            &&& to == state.inner.own_key ==> later.inner.direct_queue
                == state.inner.direct_queue.push(inner)
            &&& to != state.inner.own_key ==> later.inner.direct_queue == state.inner.direct_queue
            &&& later.inner.broadcast_queue == state.inner.broadcast_queue
            &&& later.inner.own_key == state.inner.own_key
            &&& later.inner.nodes == state.inner.nodes
            &&& later.inner.outgoing_connections == state.inner.outgoing_connections
            &&& later.tasks_generated == state.tasks_generated
            &&& later.port == state.port
            &&& later.keep_alive == state.keep_alive
            &&& later.ping_count == state.ping_count
            &&& later.pong_count == state.pong_count
            &&& action_after_command(state, peer, command) == SessionActionView::AwaitNext
        }),
{
}

/// Whoever sent it, a broadcast message is queued last among the broadcast messages; nothing
/// else changes and nothing is answered.
pub proof fn law_broadcast_command<T>(
    state: NetworkView<T>,
    peer: SocketAddr,
    inner: T,
    from: Seq<u8>,
)
    ensures
        ({
            let command = CommandView::Broadcast { inner, from };
            let later = state_after_command(state, peer, command);
            &&& later.inner.broadcast_queue == state.inner.broadcast_queue.push(inner)
            &&& later.inner.direct_queue == state.inner.direct_queue
            &&& later.inner.own_key == state.inner.own_key
            &&& later.inner.nodes == state.inner.nodes
            &&& later.inner.outgoing_connections == state.inner.outgoing_connections
            &&& later.tasks_generated == state.tasks_generated
            &&& later.port == state.port
            &&& later.keep_alive == state.keep_alive
            &&& later.ping_count == state.ping_count
            &&& later.pong_count == state.pong_count
            &&& action_after_command(state, peer, command) == SessionActionView::AwaitNext
        }),
{
}

/// A node that identifies itself is from then on reached at the address that it did so from, be
/// it known before or not; every other node stays where it was; nothing else changes and nothing
/// is answered.
pub proof fn law_identify_command<T>(state: NetworkView<T>, peer: SocketAddr, from: Seq<u8>)
    ensures
        ({
            let command = CommandView::<T>::Identify { from };
            let later = state_after_command(state, peer, command);
            &&& later.inner.nodes.contains_key(from)
            &&& later.inner.nodes[from] == peer
            &&& forall|k: Seq<u8>|
                k != from ==> #[trigger] later.inner.nodes.contains_key(k)
                    == state.inner.nodes.contains_key(k)
            &&& forall|k: Seq<u8>|
                k != from && state.inner.nodes.contains_key(k)
                    ==> #[trigger] later.inner.nodes[k] == state.inner.nodes[k]
            &&& later.inner.direct_queue == state.inner.direct_queue
            &&& later.inner.broadcast_queue == state.inner.broadcast_queue
            &&& later.inner.own_key == state.inner.own_key
            &&& later.inner.outgoing_connections == state.inner.outgoing_connections
            &&& later.tasks_generated == state.tasks_generated
            &&& later.port == state.port
            &&& later.keep_alive == state.keep_alive
            &&& later.ping_count == state.ping_count
            &&& later.pong_count == state.pong_count
            &&& action_after_command(state, peer, command) == SessionActionView::AwaitNext
        }),
{
}

/// A ping changes nothing and is answered with command number 4 over the connection that it came
/// by; where that is not on record the session fails.
pub proof fn law_ping_command<T>(state: NetworkView<T>, peer: SocketAddr)
    ensures
        state_after_command(state, peer, CommandView::Ping) == state,
        state.inner.outgoing_connections.contains(peer) ==> (action_after_command(
            state,
            peer,
            CommandView::Ping,
        ) matches SessionActionView::FeedPong(frame) && frame.len() == 4
            && spec_u32_from_le_bytes(frame) == 4),
        !state.inner.outgoing_connections.contains(peer) ==> action_after_command(
            state,
            peer,
            CommandView::Ping,
        ) == SessionActionView::Fail(Fault::UnknownSocket),
{
    lemma_auto_spec_u32_to_from_le_bytes();
    assert(encoding(CommandView::Pong) == spec_u32_to_le_bytes(PONG));
}

/// A pong is counted, and that is all.
pub proof fn law_pong_command<T>(state: NetworkView<T>, peer: SocketAddr)
    ensures
        ({
            let later = state_after_command(state, peer, CommandView::Pong);
            &&& later.pong_count == (state.pong_count + 1) % 0x1_0000_0000_0000_0000
            &&& later.ping_count == state.ping_count
            &&& later.inner == state.inner
            &&& later.tasks_generated == state.tasks_generated
            &&& later.port == state.port
            &&& later.keep_alive == state.keep_alive
            &&& action_after_command(state, peer, CommandView::Pong)
                == SessionActionView::AwaitNext
        }),
{
}

/// A session begins by running its timer and reading its stream.
pub proof fn law_session_begins_open<T>(peer: SocketAddr, incoming: Incoming<T>, fed: bool)
    ensures
        SessionView::begun(peer).peer == peer,
        SessionView::begun(peer).expects(SessionEvent::<T>::TimerFired),
        SessionView::begun(peer).expects(SessionEvent::Received(incoming)),
        !SessionView::begun(peer).expects(SessionEvent::<T>::PingFed(fed)),
        !SessionView::begun(peer).expects(SessionEvent::<T>::PongFed(fed)),
{
}

/// While a ping is being fed, only its outcome can follow; once it was fed, what could happen
/// before can happen again.
pub proof fn law_ping_is_settled_first<T>(
    session: SessionView,
    ping: Seq<u8>,
    event: SessionEvent<T>,
)
    requires
        session.expects(SessionEvent::<T>::TimerFired),
    ensures
        session.doing(SessionActionView::FeedPing(ping)).expects(event) <==> event is PingFed,
        session.doing(SessionActionView::FeedPing(ping)).doing(SessionActionView::RestartTimer)
            == session,
{
}

/// While a pong is being fed, its outcome or the timer can follow, but nothing from the stream;
/// once it was fed, the stream is read again.
pub proof fn law_pong_is_settled_first<T>(
    session: SessionView,
    pong: Seq<u8>,
    incoming: Incoming<T>,
    event: SessionEvent<T>,
)
    requires
        session.expects(SessionEvent::Received(incoming)),
    ensures
        session.doing(SessionActionView::FeedPong(pong)).expects(event) <==> (event is PongFed
            || event is TimerFired),
        session.doing(SessionActionView::FeedPong(pong)).doing(SessionActionView::AwaitNext)
            == session,
        session.doing(SessionActionView::AwaitNext) == session,
{
}

/// A session stays with its peer, and once it is over it stays over.
pub proof fn law_session_stays_with_its_peer(session: SessionView, action: SessionActionView)
    ensures
        session.doing(action).peer == session.peer,
        session.over ==> session.doing(action).over,
        action is Stop || action is Fail ==> session.doing(action).over,
        !session.over && !(action is Stop || action is Fail) ==> !session.doing(action).over,
{
}

/// The action that a session is given says what the one that it stands for says.
pub proof fn law_actions_stand_for_themselves(action: SessionAction)
    ensures
        match action {
            SessionAction::FeedPing(frame) => action@ == SessionActionView::FeedPing(frame@),
            SessionAction::RestartTimer => action@ == SessionActionView::RestartTimer,
            SessionAction::FeedPong(frame) => action@ == SessionActionView::FeedPong(frame@),
            SessionAction::AwaitNext => action@ == SessionActionView::AwaitNext,
            SessionAction::Stop => action@ == SessionActionView::Stop,
            SessionAction::Fail(fault) => action@ == SessionActionView::Fail(fault),
        },
{
}

/// A fault is told by its own message.
pub proof fn law_faults_are_told_apart(error: DecodeError)
    ensures
        Fault::StreamEnded.spec_message() == "Stream Ended"@,
        Fault::StreamError.spec_message() == "Stream Error"@,
        Fault::Undecodable(error).spec_message() == "Failed to deserialize incoming message"@,
        Fault::UnknownSocket.spec_message() == "Received on a socket we have no record of."@,
        Fault::PongNotSent.spec_message() == "Failed to send pong"@,
        Fault::NoPingSocket.spec_message() == "called `Option::unwrap()` on a `None` value"@,
        Fault::PingNotSent.spec_message() == "failed to send ping"@,
        Fault::ConnectionMissing.spec_message() == "Newly opened connection missing"@,
        Fault::IncomingFailed.spec_message() == "Failed to bind incoming connection."@,
        Fault::HandshakeFailed.spec_message() == "Error during handshake"@,
{
}

} // verus!
