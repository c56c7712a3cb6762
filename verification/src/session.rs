//! Whole sessions: what connection handlers send over sequences of events.
//!
//! A handler takes the events of its stream one at a time. This module
//! describes what that amounts to over a whole session, for one connection
//! and for many connections whose events arrive interleaved, and proves that
//! a closed connection is silent and that connections do not interfere.

use vstd::prelude::*;
use crate::config::ServerConfig;
use crate::tcp::{
    closes, next_state, reply_after, ConnectionState, StreamEventView, TcpPayload,
};

verus! {

/// The state of a connection after a sequence of events, taken in order.
pub open spec fn state_after(
    state: ConnectionState,
    events: Seq<StreamEventView>,
) -> ConnectionState
    decreases events.len(),
{
    if events.len() == 0 {
        state
    } else {
        state_after(next_state(state, events.first()), events.drop_first())
    }
}

/// The payloads that a handler sends over a sequence of events, in the order
/// in which it sends them: the reply to each event, where one is owed, in
/// the order of the events.
pub open spec fn replies_to(
    config: ServerConfig,
    state: ConnectionState,
    events: Seq<StreamEventView>,
) -> Seq<TcpPayload>
    decreases events.len(),
{
    if events.len() == 0 {
        Seq::empty()
    } else {
        let rest = replies_to(config, next_state(state, events.first()), events.drop_first());
        match reply_after(config, state, events.first()) {
            Some(payload) => seq![payload] + rest,
            None => rest,
        }
    }
}

/// A closed connection stays closed and sends nothing, whatever events
/// follow.
pub proof fn lemma_closed_connection_is_silent(config: ServerConfig, events: Seq<StreamEventView>)
    ensures
        state_after(ConnectionState::Closed, events) == ConnectionState::Closed,
        replies_to(config, ConnectionState::Closed, events) == Seq::<TcpPayload>::empty(),
    decreases events.len(),
{
    if events.len() > 0 {
        lemma_closed_connection_is_silent(config, events.drop_first());
    }
}

/// A session can be cut anywhere: what is sent over the whole is what is sent
/// over the first part, followed by what is sent over the rest from the state
/// that the first part leaves. Replies therefore leave in the order in which
/// the requests were read.
pub proof fn lemma_session_splits(
    config: ServerConfig,
    state: ConnectionState,
    first: Seq<StreamEventView>,
    rest: Seq<StreamEventView>,
)
    ensures
        state_after(state, first + rest) == state_after(state_after(state, first), rest),
        replies_to(config, state, first + rest) == replies_to(config, state, first) + replies_to(
            config,
            state_after(state, first),
            rest,
        ),
    decreases first.len(),
{
    if first.len() == 0 {
        assert(first + rest =~= rest);
    } else {
        assert((first + rest).first() == first.first());
        assert((first + rest).drop_first() =~= first.drop_first() + rest);
        lemma_session_splits(config, next_state(state, first.first()), first.drop_first(), rest);
    }
}

/// Once the stream ends or a read fails, the handler has terminated: the
/// connection is closed and nothing that follows is answered. What was sent
/// is what was owed for the events before.
pub proof fn lemma_nothing_is_sent_after_the_stream_ends(
    config: ServerConfig,
    state: ConnectionState,
    before: Seq<StreamEventView>,
    end: StreamEventView,
    after: Seq<StreamEventView>,
)
    requires
        closes(end),
    ensures
        state_after(state, before + seq![end] + after) == ConnectionState::Closed,
        replies_to(config, state, before + seq![end] + after) == replies_to(config, state, before),
{
    let then = state_after(state, before);
    let closing = seq![end];
    assert(closing.drop_first() =~= Seq::<StreamEventView>::empty());
    assert(state_after(then, closing) == ConnectionState::Closed) by {
        assert(state_after(next_state(then, end), closing.drop_first()) == next_state(then, end));
    }
    assert(replies_to(config, then, closing) == Seq::<TcpPayload>::empty()) by {
        assert(replies_to(config, next_state(then, end), closing.drop_first())
            == Seq::<TcpPayload>::empty());
    }
    lemma_session_splits(config, state, before, closing);
    lemma_session_splits(config, state, before + closing, after);
    lemma_closed_connection_is_silent(config, after);
    assert(replies_to(config, state, before) + Seq::<TcpPayload>::empty() + Seq::<
        TcpPayload,
    >::empty() =~= replies_to(config, state, before));
}

/// The state of the connection with the given number among many. A
/// connection that has seen no event yet was just accepted, so it is open.
pub open spec fn state_of(states: Map<nat, ConnectionState>, connection: nat) -> ConnectionState {
    if states.dom().contains(connection) {
        states[connection]
    } else {
        ConnectionState::Open
    }
}

/// The events of one connection among the interleaved events of many, in
/// their order.
pub open spec fn events_of(
    connection: nat,
    events: Seq<(nat, StreamEventView)>,
) -> Seq<StreamEventView>
    decreases events.len(),
{
    if events.len() == 0 {
        Seq::empty()
    } else if events.first().0 == connection {
        seq![events.first().1] + events_of(connection, events.drop_first())
    } else {
        events_of(connection, events.drop_first())
    }
}

/// The payloads sent on one connection among those sent on many, in their
/// order.
pub open spec fn replies_on(
    connection: nat,
    replies: Seq<(nat, TcpPayload)>,
) -> Seq<TcpPayload>
    decreases replies.len(),
{
    if replies.len() == 0 {
        Seq::empty()
    } else if replies.first().0 == connection {
        seq![replies.first().1] + replies_on(connection, replies.drop_first())
    } else {
        replies_on(connection, replies.drop_first())
    }
}

/// What the handlers of many connections send when their events arrive
/// interleaved in some order. Each event carries the number of its
/// connection and is taken by the handler of that connection; each payload
/// carries the number of the connection it is sent on.
pub open spec fn served(
    config: ServerConfig,
    states: Map<nat, ConnectionState>,
    events: Seq<(nat, StreamEventView)>,
) -> Seq<(nat, TcpPayload)>
    decreases events.len(),
{
    if events.len() == 0 {
        Seq::empty()
    } else {
        let (connection, event) = events.first();
        let state = state_of(states, connection);
        let rest = served(
            config,
            states.insert(connection, next_state(state, event)),
            events.drop_first(),
        );
        match reply_after(config, state, event) {
            Some(payload) => seq![(connection, payload)] + rest,
            None => rest,
        }
    }
}

/// Connections do not interfere. However the events of many connections are
/// interleaved, what is sent on one connection is exactly what its handler
/// would send if it were served alone: the replies to its own events, in
/// their order. No reply is sent on another connection than the one whose
/// event it answers, and a connection that closes or fails changes nothing
/// for the others.
pub proof fn lemma_connections_do_not_interfere(
    config: ServerConfig,
    states: Map<nat, ConnectionState>,
    events: Seq<(nat, StreamEventView)>,
    connection: nat,
)
    ensures
        replies_on(connection, served(config, states, events)) == replies_to(
            config,
            state_of(states, connection),
            events_of(connection, events),
        ),
    decreases events.len(),
{
    if events.len() > 0 {
        let (first, event) = events.first();
        let state = state_of(states, first);
        let next = states.insert(first, next_state(state, event));
        let rest = served(config, next, events.drop_first());
        lemma_connections_do_not_interfere(config, next, events.drop_first(), connection);
        let own_rest = events_of(connection, events.drop_first());
        if let Some(payload) = reply_after(config, state, event) {
            let sent = seq![(first, payload)] + rest;
            assert(sent.first() == (first, payload));
            assert(sent.drop_first() =~= rest);
        }
        if first == connection {
            let own = seq![event] + own_rest;
            assert(own.first() == event);
            assert(own.drop_first() =~= own_rest);
        }
    }
}

} // verus!
