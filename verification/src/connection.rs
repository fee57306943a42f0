//! The life of one connection: it opens, handles what arrives while it is
//! open, and closes, leaving its session if it is still in one.

use vstd::prelude::*;
use tokio::sync::mpsc::Sender;
use crate::dispatch::{
    announce, apply, dispatch, dispatched, notice_view, Dispatched, Notice, Outcome,
};
use crate::laws::state_stays_well_formed;
use crate::messages::{ClientEvent, ServerEvent};
use crate::model::ConnectionPhase;
use crate::outside::{bindings_get, random_id, sinks_get, sinks_insert, sinks_remove};
use crate::types::AppState;

verus! {

/// What may arrive on an open connection.
#[derive(Debug)]
pub enum Inbound {
    /// A text frame that holds a client event.
    Event(ClientEvent),
    /// A text frame that holds none.
    Malformed,
    /// A frame that is not text.
    Other,
    /// The transport has closed or failed.
    Closed,
}

/// What the connection's loop does next.
#[derive(Debug)]
pub enum Next {
    /// Go on with the next frame.
    Continue(Dispatched),
    /// The connection is closed and cleaned up: end the loop.
    Stop(Dispatched),
}

/// Registers `sink` as the outbound sink of the connection.
pub fn register(state: &mut AppState, connection_id: u128, sink: Sender<ServerEvent>)
    ensures
        final(state)@ == old(state)@.opened(connection_id),
        old(state)@.well_formed() ==> final(state)@.well_formed(),
{
    proof {
        if old(state)@.well_formed() {
            state_stays_well_formed(old(state)@, connection_id, ClientEvent::LeaveSession, 0, 0);
        }
    }
    sinks_insert(&mut state.connections, connection_id, sink);
}

/// Opens a connection: gives it a random id, registers `sink` as its
/// outbound sink, and returns the id.
pub fn open_connection(state: &mut AppState, sink: Sender<ServerEvent>) -> (connection_id: u128)
    ensures
        final(state)@ == old(state)@.opened(connection_id),
        old(state)@.well_formed() ==> final(state)@.well_formed(),
{
    let connection_id = random_id();
    register(state, connection_id, sink);
    connection_id
}

/// Where the connection stands in its life.
pub fn phase(state: &AppState, connection_id: u128) -> (phase: ConnectionPhase)
    ensures
        phase == state@.phase(connection_id),
{
    if sinks_get(&state.connections, connection_id).is_none() {
        ConnectionPhase::Closed
    } else if bindings_get(&state.connection_meta, connection_id).is_some() {
        ConnectionPhase::Joined
    } else {
        ConnectionPhase::Open
    }
}

/// Closes a connection: removes its sink and, where it is still in a
/// session, takes its user out of the session, unbinds it and tells the
/// rest of the session that the user has left.
pub fn close_connection(state: &mut AppState, connection_id: u128) -> (done: Dispatched)
    ensures
        final(state)@ == old(state)@.closed(connection_id),
        notice_view(done.notice) == old(state)@.closing_notice(connection_id),
        done.reply.is_none(),
        done.delivered_within(final(state)@),
        old(state)@.well_formed() ==> final(state)@.well_formed(),
{
    proof {
        if old(state)@.well_formed() {
            state_stays_well_formed(old(state)@, connection_id, ClientEvent::LeaveSession, 0, 0);
        }
    }
    sinks_remove(&mut state.connections, connection_id);
    let left = apply(state, connection_id, ClientEvent::LeaveSession, 0, 0);
    let notice = match left.notice {
        Some(notice) => Some(
            Notice { session_id: notice.session_id, event: notice.event, exclude: None },
        ),
        None => None,
    };
    announce(state, Outcome { reply: None, notice })
}

/// Handles what has arrived on the connection and says whether its loop
/// goes on.
///
/// An event is dispatched. A frame that holds no event changes nothing and
/// sends nothing. When the transport has closed or failed the connection is
/// closed and the loop ends.
pub fn handle_inbound(state: &mut AppState, connection_id: u128, inbound: Inbound) -> (next: Next)
    ensures
        match inbound {
            Inbound::Event(event) => next matches Next::Continue(done) && dispatched(
                old(state)@,
                final(state)@,
                done,
                connection_id,
                event,
            ),
            Inbound::Malformed | Inbound::Other => next matches Next::Continue(done)
                && final(state)@ == old(state)@ && done.reply.is_none()
                && done.notice.is_none() && done.delivered == 0,
            Inbound::Closed => next matches Next::Stop(done)
                && final(state)@ == old(state)@.closed(connection_id)
                && notice_view(done.notice) == old(state)@.closing_notice(connection_id)
                && done.reply.is_none() && done.delivered_within(final(state)@),
        },
        old(state)@.well_formed() && old(state)@.connections.contains(connection_id)
            ==> final(state)@.well_formed(),
{
    match inbound {
        Inbound::Event(event) => Next::Continue(dispatch(state, connection_id, event)),
        Inbound::Malformed | Inbound::Other => Next::Continue(
            Dispatched { reply: None, notice: None, delivered: 0 },
        ),
        Inbound::Closed => Next::Stop(close_connection(state, connection_id)),
    }
}

} // verus!
