//! The event dispatcher: applies a client event to the shared state and
//! says what is to be sent in return.
//!
//! An event is handled in two steps that never overlap: [`apply`] changes
//! the state and logs the event, and only then [`announce`] hands the
//! resulting notice to the recipients' sinks. [`dispatch`] does one after
//! the other with the clock's time and, for a join, a random user id.

use vstd::prelude::*;
use std::time::SystemTime;
use crate::broadcast::broadcast;
use crate::laws::state_stays_well_formed;
use crate::messages::{
    ClientEvent, FullStateSyncPayload, ServerEvent, UserLeftPayload, UserSelectedPayload,
};
use crate::model::NoticeView;
use crate::outside::{
    bindings_get, bindings_insert, bindings_remove, random_id, sessions_insert, sessions_remove,
    unix_epoch,
};
use crate::types::{AppState, AppStateView, Session};

verus! {

/// A notice to a session: what is sent, to which session, and the one
/// connection, if any, that is left out.
#[derive(Debug)]
pub struct Notice {
    pub session_id: String,
    pub event: ServerEvent,
    pub exclude: Option<u128>,
}

impl View for Notice {
    type V = NoticeView;

    open spec fn view(&self) -> NoticeView {
        NoticeView { session_id: self.session_id@, event: self.event, exclude: self.exclude }
    }
}

/// What applying one client event asks of the caller.
#[derive(Debug)]
pub struct Outcome {
    /// What the sender alone is sent.
    pub reply: Option<ServerEvent>,
    /// What the session is told.
    pub notice: Option<Notice>,
}

/// A notice, or none, by its view.
pub open spec fn notice_view(notice: Option<Notice>) -> Option<NoticeView> {
    match notice {
        Some(notice) => Some(notice@),
        None => None,
    }
}

/// Whether `reply` is what the sender of `event` is owed once the state is
/// `after`: the whole session that it has joined, as it is then, for a
/// join, and nothing for any other event.
pub open spec fn answers(reply: Option<ServerEvent>, event: ClientEvent, after: AppStateView) -> bool {
    match reply {
        Some(reply) => event matches ClientEvent::JoinSession(p) && reply matches ServerEvent::FullStateSync(
            sync,
        ) && sync.session@ == after.sessions[p.session_id@],
        None => !(event is JoinSession),
    }
}

/// Applies `event`, sent by the connection at time `now`, to the state, and
/// returns what is to be sent: to the sender, and to a session.
///
/// `fresh_id` is the id that the new user gets where the event is a join.
/// The sender of a join is sent the whole session as it is right after the
/// join; no other event is answered.
pub fn apply(
    state: &mut AppState,
    connection_id: u128,
    event: ClientEvent,
    now: u64,
    fresh_id: u128,
) -> (outcome: Outcome)
    ensures
        final(state)@ == old(state)@.step(connection_id, event, now, fresh_id),
        notice_view(outcome.notice) == old(state)@.notice(connection_id, event, now, fresh_id),
        answers(outcome.reply, event, final(state)@),
        old(state)@.well_formed() && old(state)@.connections.contains(connection_id)
            ==> final(state)@.well_formed(),
{
    proof {
        if old(state)@.well_formed() {
            state_stays_well_formed(old(state)@, connection_id, event, now, fresh_id);
        }
    }
    if let ClientEvent::JoinSession(p) = &event {
        let key = p.session_id.clone();
        let mut session = match sessions_remove(&mut state.sessions, key.as_str()) {
            Some(session) => session,
            None => Session::new(key.clone()),
        };
        let announcement = session.apply(fresh_id, event, now);
        bindings_insert(&mut state.connection_meta, connection_id, key.clone(), fresh_id);
        let snapshot = session.clone();
        sessions_insert(&mut state.sessions, key.clone(), session);
        assert(state@.sessions =~= old(state)@.step(connection_id, event, now, fresh_id).sessions);
        let notice = match announcement {
            Some(event) => Some(Notice { session_id: key, event, exclude: Some(connection_id) }),
            None => None,
        };
        return Outcome {
            reply: Some(ServerEvent::FullStateSync(FullStateSyncPayload { session: snapshot })),
            notice,
        };
    }
    let leaving = matches!(event, ClientEvent::LeaveSession);
    let binding = if leaving {
        bindings_remove(&mut state.connection_meta, connection_id)
    } else {
        bindings_get(&state.connection_meta, connection_id)
    };
    let (key, user_id) = match binding {
        Some(binding) => binding,
        None => {
            assert(state@.connection_meta =~= old(state)@.connection_meta);
            return Outcome { reply: None, notice: None };
        },
    };
    let exclude = if leaving {
        Some(connection_id)
    } else {
        None
    };
    let announcement = match sessions_remove(&mut state.sessions, key.as_str()) {
        Some(mut session) => {
            let announcement = session.apply(user_id, event, now);
            sessions_insert(&mut state.sessions, key.clone(), session);
            announcement
        },
        None => match event {
            ClientEvent::LeaveSession => Some(ServerEvent::UserLeft(UserLeftPayload { user_id })),
            ClientEvent::SelectObject(p) => Some(
                ServerEvent::UserSelected(
                    UserSelectedPayload { user_id, object_id: p.object_id },
                ),
            ),
            _ => None,
        },
    };
    assert(state@.sessions =~= old(state)@.step(connection_id, event, now, fresh_id).sessions);
    let notice = match announcement {
        Some(event) => Some(Notice { session_id: key, event, exclude }),
        None => None,
    };
    Outcome { reply: None, notice }
}

/// What dispatching one client event did.
#[derive(Debug)]
pub struct Dispatched {
    /// What the sender alone is to be sent.
    pub reply: Option<ServerEvent>,
    /// What the session was told.
    pub notice: Option<Notice>,
    /// How many sinks took the notice.
    pub delivered: usize,
}

impl Dispatched {
    /// Whether no more sinks took the notice than it has recipients in the
    /// state `after`, and none where there is no notice.
    pub open spec fn delivered_within(self, after: AppStateView) -> bool {
        match self.notice {
            Some(notice) => self.delivered <= after.recipients(
                notice.session_id@,
                notice.exclude,
            ).len(),
            None => self.delivered == 0,
        }
    }
}

/// Whether `done` reports the dispatch of `event`, sent by the connection,
/// that took the state from `before` to `after`: for some time and some
/// fresh id the state and the notice are what the state machine makes of
/// the event, the reply is what the sender is owed, and no more sinks took
/// the notice than it has recipients.
pub open spec fn dispatched(
    before: AppStateView,
    after: AppStateView,
    done: Dispatched,
    connection_id: u128,
    event: ClientEvent,
) -> bool {
    &&& exists|now: u64, fresh_id: u128|
        {
            &&& after == #[trigger] before.step(connection_id, event, now, fresh_id)
            &&& notice_view(done.notice) == before.notice(connection_id, event, now, fresh_id)
        }
    &&& answers(done.reply, event, after)
    &&& done.delivered_within(after)
}

/// The timestamp for a clock that reads `elapsed` milliseconds after the
/// Unix epoch, or `None` where it reads a time before it: the milliseconds,
/// cut to 64 bits, and zero for a clock before the epoch.
pub fn timestamp_from(elapsed: Option<u128>) -> (timestamp: u64)
    ensures
        timestamp == match elapsed {
            Some(millis) => millis % 0x1_0000_0000_0000_0000,
            None => 0,
        },
{
    match elapsed {
        Some(millis) => (millis % 0x1_0000_0000_0000_0000) as u64,
        None => 0,
    }
}

/// The wall clock's time in milliseconds since the Unix epoch (see
/// [`timestamp_from`]).
pub fn now_ms() -> u64 {
    let now = SystemTime::now();
    let elapsed = match now.duration_since(unix_epoch()) {
        Ok(duration) => Some(duration.as_millis()),
        Err(_) => None,
    };
    timestamp_from(elapsed)
}

/// Sends the notice of `outcome`, if there is one, to its recipients in
/// `state`, and reports what was done.
pub fn announce(state: &AppState, outcome: Outcome) -> (done: Dispatched)
    ensures
        done.reply == outcome.reply,
        done.notice == outcome.notice,
        done.delivered_within(state@),
{
    let delivered = match &outcome.notice {
        Some(notice) => broadcast(state, notice.session_id.as_str(), &notice.event, notice.exclude),
        None => 0,
    };
    Dispatched { reply: outcome.reply, notice: outcome.notice, delivered }
}

/// Handles one event from a client: applies it to the state as of now (see
/// [`apply`]), with a random id for the user where it is a join, and sends
/// the resulting notice to its recipients.
///
/// The time and the random id are not known beforehand: the state is what
/// `step` makes of it for some time and some id.
pub fn dispatch(state: &mut AppState, connection_id: u128, event: ClientEvent) -> (done: Dispatched)
    ensures
        dispatched(old(state)@, final(state)@, done, connection_id, event),
        old(state)@.well_formed() && old(state)@.connections.contains(connection_id)
            ==> final(state)@.well_formed(),
{
    let now = now_ms();
    let fresh_id = match &event {
        ClientEvent::JoinSession(_) => random_id(),
        _ => 0,
    };
    let outcome = apply(state, connection_id, event, now, fresh_id);
    announce(state, outcome)
}

} // verus!
