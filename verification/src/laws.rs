//! What holds of the server whatever its clients do, proved of the state
//! machine in [`crate::model`].

use vstd::prelude::*;
use crate::dispatch::answers;
use crate::messages::{
    ClientEvent, CreateObjectPayload, ObjectCreatedPayload, ServerEvent, UserLeftPayload,
};
use crate::model::{
    created_object, event_tag, is_object_event, joined_user, ConnectionPhase, NoticeView,
};
use crate::types::{AppStateView, LogEntryView, SessionView};

verus! {

/// A server that has just started is well formed.
pub proof fn empty_state_is_well_formed()
    ensures
        AppStateView::empty().well_formed(),
{
}

/// An event leaves a well-formed session well formed.
pub proof fn session_stays_well_formed(
    session: SessionView,
    user_id: u128,
    event: ClientEvent,
    now: u64,
)
    requires
        session.well_formed(),
    ensures
        session.apply(user_id, event, now).well_formed(),
        session.apply(user_id, event, now).session_id == session.session_id,
{
}

/// Whatever an open connection sends, whenever, a well-formed state stays
/// well formed; so does it when a connection opens or closes.
pub proof fn state_stays_well_formed(
    state: AppStateView,
    connection_id: u128,
    event: ClientEvent,
    now: u64,
    fresh_id: u128,
)
    requires
        state.well_formed(),
    ensures
        state.connections.contains(connection_id) ==> state.step(
            connection_id,
            event,
            now,
            fresh_id,
        ).well_formed(),
        state.opened(connection_id).well_formed(),
        state.closed(connection_id).well_formed(),
{
    if state.connections.contains(connection_id) {
        match event {
            ClientEvent::JoinSession(p) => {
                session_stays_well_formed(
                    state.session_or_empty(p.session_id@),
                    fresh_id,
                    event,
                    now,
                );
            },
            _ => {
                if state.is_bound(connection_id) {
                    let (session_id, user_id) = state.connection_meta[connection_id];
                    session_stays_well_formed(state.sessions[session_id], user_id, event, now);
                }
            },
        }
    }
    if state.is_bound(connection_id) {
        let (session_id, user_id) = state.connection_meta[connection_id];
        session_stays_well_formed(state.sessions[session_id], user_id, ClientEvent::LeaveSession, 0);
    }
}

/// As long as the id drawn for a join is not yet the id of a user of the
/// session joined, every bound connection stands for a user of its own: a
/// user is a member of its session from the join until its connection
/// leaves or closes, and no two connections share a user.
pub proof fn bound_users_stay_members(
    state: AppStateView,
    connection_id: u128,
    event: ClientEvent,
    now: u64,
    fresh_id: u128,
)
    requires
        state.bindings_are_members(),
        event matches ClientEvent::JoinSession(p) ==> !state.session_or_empty(
            p.session_id@,
        ).users.contains_key(fresh_id),
    ensures
        state.step(connection_id, event, now, fresh_id).bindings_are_members(),
        state.opened(connection_id).bindings_are_members(),
        state.closed(connection_id).bindings_are_members(),
{
}

/// A connection's life: it is open once it has a sink, joined after a
/// join, open again after a leave, and closed after it has closed. No
/// event changes where another connection stands.
pub proof fn connection_phases(
    state: AppStateView,
    connection_id: u128,
    event: ClientEvent,
    now: u64,
    fresh_id: u128,
    other: u128,
)
    requires
        other != connection_id,
    ensures
        state.opened(connection_id).phase(connection_id) != ConnectionPhase::Closed,
        state.closed(connection_id).phase(connection_id) == ConnectionPhase::Closed,
        state.phase(connection_id) != ConnectionPhase::Closed ==> state.step(
            connection_id,
            event,
            now,
            fresh_id,
        ).phase(connection_id) == (if event is JoinSession {
            ConnectionPhase::Joined
        } else if event is LeaveSession {
            ConnectionPhase::Open
        } else {
            state.phase(connection_id)
        }),
        state.step(connection_id, event, now, fresh_id).phase(other) == state.phase(other),
        state.opened(connection_id).phase(other) == state.phase(other),
        state.closed(connection_id).phase(other) == state.phase(other),
{
}

/// An event other than a join from a connection that is in no session
/// changes nothing and is announced to nobody.
pub proof fn unbound_connection_is_ignored(
    state: AppStateView,
    connection_id: u128,
    event: ClientEvent,
    now: u64,
    fresh_id: u128,
)
    requires
        !state.is_bound(connection_id),
        !(event is JoinSession),
    ensures
        state.step(connection_id, event, now, fresh_id) == state,
        state.notice(connection_id, event, now, fresh_id).is_none(),
{
}

/// A join answers with the whole session as it stands: every object and
/// every log entry that the session held before the join is in the reply,
/// and so is the user who has just joined, under the id that was drawn for
/// the join. The connection is bound to that session and that id.
pub proof fn join_reply_holds_whole_session(
    state: AppStateView,
    connection_id: u128,
    event: ClientEvent,
    now: u64,
    fresh_id: u128,
    reply: Option<ServerEvent>,
)
    requires
        event is JoinSession,
        answers(reply, event, state.step(connection_id, event, now, fresh_id)),
    ensures
        ({
            let joining = event->JoinSession_0;
            let key = joining.session_id@;
            let before = state.session_or_empty(key);
            let after = state.step(connection_id, event, now, fresh_id);
            &&& reply matches Some(ServerEvent::FullStateSync(sync))
            &&& after.sessions.contains_key(key)
            &&& sync.session@ == after.sessions[key]
            &&& sync.session@.objects == before.objects
            &&& sync.session@.event_log == before.event_log
            &&& sync.session@.users == before.users.insert(
                fresh_id,
                joined_user(joining.display_name, now),
            )
            &&& after.connection_meta[connection_id] == (key, fresh_id)
        }),
{
}

/// An update of an object that the session does not hold, because it was
/// deleted or never created, leaves the session without that object and is
/// announced to nobody, but the attempt is logged.
pub proof fn update_of_missing_object_is_only_logged(
    session: SessionView,
    user_id: u128,
    event: ClientEvent,
    now: u64,
)
    requires
        match event {
            ClientEvent::UpdateTransform(p) => !session.objects.contains_key(p.object_id),
            ClientEvent::UpdateProperties(p) => !session.objects.contains_key(p.object_id),
            ClientEvent::UpdateName(p) => !session.objects.contains_key(p.object_id),
            _ => false,
        },
    ensures
        session.apply(user_id, event, now).objects == session.objects,
        session.apply(user_id, event, now).users == session.users,
        session.announcement(user_id, event, now).is_none(),
        session.apply(user_id, event, now).event_log == session.event_log.push(
            LogEntryView { timestamp: now, event_type: event_tag(event), payload: event },
        ),
{
}

/// An event touches one object at most, the one it names, and stamps what
/// it writes: after a creation, or an update of an object that is there,
/// the object bears the acting user and the time of the event as its last
/// update; a creation also names the user as its creator, an update keeps
/// the creator and the id. Every other object is as it was.
pub proof fn only_the_target_changes(
    session: SessionView,
    user_id: u128,
    event: ClientEvent,
    now: u64,
    target: u128,
    other: u128,
)
    requires
        match event {
            ClientEvent::CreateObject(p) => p.object_id == target,
            ClientEvent::UpdateTransform(p) => p.object_id == target && session.objects.contains_key(
                target,
            ),
            ClientEvent::UpdateProperties(p) => p.object_id == target
                && session.objects.contains_key(target),
            ClientEvent::UpdateName(p) => p.object_id == target && session.objects.contains_key(
                target,
            ),
            _ => false,
        },
        other != target,
    ensures
        ({
            let after = session.apply(user_id, event, now);
            &&& after.objects.contains_key(target)
            &&& after.objects[target].last_updated_by == user_id
            &&& after.objects[target].last_updated_at == now
            &&& event is CreateObject ==> after.objects[target].created_by == user_id
                && after.objects[target].object_id == target
            &&& !(event is CreateObject) ==> after.objects[target].created_by
                == session.objects[target].created_by && after.objects[target].object_id
                == session.objects[target].object_id
            &&& after.objects.contains_key(other) == session.objects.contains_key(other)
            &&& session.objects.contains_key(other) ==> after.objects[other]
                == session.objects[other]
        }),
{
}

/// The log only grows: whatever the event, the log before it is the start
/// of the log after it, and an event that asks for a change to an object
/// adds exactly one entry.
pub proof fn log_is_append_only(session: SessionView, user_id: u128, event: ClientEvent, now: u64)
    ensures
        session.event_log.is_prefix_of(session.apply(user_id, event, now).event_log),
        session.apply(user_id, event, now).event_log.len() == session.event_log.len() + if is_object_event(
            event,
        ) {
            1int
        } else {
            0int
        },
{
}

/// No event destroys a session or touches a session other than the
/// sender's: every session but the one that the sender is bound to, or
/// joins, is after the event what it was before.
pub proof fn other_sessions_are_untouched(
    state: AppStateView,
    connection_id: u128,
    event: ClientEvent,
    now: u64,
    fresh_id: u128,
    other: Seq<char>,
)
    requires
        state.sessions.contains_key(other),
        match event {
            ClientEvent::JoinSession(p) => other != p.session_id@,
            _ => state.is_bound(connection_id) ==> other != state.connection_meta[connection_id].0,
        },
    ensures
        state.step(connection_id, event, now, fresh_id).sessions.contains_key(other),
        state.step(connection_id, event, now, fresh_id).sessions[other] == state.sessions[other],
{
}

/// No event destroys a session.
pub proof fn sessions_are_never_destroyed(
    state: AppStateView,
    connection_id: u128,
    event: ClientEvent,
    now: u64,
    fresh_id: u128,
    key: Seq<char>,
)
    requires
        state.sessions.contains_key(key),
    ensures
        state.step(connection_id, event, now, fresh_id).sessions.contains_key(key),
{
}

/// Every recipient of a notice is bound to the notice's session: a
/// connection bound to another session, or to none, is sent nothing.
pub proof fn recipients_are_in_the_session(
    state: AppStateView,
    session_id: Seq<char>,
    exclude: Option<u128>,
    connection_id: u128,
)
    requires
        state.recipients(session_id, exclude).contains(connection_id),
    ensures
        state.is_bound(connection_id),
        state.connection_meta[connection_id].0 == session_id,
        state.connections.contains(connection_id),
        exclude != Some(connection_id),
{
}

/// What a connection causes is announced in its own session only: the
/// notice of an event names the session that the sender is bound to, or
/// joins, so that by [`recipients_are_in_the_session`] no connection of
/// another session is sent it.
pub proof fn notice_stays_in_senders_session(
    state: AppStateView,
    connection_id: u128,
    event: ClientEvent,
    now: u64,
    fresh_id: u128,
    observer: u128,
)
    requires
        state.notice(connection_id, event, now, fresh_id).is_some(),
    ensures
        ({
            let notice = state.notice(connection_id, event, now, fresh_id)->0;
            let after = state.step(connection_id, event, now, fresh_id);
            &&& match event {
                ClientEvent::JoinSession(p) => notice.session_id == p.session_id@,
                _ => state.is_bound(connection_id) && notice.session_id
                    == state.connection_meta[connection_id].0,
            }
            &&& after.recipients(notice.session_id, notice.exclude).contains(observer) ==> {
                &&& after.is_bound(observer)
                &&& after.connection_meta[observer].0 == notice.session_id
            }
            &&& after.is_bound(observer) && after.connection_meta[observer].0 != notice.session_id
                ==> !after.recipients(notice.session_id, notice.exclude).contains(observer)
        }),
{
}

/// Who hears of an event: a join and a leave are told to everyone else in
/// the session, and every other event that is announced at all is told to
/// the whole session, the sender included as long as it has a sink.
pub proof fn sender_hears_all_but_its_join_and_leave(
    state: AppStateView,
    connection_id: u128,
    event: ClientEvent,
    now: u64,
    fresh_id: u128,
    member: u128,
)
    requires
        state.notice(connection_id, event, now, fresh_id).is_some(),
    ensures
        ({
            let notice = state.notice(connection_id, event, now, fresh_id)->0;
            let after = state.step(connection_id, event, now, fresh_id);
            let told = after.recipients(notice.session_id, notice.exclude);
            &&& told.contains(connection_id) == (!(event is JoinSession) && !(event is LeaveSession)
                && state.connections.contains(connection_id))
            &&& member != connection_id ==> told.contains(member) == (after.is_bound(member)
                && after.connection_meta[member].0 == notice.session_id
                && after.connections.contains(member))
        }),
{
}

/// A connection that closes while it is in a session leaves it as by a
/// `LeaveSession`: the sessions and the bindings end up the same, the same
/// `UserLeft` goes to the same connections, the members that remain, and
/// closing it once more announces nothing.
pub proof fn closing_is_leaving(state: AppStateView, connection_id: u128, now: u64, fresh_id: u128)
    requires
        state.is_bound(connection_id),
    ensures
        ({
            let (session_id, user_id) = state.connection_meta[connection_id];
            let left = state.step(connection_id, ClientEvent::LeaveSession, now, fresh_id);
            let closed = state.closed(connection_id);
            let said = ServerEvent::UserLeft(UserLeftPayload { user_id });
            &&& closed.sessions == left.sessions
            &&& closed.connection_meta == left.connection_meta
            &&& !closed.is_bound(connection_id)
            &&& state.notice(connection_id, ClientEvent::LeaveSession, now, fresh_id) == Some(
                NoticeView { session_id, event: said, exclude: Some(connection_id) },
            )
            &&& state.closing_notice(connection_id) == Some(
                NoticeView { session_id, event: said, exclude: None },
            )
            &&& closed.recipients(session_id, None) == left.recipients(
                session_id,
                Some(connection_id),
            )
            &&& closed.closing_notice(connection_id).is_none()
            &&& closed.closed(connection_id) == closed
        }),
{
    let closed = state.closed(connection_id);
    assert(closed.closed(connection_id).connections =~= closed.connections);
}

/// A connection that closes takes nobody with it: every other connection
/// keeps its sink and its binding, every session that the connection was
/// not in stays as it was, and the session that it was in loses only the
/// connection's user and keeps its objects and its log.
pub proof fn closing_affects_nobody_else(state: AppStateView, connection_id: u128, other: u128)
    requires
        other != connection_id,
    ensures
        ({
            let closed = state.closed(connection_id);
            &&& closed.connections.contains(other) == state.connections.contains(other)
            &&& closed.is_bound(other) == state.is_bound(other)
            &&& state.is_bound(other) ==> closed.connection_meta[other] == state.connection_meta[other]
            &&& closed.sessions.dom() == state.sessions.dom()
            &&& forall|key: Seq<char>| #[trigger]
                state.sessions.contains_key(key) ==> {
                    &&& closed.sessions[key].objects == state.sessions[key].objects
                    &&& closed.sessions[key].event_log == state.sessions[key].event_log
                    &&& closed.sessions[key].session_id == state.sessions[key].session_id
                    &&& closed.sessions[key].users == (if state.is_bound(connection_id)
                        && state.connection_meta[connection_id].0 == key {
                        state.sessions[key].users.remove(state.connection_meta[connection_id].1)
                    } else {
                        state.sessions[key].users
                    })
                }
        }),
{
}

/// One `CreateObject` call: who sends it, what it asks for, and when.
pub struct CreateCall {
    pub connection_id: u128,
    pub payload: CreateObjectPayload,
    pub now: u64,
}

impl CreateCall {
    /// The call as a client event.
    pub open spec fn event(self) -> ClientEvent {
        ClientEvent::CreateObject(self.payload)
    }
}

/// The state after the calls have been applied one after the other, in the
/// order in which the server came to handle them.
pub open spec fn after_creates(state: AppStateView, calls: Seq<CreateCall>) -> AppStateView
    decreases calls.len(),
{
    if calls.len() == 0 {
        state
    } else {
        after_creates(state, calls.drop_last()).step(
            calls.last().connection_id,
            calls.last().event(),
            calls.last().now,
            0,
        )
    }
}

/// The ids of the objects that the calls create.
pub open spec fn created_ids(calls: Seq<CreateCall>) -> Set<u128> {
    Set::new(|id: u128| exists|i: int| 0 <= i < calls.len() && #[trigger] calls[i].payload.object_id == id)
}

/// Whether every call comes from a connection that `state` binds to the
/// session `session_id`, and no two calls create the same object.
pub open spec fn distinct_creates_in(state: AppStateView, session_id: Seq<char>, calls: Seq<CreateCall>) -> bool {
    &&& state.sessions.contains_key(session_id)
    &&& forall|i: int|
        0 <= i < calls.len() ==> state.is_bound(#[trigger] calls[i].connection_id)
            && state.connection_meta[calls[i].connection_id].0 == session_id
    &&& forall|i: int, j: int|
        0 <= i < j < calls.len() ==> #[trigger] calls[i].payload.object_id
            != #[trigger] calls[j].payload.object_id
}

/// However `CreateObject` calls with distinct object ids, from connections
/// of one session, are interleaved, the session ends up with exactly the
/// objects it had and those created: each created id maps to the object of
/// its call. Nothing else about the server changes: the bindings, the
/// sinks and the other sessions are as before.
pub proof fn creates_add_exactly_their_objects(
    state: AppStateView,
    session_id: Seq<char>,
    calls: Seq<CreateCall>,
)
    requires
        distinct_creates_in(state, session_id, calls),
    ensures
        ({
            let after = after_creates(state, calls);
            &&& after.connection_meta == state.connection_meta
            &&& after.connections == state.connections
            &&& after.sessions.dom() == state.sessions.dom()
            &&& after.sessions[session_id].users == state.sessions[session_id].users
            &&& after.sessions[session_id].objects.dom() == state.sessions[session_id].objects.dom().union(
                created_ids(calls),
            )
            &&& after.sessions[session_id].event_log.len() == state.sessions[session_id].event_log.len()
                + calls.len()
            &&& forall|i: int|
                0 <= i < calls.len() ==> after.sessions[session_id].objects[#[trigger] calls[i].payload.object_id]
                    == created_object(
                    state.connection_meta[calls[i].connection_id].1,
                    calls[i].payload,
                    calls[i].now,
                )
            &&& forall|key: Seq<char>|
                key != session_id && state.sessions.contains_key(key) ==> #[trigger] after.sessions[key]
                    == state.sessions[key]
        }),
    decreases calls.len(),
{
    if calls.len() > 0 {
        let earlier = calls.drop_last();
        let last = calls.last();
        creates_add_exactly_their_objects(state, session_id, earlier);
        assert(created_ids(calls) =~= created_ids(earlier).insert(last.payload.object_id)) by {
            assert forall|id: u128| created_ids(calls).contains(id) implies created_ids(
                earlier,
            ).insert(last.payload.object_id).contains(id) by {
                let i = choose|i: int| 0 <= i < calls.len() && #[trigger] calls[i].payload.object_id == id;
                if i < earlier.len() {
                    assert(earlier[i].payload.object_id == id);
                }
            }
            assert forall|id: u128| created_ids(earlier).contains(id) implies created_ids(
                calls,
            ).contains(id) by {
                let i = choose|i: int| 0 <= i < earlier.len() && #[trigger] earlier[i].payload.object_id == id;
                assert(calls[i].payload.object_id == id);
            }
            assert(calls[calls.len() - 1].payload.object_id == last.payload.object_id);
        }
        let after = after_creates(state, calls);
        assert(after.sessions.dom() =~= state.sessions.dom());
        assert(after.sessions[session_id].objects.dom() =~= state.sessions[session_id].objects.dom().union(
            created_ids(calls),
        ));
        assert forall|i: int| 0 <= i < calls.len() implies after.sessions[session_id].objects[#[trigger] calls[i].payload.object_id]
            == created_object(
            state.connection_meta[calls[i].connection_id].1,
            calls[i].payload,
            calls[i].now,
        ) by {
            if i < earlier.len() {
                assert(earlier[i] == calls[i]);
                assert(calls[i].payload.object_id != calls[calls.len() - 1].payload.object_id);
            }
        }
    } else {
        assert(created_ids(calls) =~= Set::empty());
        assert(state.sessions[session_id].objects.dom().union(created_ids(calls))
            =~= state.sessions[session_id].objects.dom());
    }
}

/// A session without objects holds, after `CreateObject` calls with
/// distinct ids from its connections, exactly as many objects as there
/// were calls.
pub proof fn creates_in_empty_session_count(
    state: AppStateView,
    session_id: Seq<char>,
    calls: Seq<CreateCall>,
)
    requires
        distinct_creates_in(state, session_id, calls),
        state.sessions[session_id].objects.dom() == Set::<u128>::empty(),
    ensures
        after_creates(state, calls).sessions[session_id].objects.dom() == created_ids(calls),
        created_ids(calls).finite(),
        created_ids(calls).len() == calls.len(),
{
    creates_add_exactly_their_objects(state, session_id, calls);
    assert(Set::<u128>::empty().union(created_ids(calls)) =~= created_ids(calls));
    let ids = calls.map_values(|call: CreateCall| call.payload.object_id);
    assert(ids.to_set() =~= created_ids(calls)) by {
        assert forall|id: u128| ids.to_set().contains(id) implies created_ids(calls).contains(id) by {
            let i = choose|i: int| 0 <= i < ids.len() && ids[i] == id;
            assert(calls[i].payload.object_id == id);
        }
        assert forall|id: u128| created_ids(calls).contains(id) implies ids.to_set().contains(id) by {
            let i = choose|i: int| 0 <= i < calls.len() && #[trigger] calls[i].payload.object_id == id;
            assert(ids[i] == id);
        }
    }
    assert(ids.no_duplicates()) by {
        assert forall|i: int, j: int| 0 <= i < j < ids.len() implies ids[i] != ids[j] by {
            assert(calls[i].payload.object_id != calls[j].payload.object_id);
        }
    }
    ids.unique_seq_to_set();
    vstd::seq_lib::seq_to_set_is_finite(ids);
}

/// Every `CreateObject` call of a run is announced to the whole session:
/// it causes one `ObjectCreated` notice with the object created, with
/// nobody left out, and the notice's recipients are the session's
/// connections as they were before the run. So a session's connection is
/// named recipient of as many `ObjectCreated` notices as there are calls.
pub proof fn every_create_reaches_the_session(
    state: AppStateView,
    session_id: Seq<char>,
    calls: Seq<CreateCall>,
    k: int,
)
    requires
        distinct_creates_in(state, session_id, calls),
        0 <= k < calls.len(),
    ensures
        ({
            let before = after_creates(state, calls.take(k));
            let after = before.step(calls[k].connection_id, calls[k].event(), calls[k].now, 0);
            let user_id = state.connection_meta[calls[k].connection_id].1;
            &&& after == after_creates(state, calls.take(k + 1))
            &&& before.notice(calls[k].connection_id, calls[k].event(), calls[k].now, 0) == Some(
                NoticeView {
                    session_id,
                    event: ServerEvent::ObjectCreated(
                        ObjectCreatedPayload {
                            object: created_object(user_id, calls[k].payload, calls[k].now),
                            created_by: user_id,
                        },
                    ),
                    exclude: None,
                },
            )
            &&& after.recipients(session_id, None) == state.recipients(session_id, None)
        }),
{
    let head = calls.take(k);
    let upto = calls.take(k + 1);
    assert(upto.drop_last() =~= head);
    assert(forall|i: int| 0 <= i < upto.len() ==> upto[i] == calls[i]);
    assert(forall|i: int| 0 <= i < head.len() ==> head[i] == calls[i]);
    creates_add_exactly_their_objects(state, session_id, head);
    creates_add_exactly_their_objects(state, session_id, upto);
    assert(after_creates(state, upto).recipients(session_id, None) =~= state.recipients(
        session_id,
        None,
    ));
}

} // verus!
