//! The server as a state machine over plain values: what each client event
//! does to the shared state and which notice it sends out.

use vstd::prelude::*;
use crate::messages::{
    ClientEvent, CreateObjectPayload, NameUpdatedPayload, ObjectCreatedPayload,
    ObjectDeletedPayload, PropertiesUpdatedPayload, ServerEvent, TransformUpdatedPayload,
    UserJoinedPayload, UserLeftPayload, UserSelectedPayload,
};
use crate::types::{AppStateView, LogEntryView, SceneObject, SessionView, User};

verus! {

/// The colour given to every user who joins.
pub const JOIN_COLOR: [u8; 3] = [255, 0, 0];

/// The tag under which a client event goes on the wire and into the log.
pub open spec fn event_tag(event: ClientEvent) -> Seq<char> {
    match event {
        ClientEvent::JoinSession(_) => "JoinSession"@,
        ClientEvent::LeaveSession => "LeaveSession"@,
        ClientEvent::CreateObject(_) => "CreateObject"@,
        ClientEvent::DeleteObject(_) => "DeleteObject"@,
        ClientEvent::UpdateTransform(_) => "UpdateTransform"@,
        ClientEvent::UpdateProperties(_) => "UpdateProperties"@,
        ClientEvent::UpdateName(_) => "UpdateName"@,
        ClientEvent::SelectObject(_) => "SelectObject"@,
    }
}

/// Whether an event asks for a change to a session's objects. These are the
/// events that the log records.
pub open spec fn is_object_event(event: ClientEvent) -> bool {
    event is CreateObject || event is DeleteObject || event is UpdateTransform
        || event is UpdateProperties || event is UpdateName
}

/// The object that `user_id` creates from `payload` at time `now`.
pub open spec fn created_object(user_id: u128, payload: CreateObjectPayload, now: u64) -> SceneObject {
    SceneObject {
        object_id: payload.object_id,
        name: payload.name,
        object_type: payload.object_type,
        asset_id: payload.asset_id,
        asset_library: payload.asset_library,
        transform: payload.transform,
        properties: payload.properties,
        created_by: user_id,
        last_updated_by: user_id,
        last_updated_at: now,
    }
}

/// `object` with the provenance of an update by `user_id` at time `now`.
pub open spec fn touched(object: SceneObject, user_id: u128, now: u64) -> SceneObject {
    SceneObject { last_updated_by: user_id, last_updated_at: now, ..object }
}

/// The user that a connection becomes when it joins at time `now`.
pub open spec fn joined_user(display_name: String, now: u64) -> User {
    User { display_name, color: JOIN_COLOR, selected_object: None, connected_at: now }
}

impl SessionView {
    /// A session without objects, users or log entries.
    pub open spec fn empty(session_id: Seq<char>) -> SessionView {
        SessionView {
            session_id,
            objects: Map::empty(),
            users: Map::empty(),
            event_log: Seq::empty(),
        }
    }

    /// Whether the session is as the server builds it: every object is
    /// stored under its own id, and every log entry records an event that
    /// asks for a change to an object, under that event's tag.
    pub open spec fn well_formed(self) -> bool {
        &&& forall|id: u128| #[trigger]
            self.objects.contains_key(id) ==> self.objects[id].object_id == id
        &&& forall|i: int|
            0 <= i < self.event_log.len() ==> is_object_event((#[trigger] self.event_log[i]).payload)
                && self.event_log[i].event_type == event_tag(self.event_log[i].payload)
    }

    /// The session with one more log entry, for `event` at time `now`.
    pub open spec fn logged(self, event: ClientEvent, now: u64) -> SessionView {
        SessionView {
            event_log: self.event_log.push(
                LogEntryView { timestamp: now, event_type: event_tag(event), payload: event },
            ),
            ..self
        }
    }

    /// The objects after `event` by `user_id` at time `now`. An update of an
    /// object that the session does not hold changes nothing.
    pub open spec fn objects_after(self, user_id: u128, event: ClientEvent, now: u64) -> Map<
        u128,
        SceneObject,
    > {
        match event {
            ClientEvent::CreateObject(p) => self.objects.insert(
                p.object_id,
                created_object(user_id, p, now),
            ),
            ClientEvent::DeleteObject(p) => self.objects.remove(p.object_id),
            ClientEvent::UpdateTransform(p) => if self.objects.contains_key(p.object_id) {
                self.objects.insert(
                    p.object_id,
                    touched(
                        SceneObject { transform: p.transform, ..self.objects[p.object_id] },
                        user_id,
                        now,
                    ),
                )
            } else {
                self.objects
            },
            ClientEvent::UpdateProperties(p) => if self.objects.contains_key(p.object_id) {
                self.objects.insert(
                    p.object_id,
                    touched(
                        SceneObject {
                            properties: Some(p.properties),
                            ..self.objects[p.object_id]
                        },
                        user_id,
                        now,
                    ),
                )
            } else {
                self.objects
            },
            ClientEvent::UpdateName(p) => if self.objects.contains_key(p.object_id) {
                self.objects.insert(
                    p.object_id,
                    touched(SceneObject { name: p.name, ..self.objects[p.object_id] }, user_id, now),
                )
            } else {
                self.objects
            },
            _ => self.objects,
        }
    }

    /// The users after `event` by `user_id` at time `now`. A selection by a
    /// user that the session does not hold changes nothing.
    pub open spec fn users_after(self, user_id: u128, event: ClientEvent, now: u64) -> Map<
        u128,
        User,
    > {
        match event {
            ClientEvent::JoinSession(p) => self.users.insert(
                user_id,
                joined_user(p.display_name, now),
            ),
            ClientEvent::LeaveSession => self.users.remove(user_id),
            ClientEvent::SelectObject(p) => if self.users.contains_key(user_id) {
                self.users.insert(
                    user_id,
                    User { selected_object: p.object_id, ..self.users[user_id] },
                )
            } else {
                self.users
            },
            _ => self.users,
        }
    }

    /// The session after `event` by `user_id` at time `now`: its objects and
    /// users as the event leaves them, and one more log entry where the
    /// event asks for a change to an object, whether or not the object is
    /// there.
    pub open spec fn apply(self, user_id: u128, event: ClientEvent, now: u64) -> SessionView {
        let changed = SessionView {
            objects: self.objects_after(user_id, event, now),
            users: self.users_after(user_id, event, now),
            ..self
        };
        if is_object_event(event) {
            changed.logged(event, now)
        } else {
            changed
        }
    }

    /// What the session is told of `event` by `user_id` at time `now`.
    /// Nothing is said of a deletion or an update of an object that the
    /// session does not hold.
    pub open spec fn announcement(self, user_id: u128, event: ClientEvent, now: u64) -> Option<
        ServerEvent,
    > {
        match event {
            ClientEvent::JoinSession(p) => Some(
                ServerEvent::UserJoined(
                    UserJoinedPayload {
                        user_id,
                        display_name: p.display_name,
                        color: JOIN_COLOR,
                    },
                ),
            ),
            ClientEvent::LeaveSession => Some(ServerEvent::UserLeft(UserLeftPayload { user_id })),
            ClientEvent::CreateObject(p) => Some(
                ServerEvent::ObjectCreated(
                    ObjectCreatedPayload {
                        object: created_object(user_id, p, now),
                        created_by: user_id,
                    },
                ),
            ),
            ClientEvent::DeleteObject(p) => if self.objects.contains_key(p.object_id) {
                Some(
                    ServerEvent::ObjectDeleted(
                        ObjectDeletedPayload { object_id: p.object_id, deleted_by: user_id },
                    ),
                )
            } else {
                None
            },
            ClientEvent::UpdateTransform(p) => if self.objects.contains_key(p.object_id) {
                Some(
                    ServerEvent::TransformUpdated(
                        TransformUpdatedPayload {
                            object_id: p.object_id,
                            transform: p.transform,
                            updated_by: user_id,
                        },
                    ),
                )
            } else {
                None
            },
            ClientEvent::UpdateProperties(p) => if self.objects.contains_key(p.object_id) {
                Some(
                    ServerEvent::PropertiesUpdated(
                        PropertiesUpdatedPayload {
                            object_id: p.object_id,
                            properties: p.properties,
                            updated_by: user_id,
                        },
                    ),
                )
            } else {
                None
            },
            ClientEvent::UpdateName(p) => if self.objects.contains_key(p.object_id) {
                Some(
                    ServerEvent::NameUpdated(
                        NameUpdatedPayload {
                            object_id: p.object_id,
                            name: p.name,
                            updated_by: user_id,
                        },
                    ),
                )
            } else {
                None
            },
            ClientEvent::SelectObject(p) => Some(
                ServerEvent::UserSelected(
                    UserSelectedPayload { user_id, object_id: p.object_id },
                ),
            ),
        }
    }
}

/// Where a connection stands in its life: open and in no session, joined to
/// one, or closed.
#[derive(Clone, Copy, Debug, PartialEq, Eq)]
pub enum ConnectionPhase {
    Open,
    Joined,
    Closed,
}

/// A notice to a session: what is sent, to which session, and the one
/// connection, if any, that is left out.
pub struct NoticeView {
    pub session_id: Seq<char>,
    pub event: ServerEvent,
    pub exclude: Option<u128>,
}

impl AppStateView {
    /// A server with no session and no connection.
    pub open spec fn empty() -> AppStateView {
        AppStateView {
            sessions: Map::empty(),
            connections: Set::empty(),
            connection_meta: Map::empty(),
        }
    }

    /// Whether the state is as the server builds it: every session is
    /// stored under its own key and is well formed, and every connection
    /// that is bound is open and bound to a session that exists.
    pub open spec fn well_formed(self) -> bool {
        &&& forall|key: Seq<char>| #[trigger]
            self.sessions.contains_key(key) ==> self.sessions[key].session_id == key
                && self.sessions[key].well_formed()
        &&& forall|c: u128| #[trigger]
            self.connection_meta.contains_key(c) ==> self.connections.contains(c)
                && self.sessions.contains_key(self.connection_meta[c].0)
    }

    /// Whether every bound connection stands for a user of its own: the
    /// user is in the session that the connection is bound to, and no other
    /// connection is bound to the same user of the same session.
    pub open spec fn bindings_are_members(self) -> bool {
        &&& forall|c: u128| #[trigger]
            self.connection_meta.contains_key(c) ==> self.sessions.contains_key(
                self.connection_meta[c].0,
            ) && self.sessions[self.connection_meta[c].0].users.contains_key(
                self.connection_meta[c].1,
            )
        &&& forall|c: u128, d: u128|
            c != d && #[trigger] self.connection_meta.contains_key(c)
                && #[trigger] self.connection_meta.contains_key(d) ==> self.connection_meta[c]
                != self.connection_meta[d]
    }

    /// Whether the connection has joined a session and not left it since.
    pub open spec fn is_bound(self, connection_id: u128) -> bool {
        self.connection_meta.contains_key(connection_id)
    }

    /// The session stored under `session_id`, or an empty one where there
    /// is none yet.
    pub open spec fn session_or_empty(self, session_id: Seq<char>) -> SessionView {
        if self.sessions.contains_key(session_id) {
            self.sessions[session_id]
        } else {
            SessionView::empty(session_id)
        }
    }

    /// The state after the connection sends `event` at time `now`.
    ///
    /// A join creates the session where there is none, adds a user under
    /// `fresh_id` and binds the connection to the two. Any other event from
    /// a connection that is not bound changes nothing. From a bound one it
    /// is applied to the connection's session as its user, and a leave also
    /// unbinds the connection.
    pub open spec fn step(
        self,
        connection_id: u128,
        event: ClientEvent,
        now: u64,
        fresh_id: u128,
    ) -> AppStateView {
        match event {
            ClientEvent::JoinSession(p) => AppStateView {
                sessions: self.sessions.insert(
                    p.session_id@,
                    self.session_or_empty(p.session_id@).apply(fresh_id, event, now),
                ),
                connection_meta: self.connection_meta.insert(
                    connection_id,
                    (p.session_id@, fresh_id),
                ),
                ..self
            },
            _ => if self.is_bound(connection_id) {
                let (session_id, user_id) = self.connection_meta[connection_id];
                AppStateView {
                    sessions: if self.sessions.contains_key(session_id) {
                        self.sessions.insert(
                            session_id,
                            self.sessions[session_id].apply(user_id, event, now),
                        )
                    } else {
                        self.sessions
                    },
                    connection_meta: if event is LeaveSession {
                        self.connection_meta.remove(connection_id)
                    } else {
                        self.connection_meta
                    },
                    ..self
                }
            } else {
                self
            },
        }
    }

    /// The notice that goes out when the connection sends `event` at time
    /// `now`, if any.
    ///
    /// A join is announced to the session joined, a leave to the session
    /// left, both without the sender. Every other event of a bound
    /// connection is announced to its whole session as the session's state
    /// decides. A connection that is not bound causes no notice unless it
    /// joins.
    pub open spec fn notice(
        self,
        connection_id: u128,
        event: ClientEvent,
        now: u64,
        fresh_id: u128,
    ) -> Option<NoticeView> {
        match event {
            ClientEvent::JoinSession(p) => Some(
                NoticeView {
                    session_id: p.session_id@,
                    event: self.session_or_empty(p.session_id@).announcement(fresh_id, event, now)->0,
                    exclude: Some(connection_id),
                },
            ),
            _ => if self.is_bound(connection_id) {
                let (session_id, user_id) = self.connection_meta[connection_id];
                let exclude = if event is LeaveSession {
                    Some(connection_id)
                } else {
                    None
                };
                if event is LeaveSession || event is SelectObject || self.sessions.contains_key(
                    session_id,
                ) {
                    match self.session_or_empty(session_id).announcement(user_id, event, now) {
                        Some(event) => Some(NoticeView { session_id, event, exclude }),
                        None => None,
                    }
                } else {
                    None
                }
            } else {
                None
            },
        }
    }

    /// The state after the connection has opened: it has a sink, and
    /// nothing else has changed.
    pub open spec fn opened(self, connection_id: u128) -> AppStateView {
        AppStateView { connections: self.connections.insert(connection_id), ..self }
    }

    /// The state after the connection has closed: its sink is gone, and
    /// where it was bound it has left its session as by a `LeaveSession`,
    /// which depends neither on the time nor on a fresh id.
    pub open spec fn closed(self, connection_id: u128) -> AppStateView {
        AppStateView {
            connections: self.connections.remove(connection_id),
            ..self.step(connection_id, ClientEvent::LeaveSession, 0, 0)
        }
    }

    /// The notice that goes out when the connection closes: that of a
    /// `LeaveSession`, with nobody left out.
    pub open spec fn closing_notice(self, connection_id: u128) -> Option<NoticeView> {
        match self.notice(connection_id, ClientEvent::LeaveSession, 0, 0) {
            Some(notice) => Some(NoticeView { exclude: None, ..notice }),
            None => None,
        }
    }

    /// Where the connection stands in its life.
    pub open spec fn phase(self, connection_id: u128) -> ConnectionPhase {
        if !self.connections.contains(connection_id) {
            ConnectionPhase::Closed
        } else if self.is_bound(connection_id) {
            ConnectionPhase::Joined
        } else {
            ConnectionPhase::Open
        }
    }

    /// The connections that a notice to `session_id` goes to: those bound
    /// to that session that have a sink, but for the one left out.
    pub open spec fn recipients(self, session_id: Seq<char>, exclude: Option<u128>) -> Set<u128> {
        Set::new(
            |c: u128|
                self.connection_meta.contains_key(c) && self.connection_meta[c].0 == session_id
                    && exclude != Some(c) && self.connections.contains(c),
        )
    }
}

} // verus!
