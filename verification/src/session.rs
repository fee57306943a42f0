//! One session's state and what each client event does to it.

use vstd::prelude::*;
use crate::messages::{
    ClientEvent, NameUpdatedPayload, ObjectCreatedPayload, ObjectDeletedPayload,
    PropertiesUpdatedPayload, ServerEvent, TransformUpdatedPayload, UserJoinedPayload,
    UserLeftPayload, UserSelectedPayload,
};
use crate::model::{event_tag, JOIN_COLOR};
use crate::outside::{objects_insert, objects_remove, users_insert, users_remove};
use crate::types::{LogEntry, SceneObject, Session, User};

verus! {

/// The tag of `event`, as the log and the wire spell it.
pub fn event_type_name(event: &ClientEvent) -> (tag: String)
    ensures
        tag@ == event_tag(*event),
{
    match event {
        ClientEvent::JoinSession(_) => String::from_str("JoinSession"),
        ClientEvent::LeaveSession => String::from_str("LeaveSession"),
        ClientEvent::CreateObject(_) => String::from_str("CreateObject"),
        ClientEvent::DeleteObject(_) => String::from_str("DeleteObject"),
        ClientEvent::UpdateTransform(_) => String::from_str("UpdateTransform"),
        ClientEvent::UpdateProperties(_) => String::from_str("UpdateProperties"),
        ClientEvent::UpdateName(_) => String::from_str("UpdateName"),
        ClientEvent::SelectObject(_) => String::from_str("SelectObject"),
    }
}

impl Session {
    /// Appends the record of `event` at time `now` to the log.
    fn log(&mut self, event: ClientEvent, now: u64)
        ensures
            final(self)@ == old(self)@.logged(event, now),
    {
        let entry = LogEntry { timestamp: now, event_type: event_type_name(&event), payload: event };
        self.event_log.push(entry);
        assert(self@.event_log =~= old(self)@.logged(event, now).event_log);
    }

    /// Lets `user_id` do `event` at time `now`, and returns what the session
    /// is to be told of it.
    ///
    /// A join takes `user_id` as the id of the new user. A deletion or an
    /// update of an object that the session does not hold changes no object
    /// and is not announced, but is logged like any other.
    pub fn apply(&mut self, user_id: u128, event: ClientEvent, now: u64) -> (announcement: Option<
        ServerEvent,
    >)
        ensures
            final(self)@ == old(self)@.apply(user_id, event, now),
            announcement == old(self)@.announcement(user_id, event, now),
    {
        let announcement = match &event {
            ClientEvent::JoinSession(p) => {
                let user = User {
                    display_name: p.display_name.clone(),
                    color: JOIN_COLOR,
                    selected_object: None,
                    connected_at: now,
                };
                users_insert(&mut self.users, user_id, user);
                Some(
                    ServerEvent::UserJoined(
                        UserJoinedPayload {
                            user_id,
                            display_name: p.display_name.clone(),
                            color: JOIN_COLOR,
                        },
                    ),
                )
            },
            ClientEvent::LeaveSession => {
                users_remove(&mut self.users, user_id);
                Some(ServerEvent::UserLeft(UserLeftPayload { user_id }))
            },
            ClientEvent::CreateObject(p) => {
                let object = SceneObject {
                    object_id: p.object_id,
                    name: p.name.clone(),
                    object_type: p.object_type,
                    asset_id: p.asset_id.clone(),
                    asset_library: p.asset_library.clone(),
                    transform: p.transform,
                    properties: p.properties,
                    created_by: user_id,
                    last_updated_by: user_id,
                    last_updated_at: now,
                };
                objects_insert(&mut self.objects, p.object_id, object.clone());
                Some(ServerEvent::ObjectCreated(ObjectCreatedPayload { object, created_by: user_id }))
            },
            ClientEvent::DeleteObject(p) => {
                match objects_remove(&mut self.objects, p.object_id) {
                    Some(_) => Some(
                        ServerEvent::ObjectDeleted(
                            ObjectDeletedPayload { object_id: p.object_id, deleted_by: user_id },
                        ),
                    ),
                    None => None,
                }
            },
            ClientEvent::UpdateTransform(p) => {
                match objects_remove(&mut self.objects, p.object_id) {
                    Some(mut object) => {
                        object.transform = p.transform;
                        object.last_updated_by = user_id;
                        object.last_updated_at = now;
                        objects_insert(&mut self.objects, p.object_id, object);
                        assert(self@.objects =~= old(self)@.objects_after(user_id, event, now));
                        Some(
                            ServerEvent::TransformUpdated(
                                TransformUpdatedPayload {
                                    object_id: p.object_id,
                                    transform: p.transform,
                                    updated_by: user_id,
                                },
                            ),
                        )
                    },
                    None => {
                        assert(self@.objects =~= old(self)@.objects);
                        None
                    },
                }
            },
            ClientEvent::UpdateProperties(p) => {
                match objects_remove(&mut self.objects, p.object_id) {
                    Some(mut object) => {
                        object.properties = Some(p.properties);
                        object.last_updated_by = user_id;
                        object.last_updated_at = now;
                        objects_insert(&mut self.objects, p.object_id, object);
                        assert(self@.objects =~= old(self)@.objects_after(user_id, event, now));
                        Some(
                            ServerEvent::PropertiesUpdated(
                                PropertiesUpdatedPayload {
                                    object_id: p.object_id,
                                    properties: p.properties,
                                    updated_by: user_id,
                                },
                            ),
                        )
                    },
                    None => {
                        assert(self@.objects =~= old(self)@.objects);
                        None
                    },
                }
            },
            ClientEvent::UpdateName(p) => {
                match objects_remove(&mut self.objects, p.object_id) {
                    Some(mut object) => {
                        object.name = p.name.clone();
                        object.last_updated_by = user_id;
                        object.last_updated_at = now;
                        objects_insert(&mut self.objects, p.object_id, object);
                        assert(self@.objects =~= old(self)@.objects_after(user_id, event, now));
                        Some(
                            ServerEvent::NameUpdated(
                                NameUpdatedPayload {
                                    object_id: p.object_id,
                                    name: p.name.clone(),
                                    updated_by: user_id,
                                },
                            ),
                        )
                    },
                    None => {
                        assert(self@.objects =~= old(self)@.objects);
                        None
                    },
                }
            },
            ClientEvent::SelectObject(p) => {
                match users_remove(&mut self.users, user_id) {
                    Some(mut user) => {
                        user.selected_object = p.object_id;
                        users_insert(&mut self.users, user_id, user);
                        assert(self@.users =~= old(self)@.users_after(user_id, event, now));
                    },
                    None => {
                        assert(self@.users =~= old(self)@.users);
                    },
                }
                Some(
                    ServerEvent::UserSelected(
                        UserSelectedPayload { user_id, object_id: p.object_id },
                    ),
                )
            },
        };
        let logs = match &event {
            ClientEvent::CreateObject(_) => true,
            ClientEvent::DeleteObject(_) => true,
            ClientEvent::UpdateTransform(_) => true,
            ClientEvent::UpdateProperties(_) => true,
            ClientEvent::UpdateName(_) => true,
            _ => false,
        };
        if logs {
            self.log(event, now);
        }
        announcement
    }
}

} // verus!
