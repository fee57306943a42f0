//! The typed event model: what clients send and what the server answers.

use vstd::prelude::*;
use crate::types::{ObjectProperties, ObjectType, SceneObject, Session, Transform};

verus! {

#[derive(Debug, PartialEq, Eq)]
pub struct JoinSessionPayload {
    pub session_id: String,
    pub display_name: String,
}

impl Clone for JoinSessionPayload {
    fn clone(&self) -> (r: Self)
        ensures
            r == *self,
    {
        JoinSessionPayload {
            session_id: self.session_id.clone(),
            display_name: self.display_name.clone(),
        }
    }
}

#[derive(Debug, PartialEq, Eq)]
pub struct CreateObjectPayload {
    pub object_id: u128,
    pub name: String,
    pub object_type: ObjectType,
    pub asset_id: Option<String>,
    pub asset_library: Option<String>,
    pub transform: Transform,
    pub properties: Option<ObjectProperties>,
}

impl Clone for CreateObjectPayload {
    fn clone(&self) -> (r: Self)
        ensures
            r == *self,
    {
        CreateObjectPayload {
            object_id: self.object_id,
            name: self.name.clone(),
            object_type: self.object_type,
            asset_id: self.asset_id.clone(),
            asset_library: self.asset_library.clone(),
            transform: self.transform,
            properties: self.properties,
        }
    }
}

#[derive(Clone, Copy, Debug, PartialEq, Eq)]
pub struct DeleteObjectPayload {
    pub object_id: u128,
}

#[derive(Clone, Copy, Debug, PartialEq, Eq)]
pub struct UpdateTransformPayload {
    pub object_id: u128,
    pub transform: Transform,
}

#[derive(Clone, Copy, Debug, PartialEq, Eq)]
pub struct UpdatePropertiesPayload {
    pub object_id: u128,
    pub properties: ObjectProperties,
}

#[derive(Debug, PartialEq, Eq)]
pub struct UpdateNamePayload {
    pub object_id: u128,
    pub name: String,
}

impl Clone for UpdateNamePayload {
    fn clone(&self) -> (r: Self)
        ensures
            r == *self,
    {
        UpdateNamePayload { object_id: self.object_id, name: self.name.clone() }
    }
}

#[derive(Clone, Copy, Debug, PartialEq, Eq)]
pub struct SelectObjectPayload {
    /// `None` clears the selection.
    pub object_id: Option<u128>,
}

/// What a client may send.
#[derive(Debug, PartialEq, Eq)]
pub enum ClientEvent {
    JoinSession(JoinSessionPayload),
    LeaveSession,
    CreateObject(CreateObjectPayload),
    DeleteObject(DeleteObjectPayload),
    UpdateTransform(UpdateTransformPayload),
    UpdateProperties(UpdatePropertiesPayload),
    UpdateName(UpdateNamePayload),
    SelectObject(SelectObjectPayload),
}

impl Clone for ClientEvent {
    fn clone(&self) -> (r: Self)
        ensures
            r == *self,
    {
        match self {
            ClientEvent::JoinSession(p) => ClientEvent::JoinSession(p.clone()),
            ClientEvent::LeaveSession => ClientEvent::LeaveSession,
            ClientEvent::CreateObject(p) => ClientEvent::CreateObject(p.clone()),
            ClientEvent::DeleteObject(p) => ClientEvent::DeleteObject(*p),
            ClientEvent::UpdateTransform(p) => ClientEvent::UpdateTransform(*p),
            ClientEvent::UpdateProperties(p) => ClientEvent::UpdateProperties(*p),
            ClientEvent::UpdateName(p) => ClientEvent::UpdateName(p.clone()),
            ClientEvent::SelectObject(p) => ClientEvent::SelectObject(*p),
        }
    }
}

/// The whole of a session, as sent to a client that has just joined it.
#[derive(Debug)]
pub struct FullStateSyncPayload {
    pub session: Session,
}

#[derive(Debug, PartialEq, Eq)]
pub struct ObjectCreatedPayload {
    pub object: SceneObject,
    pub created_by: u128,
}

#[derive(Clone, Copy, Debug, PartialEq, Eq)]
pub struct ObjectDeletedPayload {
    pub object_id: u128,
    pub deleted_by: u128,
}

#[derive(Clone, Copy, Debug, PartialEq, Eq)]
pub struct TransformUpdatedPayload {
    pub object_id: u128,
    pub transform: Transform,
    pub updated_by: u128,
}

#[derive(Clone, Copy, Debug, PartialEq, Eq)]
pub struct PropertiesUpdatedPayload {
    pub object_id: u128,
    pub properties: ObjectProperties,
    pub updated_by: u128,
}

#[derive(Debug, PartialEq, Eq)]
pub struct NameUpdatedPayload {
    pub object_id: u128,
    pub name: String,
    pub updated_by: u128,
}

#[derive(Debug, PartialEq, Eq)]
pub struct UserJoinedPayload {
    pub user_id: u128,
    pub display_name: String,
    pub color: [u8; 3],
}

#[derive(Clone, Copy, Debug, PartialEq, Eq)]
pub struct UserLeftPayload {
    pub user_id: u128,
}

#[derive(Clone, Copy, Debug, PartialEq, Eq)]
pub struct UserSelectedPayload {
    pub user_id: u128,
    pub object_id: Option<u128>,
}

#[derive(Debug, PartialEq, Eq)]
pub struct ErrorPayload {
    pub code: String,
    pub message: String,
}

impl Clone for ErrorPayload {
    fn clone(&self) -> (r: Self)
        ensures
            r == *self,
    {
        ErrorPayload { code: self.code.clone(), message: self.message.clone() }
    }
}

/// What the server may send.
#[derive(Debug)]
pub enum ServerEvent {
    FullStateSync(FullStateSyncPayload),
    ObjectCreated(ObjectCreatedPayload),
    ObjectDeleted(ObjectDeletedPayload),
    TransformUpdated(TransformUpdatedPayload),
    PropertiesUpdated(PropertiesUpdatedPayload),
    NameUpdated(NameUpdatedPayload),
    UserJoined(UserJoinedPayload),
    UserLeft(UserLeftPayload),
    UserSelected(UserSelectedPayload),
    Error(ErrorPayload),
}

impl ServerEvent {
    /// Whether two events say the same: equal, or both a full state with
    /// the same session in it.
    pub open spec fn agrees_with(self, other: ServerEvent) -> bool {
        match (self, other) {
            (ServerEvent::FullStateSync(a), ServerEvent::FullStateSync(b)) => a.session@
                == b.session@,
            _ => self == other,
        }
    }
}

impl Clone for ServerEvent {
    fn clone(&self) -> (r: Self)
        ensures
            r.agrees_with(*self),
    {
        match self {
            ServerEvent::FullStateSync(p) => ServerEvent::FullStateSync(
                FullStateSyncPayload { session: p.session.clone() },
            ),
            ServerEvent::ObjectCreated(p) => ServerEvent::ObjectCreated(
                ObjectCreatedPayload { object: p.object.clone(), created_by: p.created_by },
            ),
            ServerEvent::ObjectDeleted(p) => ServerEvent::ObjectDeleted(*p),
            ServerEvent::TransformUpdated(p) => ServerEvent::TransformUpdated(*p),
            ServerEvent::PropertiesUpdated(p) => ServerEvent::PropertiesUpdated(*p),
            ServerEvent::NameUpdated(p) => ServerEvent::NameUpdated(
                NameUpdatedPayload {
                    object_id: p.object_id,
                    name: p.name.clone(),
                    updated_by: p.updated_by,
                },
            ),
            ServerEvent::UserJoined(p) => ServerEvent::UserJoined(
                UserJoinedPayload {
                    user_id: p.user_id,
                    display_name: p.display_name.clone(),
                    color: p.color,
                },
            ),
            ServerEvent::UserLeft(p) => ServerEvent::UserLeft(*p),
            ServerEvent::UserSelected(p) => ServerEvent::UserSelected(*p),
            ServerEvent::Error(p) => ServerEvent::Error(p.clone()),
        }
    }
}

} // verus!
