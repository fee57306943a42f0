//! The scene model: the entities that make up a session's state.
//!
//! Real-valued fields are carried as IEEE-754 bit patterns ([`Double`],
//! [`Single`]): the server stores and forwards them and never computes with
//! them, so they stay exact on their way through it.

use vstd::prelude::*;
use dashmap::DashMap;
use tokio::sync::mpsc::Sender;
use crate::messages::{ClientEvent, ServerEvent};
use crate::outside::{
    bindings_new, bindings_of, objects_duplicate, objects_new, objects_of, sessions_new,
    sessions_of, sinks_new, sinks_of, users_duplicate, users_new, users_of,
};

verus! {

/// A double-precision number, held as its IEEE-754 bit pattern.
#[derive(Clone, Copy, Debug, PartialEq, Eq)]
pub struct Double {
    pub bits: u64,
}

/// A single-precision number, held as its IEEE-754 bit pattern.
#[derive(Clone, Copy, Debug, PartialEq, Eq)]
pub struct Single {
    pub bits: u32,
}

/// Position, rotation and scale of an object, each an x/y/z triple.
#[derive(Clone, Copy, Debug, PartialEq, Eq)]
pub struct Transform {
    pub position: [Double; 3],
    pub rotation: [Double; 3],
    pub scale: [Double; 3],
}

#[derive(Clone, Copy, Debug, PartialEq, Eq)]
pub enum ObjectType {
    Cube,
    Sphere,
    Cylinder,
    Camera,
    PointLight,
    SpotLight,
    AreaLight,
    SunLight,
    /// A reference to an asset inside a library.
    AssetRef,
}

#[derive(Clone, Copy, Debug, PartialEq, Eq)]
pub enum LensType {
    Perspective,
    Orthographic,
}

#[derive(Clone, Copy, Debug, PartialEq, Eq)]
pub enum SensorFit {
    Auto,
    Horizontal,
    Vertical,
}

#[derive(Clone, Copy, Debug, PartialEq, Eq)]
pub struct CameraProperties {
    pub lens_type: LensType,
    /// Millimetres; used by a perspective lens.
    pub focal_length: Double,
    /// Used by an orthographic lens.
    pub orthographic_scale: Double,
    pub shift_x: Double,
    pub shift_y: Double,
    pub clip_start: Double,
    pub clip_end: Double,
    pub focal_distance: Double,
    pub aperture_fstop: Double,
    pub aperture_blades: u32,
    pub aperture_rotation: Double,
    pub aperture_ratio: Double,
    pub sensor_fit: SensorFit,
    pub sensor_width: Double,
    pub sensor_height: Double,
}

#[derive(Clone, Copy, Debug, PartialEq, Eq)]
pub struct PointLightProperties {
    pub color: [Single; 3],
    /// Kelvin.
    pub temperature: Single,
    pub exposure: Single,
    /// Watts.
    pub power: Single,
    /// Radius of the emitting sphere, for soft shadows.
    pub radius: Single,
    pub soft_falloff: bool,
    pub normalize: bool,
}

#[derive(Clone, Copy, Debug, PartialEq, Eq)]
pub struct SpotLightProperties {
    pub color: [Single; 3],
    pub temperature: Single,
    pub exposure: Single,
    pub normalize: bool,
    pub power: Single,
    pub radius: Single,
    pub soft_falloff: bool,
    pub angle: Single,
    pub blend: Single,
    pub show_cone: bool,
}

/// The outline of an area light.
#[derive(Clone, Copy, Debug, PartialEq, Eq)]
pub enum AreaLightShape {
    Rectangle,
    Square,
    Disk,
    Ellipse,
}

#[derive(Clone, Copy, Debug, PartialEq, Eq)]
pub struct AreaLightProperties {
    pub color: [Single; 3],
    pub temperature: Single,
    pub exposure: Single,
    pub normalize: bool,
    pub power: Single,
    pub shape: AreaLightShape,
    /// Used by `Rectangle` and `Ellipse`.
    pub size_x: Single,
    /// Used by `Rectangle` and `Ellipse`.
    pub size_y: Single,
    /// Used by `Square` and `Disk`.
    pub size: Single,
}

#[derive(Clone, Copy, Debug, PartialEq, Eq)]
pub struct SunLightProperties {
    pub color: [Single; 3],
    pub temperature: Single,
    pub exposure: Single,
    pub normalize: bool,
    pub strength: Single,
    pub angle: Single,
}

/// The typed payload of a camera or a light. The server stores and forwards
/// it without reading its fields.
#[derive(Clone, Copy, Debug, PartialEq, Eq)]
pub enum ObjectProperties {
    Camera(CameraProperties),
    PointLight(PointLightProperties),
    SpotLight(SpotLightProperties),
    AreaLight(AreaLightProperties),
    SunLight(SunLightProperties),
}

impl ObjectType {
    /// Whether an object of this type may carry `properties`: a camera
    /// carries camera properties, a light those of its own kind, and a
    /// primitive or an asset reference none. A camera or a light may also
    /// be without properties until it is given some.
    pub open spec fn fits(self, properties: Option<ObjectProperties>) -> bool {
        match properties {
            None => true,
            Some(ObjectProperties::Camera(_)) => self is Camera,
            Some(ObjectProperties::PointLight(_)) => self is PointLight,
            Some(ObjectProperties::SpotLight(_)) => self is SpotLight,
            Some(ObjectProperties::AreaLight(_)) => self is AreaLight,
            Some(ObjectProperties::SunLight(_)) => self is SunLight,
        }
    }

    /// Whether an object of this type may carry `properties`.
    pub fn accepts(&self, properties: &Option<ObjectProperties>) -> (ok: bool)
        ensures
            ok == self.fits(*properties),
    {
        match properties {
            None => true,
            Some(ObjectProperties::Camera(_)) => matches!(self, ObjectType::Camera),
            Some(ObjectProperties::PointLight(_)) => matches!(self, ObjectType::PointLight),
            Some(ObjectProperties::SpotLight(_)) => matches!(self, ObjectType::SpotLight),
            Some(ObjectProperties::AreaLight(_)) => matches!(self, ObjectType::AreaLight),
            Some(ObjectProperties::SunLight(_)) => matches!(self, ObjectType::SunLight),
        }
    }
}

/// One editable entity of the shared scene.
#[derive(Debug, PartialEq, Eq)]
pub struct SceneObject {
    pub object_id: u128,
    pub name: String,
    pub object_type: ObjectType,
    /// `None` unless the object is an asset reference.
    pub asset_id: Option<String>,
    /// `None` unless the object is an asset reference.
    pub asset_library: Option<String>,
    pub transform: Transform,
    /// `None` for primitives and asset references.
    pub properties: Option<ObjectProperties>,
    pub created_by: u128,
    pub last_updated_by: u128,
    /// Milliseconds since the Unix epoch.
    pub last_updated_at: u64,
}

impl SceneObject {
    /// Whether the object is consistent in itself: its properties go with
    /// its type, and it names an asset only if it is an asset reference.
    /// The server stores and forwards objects as clients send them; this is
    /// what clients are expected to keep to.
    pub open spec fn consistent(self) -> bool {
        &&& self.object_type.fits(self.properties)
        &&& self.object_type is AssetRef || (self.asset_id is None && self.asset_library is None)
    }

    /// Whether the object is consistent in itself.
    pub fn is_consistent(&self) -> (ok: bool)
        ensures
            ok == self.consistent(),
    {
        self.object_type.accepts(&self.properties) && (matches!(self.object_type, ObjectType::AssetRef)
            || (self.asset_id.is_none() && self.asset_library.is_none()))
    }
}

impl Clone for SceneObject {
    fn clone(&self) -> (r: Self)
        ensures
            r == *self,
    {
        SceneObject {
            object_id: self.object_id,
            name: self.name.clone(),
            object_type: self.object_type,
            asset_id: self.asset_id.clone(),
            asset_library: self.asset_library.clone(),
            transform: self.transform,
            properties: self.properties,
            created_by: self.created_by,
            last_updated_by: self.last_updated_by,
            last_updated_at: self.last_updated_at,
        }
    }
}

/// A participant of a session.
#[derive(Debug, PartialEq, Eq)]
pub struct User {
    pub display_name: String,
    pub color: [u8; 3],
    pub selected_object: Option<u128>,
    /// Milliseconds since the Unix epoch.
    pub connected_at: u64,
}

impl Clone for User {
    fn clone(&self) -> (r: Self)
        ensures
            r == *self,
    {
        User {
            display_name: self.display_name.clone(),
            color: self.color,
            selected_object: self.selected_object,
            connected_at: self.connected_at,
        }
    }
}

/// The record of one attempted mutation of a session.
#[derive(Debug, PartialEq, Eq)]
pub struct LogEntry {
    /// Milliseconds since the Unix epoch.
    pub timestamp: u64,
    /// The tag of the event in `payload`.
    pub event_type: String,
    /// The client event that asked for the mutation.
    pub payload: ClientEvent,
}

impl Clone for LogEntry {
    fn clone(&self) -> (r: Self)
        ensures
            r == *self,
    {
        LogEntry {
            timestamp: self.timestamp,
            event_type: self.event_type.clone(),
            payload: self.payload.clone(),
        }
    }
}

/// What a [`LogEntry`] holds, with its tag as a sequence of characters.
pub struct LogEntryView {
    pub timestamp: u64,
    pub event_type: Seq<char>,
    pub payload: ClientEvent,
}

impl View for LogEntry {
    type V = LogEntryView;

    open spec fn view(&self) -> LogEntryView {
        LogEntryView {
            timestamp: self.timestamp,
            event_type: self.event_type@,
            payload: self.payload,
        }
    }
}

/// A named room with its own objects, users and event log.
#[derive(Debug)]
pub struct Session {
    pub session_id: String,
    pub objects: DashMap<u128, SceneObject>,
    pub users: DashMap<u128, User>,
    /// Append-only, oldest entry first.
    pub event_log: Vec<LogEntry>,
}

/// What a [`Session`] holds: its key, its objects and users by id, and its
/// log, oldest entry first.
pub struct SessionView {
    pub session_id: Seq<char>,
    pub objects: Map<u128, SceneObject>,
    pub users: Map<u128, User>,
    pub event_log: Seq<LogEntryView>,
}

impl View for Session {
    type V = SessionView;

    open spec fn view(&self) -> SessionView {
        SessionView {
            session_id: self.session_id@,
            objects: objects_of(self.objects),
            users: users_of(self.users),
            event_log: self.event_log@.map_values(|entry: LogEntry| entry@),
        }
    }
}

impl Session {
    /// A session without objects, users or log entries.
    pub fn new(session_id: String) -> (session: Session)
        ensures
            session@ == SessionView::empty(session_id@),
    {
        let session = Session {
            session_id,
            objects: objects_new(),
            users: users_new(),
            event_log: Vec::new(),
        };
        assert(session@.event_log =~= Seq::empty());
        session
    }
}

impl Clone for Session {
    /// A copy of the session as it stands, with maps of its own.
    fn clone(&self) -> (copy: Self)
        ensures
            copy@ == self@,
    {
        Session {
            session_id: self.session_id.clone(),
            objects: objects_duplicate(&self.objects),
            users: users_duplicate(&self.users),
            event_log: self.event_log.clone(),
        }
    }
}

/// The server's shared state: the session store and the connection
/// registry.
pub struct AppState {
    pub sessions: DashMap<String, Session>,
    /// The outbound sink of each open connection.
    pub connections: DashMap<u128, Sender<ServerEvent>>,
    /// The session and user of each connection that has joined one. A
    /// connection without an entry is in no session.
    pub connection_meta: DashMap<u128, (String, u128)>,
}

/// What an [`AppState`] holds: the sessions by key, the connections that
/// have a sink, and the binding of each connection that has joined.
pub struct AppStateView {
    pub sessions: Map<Seq<char>, SessionView>,
    pub connections: Set<u128>,
    pub connection_meta: Map<u128, (Seq<char>, u128)>,
}

impl View for AppState {
    type V = AppStateView;

    open spec fn view(&self) -> AppStateView {
        AppStateView {
            sessions: sessions_of(self.sessions).map_values(|session: Session| session@),
            connections: sinks_of(self.connections),
            connection_meta: bindings_of(self.connection_meta),
        }
    }
}

impl AppState {
    /// A server with no session and no connection.
    pub fn new() -> (state: AppState)
        ensures
            state@ == AppStateView::empty(),
            state@.well_formed(),
    {
        let state = AppState {
            sessions: sessions_new(),
            connections: sinks_new(),
            connection_meta: bindings_new(),
        };
        assert(state@.sessions =~= Map::empty());
        state
    }
}

} // verus!
