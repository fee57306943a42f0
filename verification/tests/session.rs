//! What each event does to one session, on given values.

use meerkat_server::messages::{
    ClientEvent, CreateObjectPayload, DeleteObjectPayload, JoinSessionPayload,
    NameUpdatedPayload, ObjectCreatedPayload, ObjectDeletedPayload, PropertiesUpdatedPayload,
    SelectObjectPayload, ServerEvent, TransformUpdatedPayload, UpdateNamePayload,
    UpdatePropertiesPayload, UpdateTransformPayload, UserJoinedPayload, UserLeftPayload,
    UserSelectedPayload,
};
use meerkat_server::session::event_type_name;
use meerkat_server::types::{
    AreaLightProperties, AreaLightShape, CameraProperties, Double, LensType, LogEntry,
    ObjectProperties, ObjectType, SceneObject, SensorFit, Session, Single, SunLightProperties,
    Transform, User,
};

const ALICE: u128 = 0xa11ce;
const BOB: u128 = 0xb0b;

fn double(x: f64) -> Double {
    Double { bits: x.to_bits() }
}

fn single(x: f32) -> Single {
    Single { bits: x.to_bits() }
}

fn transform(x: f64) -> Transform {
    Transform {
        position: [double(x), double(2.0 * x), double(3.0 * x)],
        rotation: [double(0.0), double(0.0), double(0.0)],
        scale: [double(1.0), double(1.0), double(1.0)],
    }
}

fn chair(object_id: u128) -> CreateObjectPayload {
    CreateObjectPayload {
        object_id,
        name: "chair".to_string(),
        object_type: ObjectType::AssetRef,
        asset_id: Some("chair-01".to_string()),
        asset_library: Some("props".to_string()),
        transform: transform(1.0),
        properties: None,
    }
}

fn camera() -> ObjectProperties {
    ObjectProperties::Camera(CameraProperties {
        lens_type: LensType::Perspective,
        focal_length: double(50.0),
        orthographic_scale: double(1.0),
        shift_x: double(0.0),
        shift_y: double(0.0),
        clip_start: double(0.1),
        clip_end: double(1000.0),
        focal_distance: double(10.0),
        aperture_fstop: double(2.8),
        aperture_blades: 7,
        aperture_rotation: double(0.0),
        aperture_ratio: double(1.0),
        sensor_fit: SensorFit::Auto,
        sensor_width: double(36.0),
        sensor_height: double(24.0),
    })
}

fn stored(session: &Session, object_id: u128) -> Option<SceneObject> {
    session.objects.get(&object_id).map(|entry| entry.value().clone())
}

fn member(session: &Session, user_id: u128) -> Option<User> {
    session.users.get(&user_id).map(|entry| entry.value().clone())
}

fn announced(event: Option<ServerEvent>) -> ServerEvent {
    match event {
        Some(event) => event,
        None => panic!("nothing was announced"),
    }
}

#[test]
fn new_session_is_empty() {
    let session = Session::new("room-1".to_string());
    assert_eq!(session.session_id, "room-1");
    assert_eq!(session.objects.len(), 0);
    assert_eq!(session.users.len(), 0);
    assert!(session.event_log.is_empty());
}

#[test]
fn create_stores_logs_and_announces_the_object() {
    let mut session = Session::new("room-1".to_string());
    let announcement = session.apply(ALICE, ClientEvent::CreateObject(chair(7)), 1_700_000_000_123);

    let expected = SceneObject {
        object_id: 7,
        name: "chair".to_string(),
        object_type: ObjectType::AssetRef,
        asset_id: Some("chair-01".to_string()),
        asset_library: Some("props".to_string()),
        transform: transform(1.0),
        properties: None,
        created_by: ALICE,
        last_updated_by: ALICE,
        last_updated_at: 1_700_000_000_123,
    };
    assert_eq!(session.objects.len(), 1);
    assert_eq!(stored(&session, 7), Some(expected.clone()));
    match announced(announcement) {
        ServerEvent::ObjectCreated(p) => {
            assert_eq!(p, ObjectCreatedPayload { object: expected, created_by: ALICE })
        }
        other => panic!("expected ObjectCreated, got {:?}", other),
    }
    assert_eq!(
        session.event_log,
        vec![LogEntry {
            timestamp: 1_700_000_000_123,
            event_type: "CreateObject".to_string(),
            payload: ClientEvent::CreateObject(chair(7)),
        }]
    );
}

#[test]
fn create_replaces_an_object_of_the_same_id() {
    let mut session = Session::new("room-1".to_string());
    session.apply(ALICE, ClientEvent::CreateObject(chair(7)), 10);
    let mut second = chair(7);
    second.name = "stool".to_string();
    session.apply(BOB, ClientEvent::CreateObject(second), 20);

    let object = stored(&session, 7).unwrap();
    assert_eq!(session.objects.len(), 1);
    assert_eq!(object.name, "stool");
    assert_eq!(object.created_by, BOB);
    assert_eq!(object.last_updated_at, 20);
    assert_eq!(session.event_log.len(), 2);
}

#[test]
fn update_transform_keeps_the_rest_of_the_object() {
    let mut session = Session::new("room-1".to_string());
    session.apply(ALICE, ClientEvent::CreateObject(chair(7)), 10);
    let announcement = session.apply(
        BOB,
        ClientEvent::UpdateTransform(UpdateTransformPayload { object_id: 7, transform: transform(4.0) }),
        25,
    );

    assert_eq!(
        stored(&session, 7),
        Some(SceneObject {
            object_id: 7,
            name: "chair".to_string(),
            object_type: ObjectType::AssetRef,
            asset_id: Some("chair-01".to_string()),
            asset_library: Some("props".to_string()),
            transform: transform(4.0),
            properties: None,
            created_by: ALICE,
            last_updated_by: BOB,
            last_updated_at: 25,
        })
    );
    match announced(announcement) {
        ServerEvent::TransformUpdated(p) => assert_eq!(
            p,
            TransformUpdatedPayload { object_id: 7, transform: transform(4.0), updated_by: BOB }
        ),
        other => panic!("expected TransformUpdated, got {:?}", other),
    }
    assert_eq!(session.event_log.len(), 2);
    assert_eq!(session.event_log[1].event_type, "UpdateTransform");
    assert_eq!(session.event_log[1].timestamp, 25);
}

#[test]
fn update_properties_and_name_replace_one_field() {
    let mut session = Session::new("room-1".to_string());
    session.apply(ALICE, ClientEvent::CreateObject(chair(7)), 10);

    let announcement = session.apply(
        BOB,
        ClientEvent::UpdateProperties(UpdatePropertiesPayload { object_id: 7, properties: camera() }),
        30,
    );
    match announced(announcement) {
        ServerEvent::PropertiesUpdated(p) => assert_eq!(
            p,
            PropertiesUpdatedPayload { object_id: 7, properties: camera(), updated_by: BOB }
        ),
        other => panic!("expected PropertiesUpdated, got {:?}", other),
    }
    let object = stored(&session, 7).unwrap();
    assert_eq!(object.properties, Some(camera()));
    assert_eq!(object.name, "chair");
    assert_eq!((object.last_updated_by, object.last_updated_at), (BOB, 30));

    let announcement = session.apply(
        ALICE,
        ClientEvent::UpdateName(UpdateNamePayload { object_id: 7, name: "hero_chair".to_string() }),
        40,
    );
    match announced(announcement) {
        ServerEvent::NameUpdated(p) => assert_eq!(
            p,
            NameUpdatedPayload { object_id: 7, name: "hero_chair".to_string(), updated_by: ALICE }
        ),
        other => panic!("expected NameUpdated, got {:?}", other),
    }
    let object = stored(&session, 7).unwrap();
    assert_eq!(object.name, "hero_chair");
    assert_eq!(object.properties, Some(camera()));
    assert_eq!(object.created_by, ALICE);
    assert_eq!((object.last_updated_by, object.last_updated_at), (ALICE, 40));

    let tags: Vec<&str> = session.event_log.iter().map(|entry| entry.event_type.as_str()).collect();
    assert_eq!(tags, vec!["CreateObject", "UpdateProperties", "UpdateName"]);
}

#[test]
fn update_of_a_missing_object_is_logged_and_not_announced() {
    let mut session = Session::new("room-1".to_string());
    session.apply(ALICE, ClientEvent::CreateObject(chair(7)), 10);
    session.apply(ALICE, ClientEvent::DeleteObject(DeleteObjectPayload { object_id: 7 }), 11);

    let on_deleted = session.apply(
        ALICE,
        ClientEvent::UpdateTransform(UpdateTransformPayload { object_id: 7, transform: transform(2.0) }),
        12,
    );
    let on_unknown = session.apply(
        ALICE,
        ClientEvent::UpdateProperties(UpdatePropertiesPayload { object_id: 99, properties: camera() }),
        13,
    );
    let renamed = session.apply(
        ALICE,
        ClientEvent::UpdateName(UpdateNamePayload { object_id: 99, name: "ghost".to_string() }),
        14,
    );

    assert!(on_deleted.is_none());
    assert!(on_unknown.is_none());
    assert!(renamed.is_none());
    assert_eq!(session.objects.len(), 0);
    let tags: Vec<&str> = session.event_log.iter().map(|entry| entry.event_type.as_str()).collect();
    assert_eq!(
        tags,
        vec!["CreateObject", "DeleteObject", "UpdateTransform", "UpdateProperties", "UpdateName"]
    );
    assert_eq!(
        session.event_log[4],
        LogEntry {
            timestamp: 14,
            event_type: "UpdateName".to_string(),
            payload: ClientEvent::UpdateName(UpdateNamePayload {
                object_id: 99,
                name: "ghost".to_string()
            }),
        }
    );
}

#[test]
fn delete_removes_and_announces_only_what_is_there() {
    let mut session = Session::new("room-1".to_string());
    session.apply(ALICE, ClientEvent::CreateObject(chair(7)), 10);
    session.apply(ALICE, ClientEvent::CreateObject(chair(8)), 11);

    let first = session.apply(BOB, ClientEvent::DeleteObject(DeleteObjectPayload { object_id: 7 }), 12);
    match announced(first) {
        ServerEvent::ObjectDeleted(p) => {
            assert_eq!(p, ObjectDeletedPayload { object_id: 7, deleted_by: BOB })
        }
        other => panic!("expected ObjectDeleted, got {:?}", other),
    }
    assert!(stored(&session, 7).is_none());
    assert!(stored(&session, 8).is_some());

    let second = session.apply(BOB, ClientEvent::DeleteObject(DeleteObjectPayload { object_id: 7 }), 13);
    assert!(second.is_none());
    assert_eq!(session.objects.len(), 1);
    assert_eq!(session.event_log.len(), 4);
}

#[test]
fn join_select_and_leave_change_the_users_only() {
    let mut session = Session::new("room-1".to_string());
    let joined = session.apply(
        ALICE,
        ClientEvent::JoinSession(JoinSessionPayload {
            session_id: "room-1".to_string(),
            display_name: "Alice".to_string(),
        }),
        100,
    );
    match announced(joined) {
        ServerEvent::UserJoined(p) => assert_eq!(
            p,
            UserJoinedPayload { user_id: ALICE, display_name: "Alice".to_string(), color: [255, 0, 0] }
        ),
        other => panic!("expected UserJoined, got {:?}", other),
    }
    assert_eq!(
        member(&session, ALICE),
        Some(User {
            display_name: "Alice".to_string(),
            color: [255, 0, 0],
            selected_object: None,
            connected_at: 100,
        })
    );

    let selected = session.apply(
        ALICE,
        ClientEvent::SelectObject(SelectObjectPayload { object_id: Some(7) }),
        110,
    );
    match announced(selected) {
        ServerEvent::UserSelected(p) => {
            assert_eq!(p, UserSelectedPayload { user_id: ALICE, object_id: Some(7) })
        }
        other => panic!("expected UserSelected, got {:?}", other),
    }
    let alice = member(&session, ALICE).unwrap();
    assert_eq!(alice.selected_object, Some(7));
    assert_eq!(alice.connected_at, 100);

    let stranger = session.apply(
        BOB,
        ClientEvent::SelectObject(SelectObjectPayload { object_id: Some(7) }),
        111,
    );
    assert!(matches!(stranger, Some(ServerEvent::UserSelected(_))));
    assert!(member(&session, BOB).is_none());
    assert_eq!(session.users.len(), 1);

    let left = session.apply(ALICE, ClientEvent::LeaveSession, 120);
    match announced(left) {
        ServerEvent::UserLeft(p) => assert_eq!(p, UserLeftPayload { user_id: ALICE }),
        other => panic!("expected UserLeft, got {:?}", other),
    }
    assert_eq!(session.users.len(), 0);
    assert_eq!(session.objects.len(), 0);
    assert!(session.event_log.is_empty());
}

#[test]
fn a_copy_of_a_session_is_independent() {
    let mut session = Session::new("room-1".to_string());
    session.apply(ALICE, ClientEvent::CreateObject(chair(7)), 10);
    let copy = session.clone();
    session.apply(ALICE, ClientEvent::DeleteObject(DeleteObjectPayload { object_id: 7 }), 11);

    assert_eq!(copy.session_id, "room-1");
    assert_eq!(stored(&copy, 7).map(|object| object.name), Some("chair".to_string()));
    assert_eq!(copy.event_log.len(), 1);
    assert_eq!(session.objects.len(), 0);
    assert_eq!(session.event_log.len(), 2);
}

#[test]
fn event_tags_are_the_variant_names() {
    let events = vec![
        ClientEvent::JoinSession(JoinSessionPayload {
            session_id: "s".to_string(),
            display_name: "n".to_string(),
        }),
        ClientEvent::LeaveSession,
        ClientEvent::CreateObject(chair(1)),
        ClientEvent::DeleteObject(DeleteObjectPayload { object_id: 1 }),
        ClientEvent::UpdateTransform(UpdateTransformPayload { object_id: 1, transform: transform(1.0) }),
        ClientEvent::UpdateProperties(UpdatePropertiesPayload { object_id: 1, properties: camera() }),
        ClientEvent::UpdateName(UpdateNamePayload { object_id: 1, name: "n".to_string() }),
        ClientEvent::SelectObject(SelectObjectPayload { object_id: None }),
    ];
    let tags: Vec<String> = events.iter().map(event_type_name).collect();
    assert_eq!(
        tags,
        vec![
            "JoinSession",
            "LeaveSession",
            "CreateObject",
            "DeleteObject",
            "UpdateTransform",
            "UpdateProperties",
            "UpdateName",
            "SelectObject"
        ]
    );
}

#[test]
fn properties_go_with_their_object_type() {
    let sun = ObjectProperties::SunLight(SunLightProperties {
        color: [single(1.0), single(1.0), single(0.9)],
        temperature: single(5800.0),
        exposure: single(0.0),
        normalize: true,
        strength: single(3.0),
        angle: single(0.5),
    });
    let area = ObjectProperties::AreaLight(AreaLightProperties {
        color: [single(1.0), single(1.0), single(1.0)],
        temperature: single(6500.0),
        exposure: single(0.0),
        normalize: false,
        power: single(40.0),
        shape: AreaLightShape::Disk,
        size_x: single(0.0),
        size_y: single(0.0),
        size: single(1.5),
    });
    assert!(ObjectType::Camera.accepts(&Some(camera())));
    assert!(ObjectType::Camera.accepts(&None));
    assert!(ObjectType::SunLight.accepts(&Some(sun)));
    assert!(ObjectType::AreaLight.accepts(&Some(area)));
    assert!(!ObjectType::SpotLight.accepts(&Some(area)));
    assert!(!ObjectType::Cube.accepts(&Some(camera())));
    assert!(ObjectType::Cube.accepts(&None));

    let mut session = Session::new("room-1".to_string());
    session.apply(ALICE, ClientEvent::CreateObject(chair(7)), 10);
    let mut object = stored(&session, 7).unwrap();
    assert!(object.is_consistent());
    object.object_type = ObjectType::Sphere;
    assert!(!object.is_consistent());
    object.asset_id = None;
    object.asset_library = None;
    assert!(object.is_consistent());
    object.properties = Some(sun);
    assert!(!object.is_consistent());
}
