//! The concurrent maps, the outbound sinks and the other outside services
//! that the server builds on, each with the contract that the rest of the
//! library relies on. Nothing in this file is proved: the contracts restate
//! what the outside code documents.
//!
//! A `DashMap` is changed through a shared reference. The functions below
//! ask for an exclusive one wherever they change the map, so that a contract
//! can speak of the map before and after the call.

use vstd::prelude::*;
use std::time::{Duration, SystemTime, SystemTimeError};
use dashmap::DashMap;
use tokio::sync::mpsc::Sender;
use crate::messages::ServerEvent;
use crate::types::{SceneObject, Session, User};

verus! {

/// `dashmap::DashMap`: a concurrent hash map. What one holds is named by
/// the functions `objects_of` to `bindings_of` below.
#[verifier::external_type_specification]
#[verifier::external_body]
#[verifier::reject_recursive_types(K)]
#[verifier::reject_recursive_types(V)]
#[verifier::reject_recursive_types(S)]
pub struct ExDashMap<K, V, S>(DashMap<K, V, S>);

/// `tokio::sync::mpsc::Sender`: the sending half of a bounded queue whose
/// receiving half belongs to another task.
#[verifier::external_type_specification]
#[verifier::external_body]
#[verifier::reject_recursive_types(T)]
pub struct ExSender<T>(Sender<T>);

/// `std::time::SystemTime`: a reading of the wall clock.
#[verifier::external_type_specification]
#[verifier::external_body]
pub struct ExSystemTime(SystemTime);

/// `std::time::SystemTimeError`: what `SystemTime::duration_since` fails
/// with.
#[verifier::external_type_specification]
#[verifier::external_body]
pub struct ExSystemTimeError(SystemTimeError);

/// `SystemTime::now`: the wall clock's reading. It differs from call to
/// call, so nothing is promised of it.
pub assume_specification[ SystemTime::now ]() -> (now: SystemTime)
;

/// `SystemTime::duration_since`: the time from `earlier` to `later`, or an
/// error where `earlier` is the later of the two.
pub assume_specification[ SystemTime::duration_since ](
    later: &SystemTime,
    earlier: SystemTime,
) -> (elapsed: Result<Duration, SystemTimeError>)
;

/// `Duration::as_millis`: the whole milliseconds in the duration.
pub assume_specification[ Duration::as_millis ](duration: &Duration) -> (millis: u128)
;

/// `std::time::UNIX_EPOCH`: the first instant of 1970, UTC.
#[verifier::external_body]
pub(crate) fn unix_epoch() -> (epoch: SystemTime) {
    std::time::UNIX_EPOCH
}

/// `Uuid::new_v4`: a random identifier, as its 128-bit value. Its version
/// field says 4 and its variant field says RFC 9562; the other 122 bits are
/// random, so two calls may return the same value, however unlikely. The
/// call panics where the operating system cannot supply random bytes,
/// which no argument decides.
#[verifier::external_body]
pub(crate) fn random_id() -> (id: u128)
    ensures
        id & 0x0000_0000_0000_f000_c000_0000_0000_0000 == 0x0000_0000_0000_4000_8000_0000_0000_0000,
{
    uuid::Uuid::new_v4().as_u128()
}

/// The objects that a session's object map holds, by object id.
pub uninterp spec fn objects_of(m: DashMap<u128, SceneObject>) -> Map<u128, SceneObject>;

/// The users that a session's user map holds, by user id.
pub uninterp spec fn users_of(m: DashMap<u128, User>) -> Map<u128, User>;

/// The sessions that the session store holds, by session key.
pub uninterp spec fn sessions_of(m: DashMap<String, Session>) -> Map<Seq<char>, Session>;

/// The connections that have an outbound sink registered.
pub uninterp spec fn sinks_of(m: DashMap<u128, Sender<ServerEvent>>) -> Set<u128>;

/// The binding of each connection that has joined a session: the session's
/// key and the user's id.
pub uninterp spec fn bindings_of(m: DashMap<u128, (String, u128)>) -> Map<u128, (Seq<char>, u128)>;

/// `DashMap::new`: a map that holds nothing.
#[verifier::external_body]
pub(crate) fn objects_new() -> (m: DashMap<u128, SceneObject>)
    ensures
        objects_of(m) == (Map::<u128, SceneObject>::empty()),
{
    DashMap::new()
}

/// `DashMap::insert`: afterwards `id` maps to `object`, whether or not it
/// was a key before; no other key changes.
#[verifier::external_body]
pub(crate) fn objects_insert(m: &mut DashMap<u128, SceneObject>, id: u128, object: SceneObject)
    ensures
        objects_of(*final(m)) == objects_of(*old(m)).insert(id, object),
{
    m.insert(id, object);
}

/// `DashMap::remove`: takes the entry of `id` out and returns its value, or
/// returns `None` and leaves the map alone where `id` is no key.
#[verifier::external_body]
pub(crate) fn objects_remove(m: &mut DashMap<u128, SceneObject>, id: u128) -> (r: Option<SceneObject>)
    ensures
        objects_of(*final(m)) == objects_of(*old(m)).remove(id),
        r == (if objects_of(*old(m)).contains_key(id) {
            Some(objects_of(*old(m))[id])
        } else {
            None
        }),
{
    m.remove(&id).map(|(_, object)| object)
}

/// `DashMap::clone`: a map of its own with a clone of every entry.
#[verifier::external_body]
pub(crate) fn objects_duplicate(m: &DashMap<u128, SceneObject>) -> (r: DashMap<u128, SceneObject>)
    ensures
        objects_of(r) == objects_of(*m),
{
    m.clone()
}

/// `DashMap::new`: a map that holds nothing.
#[verifier::external_body]
pub(crate) fn users_new() -> (m: DashMap<u128, User>)
    ensures
        users_of(m) == (Map::<u128, User>::empty()),
{
    DashMap::new()
}

/// `DashMap::insert`: afterwards `id` maps to `user`, whether or not it was
/// a key before; no other key changes.
#[verifier::external_body]
pub(crate) fn users_insert(m: &mut DashMap<u128, User>, id: u128, user: User)
    ensures
        users_of(*final(m)) == users_of(*old(m)).insert(id, user),
{
    m.insert(id, user);
}

/// `DashMap::remove`: takes the entry of `id` out and returns its value, or
/// returns `None` and leaves the map alone where `id` is no key.
#[verifier::external_body]
pub(crate) fn users_remove(m: &mut DashMap<u128, User>, id: u128) -> (r: Option<User>)
    ensures
        users_of(*final(m)) == users_of(*old(m)).remove(id),
        r == (if users_of(*old(m)).contains_key(id) {
            Some(users_of(*old(m))[id])
        } else {
            None
        }),
{
    m.remove(&id).map(|(_, user)| user)
}

/// `DashMap::clone`: a map of its own with a clone of every entry.
#[verifier::external_body]
pub(crate) fn users_duplicate(m: &DashMap<u128, User>) -> (r: DashMap<u128, User>)
    ensures
        users_of(r) == users_of(*m),
{
    m.clone()
}

/// `DashMap::new`: a map that holds nothing.
#[verifier::external_body]
pub(crate) fn sessions_new() -> (m: DashMap<String, Session>)
    ensures
        sessions_of(m) == (Map::<Seq<char>, Session>::empty()),
{
    DashMap::new()
}

/// `DashMap::insert`: afterwards `key` maps to `session`, whether or not it
/// was a key before; no other key changes.
#[verifier::external_body]
pub(crate) fn sessions_insert(m: &mut DashMap<String, Session>, key: String, session: Session)
    ensures
        sessions_of(*final(m)) == sessions_of(*old(m)).insert(key@, session),
{
    m.insert(key, session);
}

/// `DashMap::remove`: takes the entry of `key` out and returns its value, or
/// returns `None` and leaves the map alone where `key` is no key.
#[verifier::external_body]
pub(crate) fn sessions_remove(m: &mut DashMap<String, Session>, key: &str) -> (r: Option<Session>)
    ensures
        sessions_of(*final(m)) == sessions_of(*old(m)).remove(key@),
        r == (if sessions_of(*old(m)).contains_key(key@) {
            Some(sessions_of(*old(m))[key@])
        } else {
            None
        }),
{
    m.remove(key).map(|(_, session)| session)
}

/// `DashMap::new`: a map that holds nothing.
#[verifier::external_body]
pub(crate) fn sinks_new() -> (m: DashMap<u128, Sender<ServerEvent>>)
    ensures
        sinks_of(m) == (Set::<u128>::empty()),
{
    DashMap::new()
}

/// `DashMap::insert`: afterwards `connection_id` is a key; no other key
/// comes or goes.
#[verifier::external_body]
pub(crate) fn sinks_insert(
    m: &mut DashMap<u128, Sender<ServerEvent>>,
    connection_id: u128,
    sink: Sender<ServerEvent>,
)
    ensures
        sinks_of(*final(m)) == sinks_of(*old(m)).insert(connection_id),
{
    m.insert(connection_id, sink);
}

/// `DashMap::remove`: afterwards `connection_id` is no key; no other key
/// comes or goes.
#[verifier::external_body]
pub(crate) fn sinks_remove(m: &mut DashMap<u128, Sender<ServerEvent>>, connection_id: u128)
    ensures
        sinks_of(*final(m)) == sinks_of(*old(m)).remove(connection_id),
{
    m.remove(&connection_id);
}

/// `DashMap::get`: a handle on the sink of `connection_id`, or `None` where
/// the connection has none registered.
#[verifier::external_body]
pub(crate) fn sinks_get(m: &DashMap<u128, Sender<ServerEvent>>, connection_id: u128) -> (r: Option<
    Sender<ServerEvent>,
>)
    ensures
        r.is_some() == sinks_of(*m).contains(connection_id),
{
    m.get(&connection_id).map(|entry| entry.value().clone())
}

/// `Sender::try_send`: hands `event` to the sink without waiting. Returns
/// whether the sink took it: it does not where its queue is full or its
/// receiver is gone, which depends on the receiving task, so nothing is
/// promised of the result.
#[verifier::external_body]
pub(crate) fn sink_try_send(sink: &Sender<ServerEvent>, event: ServerEvent) -> (delivered: bool) {
    sink.try_send(event).is_ok()
}

/// `DashMap::new`: a map that holds nothing.
#[verifier::external_body]
pub(crate) fn bindings_new() -> (m: DashMap<u128, (String, u128)>)
    ensures
        bindings_of(m) == (Map::<u128, (Seq<char>, u128)>::empty()),
{
    DashMap::new()
}

/// `DashMap::insert`: afterwards `connection_id` maps to the pair, whether
/// or not it was a key before; no other key changes.
#[verifier::external_body]
pub(crate) fn bindings_insert(
    m: &mut DashMap<u128, (String, u128)>,
    connection_id: u128,
    session_id: String,
    user_id: u128,
)
    ensures
        bindings_of(*final(m)) == bindings_of(*old(m)).insert(connection_id, (session_id@, user_id)),
{
    m.insert(connection_id, (session_id, user_id));
}

/// `DashMap::remove`: takes the entry of `connection_id` out and returns its
/// value, or returns `None` and leaves the map alone where it is no key.
#[verifier::external_body]
pub(crate) fn bindings_remove(m: &mut DashMap<u128, (String, u128)>, connection_id: u128) -> (r:
    Option<(String, u128)>)
    ensures
        bindings_of(*final(m)) == bindings_of(*old(m)).remove(connection_id),
        r.is_some() == bindings_of(*old(m)).contains_key(connection_id),
        r matches Some(pair) ==> (pair.0@, pair.1) == bindings_of(*old(m))[connection_id],
{
    m.remove(&connection_id).map(|(_, binding)| binding)
}

/// `DashMap::get`: a copy of the entry of `connection_id`, or `None` where
/// it is no key.
#[verifier::external_body]
pub(crate) fn bindings_get(m: &DashMap<u128, (String, u128)>, connection_id: u128) -> (r: Option<
    (String, u128),
>)
    ensures
        r.is_some() == bindings_of(*m).contains_key(connection_id),
        r matches Some(pair) ==> (pair.0@, pair.1) == bindings_of(*m)[connection_id],
{
    m.get(&connection_id).map(|entry| entry.value().clone())
}

/// `DashMap::iter`: every key once, in no order that callers may rely on.
#[verifier::external_body]
pub(crate) fn bindings_keys(m: &DashMap<u128, (String, u128)>) -> (r: Vec<u128>)
    ensures
        r@.no_duplicates(),
        r@.to_set() == bindings_of(*m).dom(),
{
    m.iter().map(|entry| *entry.key()).collect()
}

} // verus!
