//! The core of a real-time scene-synchronisation server: the session store,
//! the connection registry, the event dispatcher and the broadcast router.
//!
//! Clients that edit one scene join a session. Whatever one of them does is
//! applied to the session's state and announced to the session's other
//! connections. The server as a whole is a state machine, [`model`], whose
//! steps are taken by [`dispatch`] and [`connection`] and whose notices are
//! fanned out by [`broadcast`]; [`laws`] holds what is proved of it.
//!
//! The state lives in concurrent maps and the outbound queues belong to the
//! connections' tasks; [`outside`] states what the library assumes of both.
//! Every function that changes the state asks for exclusive access to it:
//! callers that share the state between tasks hold a lock for the length of
//! one call, and no longer.

pub mod broadcast;
pub mod connection;
pub mod dispatch;
pub mod laws;
pub mod messages;
pub mod model;
pub mod outside;
pub mod session;
pub mod types;
