//! The life of a connection: opening, frames, closing.

use meerkat_server::connection::{
    close_connection, handle_inbound, open_connection, phase, register, Inbound, Next,
};
use meerkat_server::dispatch::dispatch;
use meerkat_server::messages::{
    ClientEvent, DeleteObjectPayload, JoinSessionPayload, ServerEvent, UserLeftPayload,
};
use meerkat_server::model::ConnectionPhase;
use meerkat_server::types::AppState;
use tokio::sync::mpsc::{channel, Receiver};

fn open(state: &mut AppState, connection: u128) -> Receiver<ServerEvent> {
    let (tx, rx) = channel::<ServerEvent>(32);
    register(state, connection, tx);
    rx
}

fn join(session: &str, name: &str) -> ClientEvent {
    ClientEvent::JoinSession(JoinSessionPayload {
        session_id: session.to_string(),
        display_name: name.to_string(),
    })
}

#[test]
fn a_connection_is_open_joined_open_and_closed() {
    let mut state = AppState::new();
    assert_eq!(phase(&state, 1), ConnectionPhase::Closed);
    let _rx = open(&mut state, 1);
    assert_eq!(phase(&state, 1), ConnectionPhase::Open);
    dispatch(&mut state, 1, join("room-1", "Alice"));
    assert_eq!(phase(&state, 1), ConnectionPhase::Joined);
    dispatch(&mut state, 1, ClientEvent::LeaveSession);
    assert_eq!(phase(&state, 1), ConnectionPhase::Open);
    dispatch(&mut state, 1, join("room-2", "Alice"));
    assert_eq!(phase(&state, 1), ConnectionPhase::Joined);
    close_connection(&mut state, 1);
    assert_eq!(phase(&state, 1), ConnectionPhase::Closed);
    assert_eq!(phase(&state, 2), ConnectionPhase::Closed);
}

#[test]
fn open_connection_registers_under_a_random_id() {
    let mut state = AppState::new();
    let (tx_a, _rx_a) = channel::<ServerEvent>(32);
    let (tx_b, _rx_b) = channel::<ServerEvent>(32);
    let a = open_connection(&mut state, tx_a);
    let b = open_connection(&mut state, tx_b);
    assert_ne!(a, b);
    assert_eq!(uuid::Uuid::from_u128(a).get_version_num(), 4);
    assert_eq!(state.connections.len(), 2);
    assert!(state.connections.contains_key(&a));
    assert!(state.connections.contains_key(&b));
    assert_eq!(phase(&state, a), ConnectionPhase::Open);
    assert_eq!(state.connection_meta.len(), 0);
    assert_eq!(state.sessions.len(), 0);
}

#[test]
fn closing_without_leaving_tells_the_session_once() {
    let mut state = AppState::new();
    let rx_a = open(&mut state, 1);
    let mut rx_b = open(&mut state, 2);
    let mut rx_c = open(&mut state, 3);
    dispatch(&mut state, 1, join("room-1", "Alice"));
    dispatch(&mut state, 2, join("room-1", "Bob"));
    dispatch(&mut state, 3, join("room-2", "Carol"));
    while rx_b.try_recv().is_ok() {}
    let alice = state.connection_meta.get(&1).unwrap().1;

    drop(rx_a);
    let done = close_connection(&mut state, 1);
    assert_eq!(done.delivered, 1);
    let notice = done.notice.unwrap();
    assert_eq!(notice.session_id, "room-1");
    assert_eq!(notice.exclude, None);
    assert!(matches!(notice.event, ServerEvent::UserLeft(UserLeftPayload { user_id }) if user_id == alice));
    assert!(matches!(rx_b.try_recv(), Ok(ServerEvent::UserLeft(UserLeftPayload { user_id })) if user_id == alice));
    assert!(rx_b.try_recv().is_err());
    assert!(rx_c.try_recv().is_err());

    assert!(!state.connections.contains_key(&1));
    assert!(!state.connection_meta.contains_key(&1));
    assert!(!state.sessions.get("room-1").unwrap().users.contains_key(&alice));
    assert_eq!(state.sessions.get("room-1").unwrap().users.len(), 1);

    let again = close_connection(&mut state, 1);
    assert!(again.notice.is_none());
    assert_eq!(again.delivered, 0);
    assert!(rx_b.try_recv().is_err());
}

#[test]
fn closing_and_leaving_end_in_the_same_session_state() {
    let mut closing = AppState::new();
    let mut leaving = AppState::new();
    let mut heard_on_close = Vec::new();
    let mut heard_on_leave = Vec::new();
    for (state, heard, close) in
        [(&mut closing, &mut heard_on_close, true), (&mut leaving, &mut heard_on_leave, false)]
    {
        let _rx_a = open(state, 1);
        let mut rx_b = open(state, 2);
        meerkat_server::dispatch::apply(state, 1, join("room-1", "Alice"), 10, 77);
        meerkat_server::dispatch::apply(state, 2, join("room-1", "Bob"), 11, 78);
        if close {
            close_connection(state, 1);
        } else {
            dispatch(state, 1, ClientEvent::LeaveSession);
        }
        while let Ok(event) = rx_b.try_recv() {
            heard.push(format!("{:?}", event));
        }
        let session = state.sessions.get("room-1").unwrap();
        assert_eq!(session.users.len(), 1);
        assert!(session.users.contains_key(&78));
        drop(session);
        assert!(!state.connection_meta.contains_key(&1));
        assert!(state.connection_meta.contains_key(&2));
    }
    assert_eq!(heard_on_close, heard_on_leave);
    assert_eq!(heard_on_close.len(), 1);
    assert!(closing.connections.get(&1).is_none());
    assert!(leaving.connections.get(&1).is_some());
}

#[test]
fn frames_without_an_event_change_nothing() {
    let mut state = AppState::new();
    let mut rx_a = open(&mut state, 1);
    let mut rx_b = open(&mut state, 2);
    dispatch(&mut state, 1, join("room-1", "Alice"));
    dispatch(&mut state, 2, join("room-1", "Bob"));
    while rx_a.try_recv().is_ok() {}

    for inbound in [Inbound::Malformed, Inbound::Other] {
        match handle_inbound(&mut state, 1, inbound) {
            Next::Continue(done) => {
                assert!(done.reply.is_none());
                assert!(done.notice.is_none());
                assert_eq!(done.delivered, 0);
            }
            Next::Stop(_) => panic!("the loop must go on"),
        }
    }
    assert_eq!(phase(&state, 1), ConnectionPhase::Joined);
    assert_eq!(state.sessions.get("room-1").unwrap().users.len(), 2);
    assert!(state.sessions.get("room-1").unwrap().event_log.is_empty());
    assert!(rx_a.try_recv().is_err());
    assert!(rx_b.try_recv().is_err());
}

#[test]
fn an_event_frame_is_dispatched_and_a_close_ends_the_loop() {
    let mut state = AppState::new();
    let _rx_a = open(&mut state, 1);
    let mut rx_b = open(&mut state, 2);
    dispatch(&mut state, 2, join("room-1", "Bob"));

    match handle_inbound(&mut state, 1, Inbound::Event(join("room-1", "Alice"))) {
        Next::Continue(done) => {
            assert!(matches!(done.reply, Some(ServerEvent::FullStateSync(_))));
            assert_eq!(done.delivered, 1);
        }
        Next::Stop(_) => panic!("the loop must go on"),
    }
    assert!(matches!(rx_b.try_recv(), Ok(ServerEvent::UserJoined(_))));

    match handle_inbound(
        &mut state,
        1,
        Inbound::Event(ClientEvent::DeleteObject(DeleteObjectPayload { object_id: 5 })),
    ) {
        Next::Continue(done) => {
            assert!(done.notice.is_none());
            assert_eq!(done.delivered, 0);
        }
        Next::Stop(_) => panic!("the loop must go on"),
    }
    assert_eq!(state.sessions.get("room-1").unwrap().event_log.len(), 1);

    match handle_inbound(&mut state, 1, Inbound::Closed) {
        Next::Stop(done) => {
            assert!(done.reply.is_none());
            assert_eq!(done.delivered, 1);
        }
        Next::Continue(_) => panic!("the loop must end"),
    }
    assert!(matches!(rx_b.try_recv(), Ok(ServerEvent::UserLeft(_))));
    assert_eq!(phase(&state, 1), ConnectionPhase::Closed);
}
