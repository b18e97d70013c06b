use multiplay_rs::protocol::{
    GameNotice, OutgoingMessage, SessionControlMessage, TransportEvent, TransportOutgoingMessage,
};
use multiplay_rs::server::{
    admit_session, receive_from_transport, route_outgoing, ReceiveStep, SendStep, ServerError,
    MAX_UNORDERED_DATA_SIZE,
};
use multiplay_rs::session::{Session, SessionStatus, Sessions, Transport};

fn session(id: u32, authenticated: bool, admin: bool, transports: Vec<Transport>) -> Session {
    Session { id, authenticated, admin, transports }
}

fn table(sessions: Vec<Session>) -> Sessions {
    let mut table = Sessions::new();
    for s in sessions {
        table.insert(s.id, s);
    }
    table
}

fn secret() -> String {
    String::from("c0ffee")
}

#[test]
fn solicitation_without_secret_asks_the_game() {
    let mut sessions = table(vec![]);
    let step = receive_from_transport(&mut sessions, Transport::Bulk, &secret(), TransportEvent::Solicited(None));
    assert!(matches!(step, ReceiveStep::AskGame));
    assert!(sessions.is_empty());
}

#[test]
fn solicitation_with_admin_secret_is_admitted() {
    let mut sessions = table(vec![]);
    let step = receive_from_transport(&mut sessions, Transport::Bulk, &secret(), TransportEvent::Solicited(Some(secret())));
    assert!(matches!(step, ReceiveStep::AdmitAdmin));
}

#[test]
fn solicitation_with_wrong_secret_fails() {
    let mut sessions = table(vec![]);
    let step = receive_from_transport(
        &mut sessions,
        Transport::Bulk,
        &secret(),
        TransportEvent::Solicited(Some(String::from("guess"))),
    );
    assert!(matches!(step, ReceiveStep::Fail(ServerError::AdminAuthenticationFailed)));
}

#[test]
fn received_data_goes_to_the_game() {
    let mut sessions = table(vec![]);
    let step = receive_from_transport(&mut sessions, Transport::Bulk, &secret(), TransportEvent::Received(4, vec![1, 2]));
    match step {
        ReceiveStep::Notify(GameNotice::Received(4, data)) => assert_eq!(data, vec![1, 2]),
        _ => panic!("unexpected step"),
    }
}

#[test]
fn bulk_connection_notifies_the_game() {
    let mut sessions = table(vec![session(3, true, false, vec![])]);
    let step = receive_from_transport(&mut sessions, Transport::Bulk, &secret(), TransportEvent::Connected(3, None));
    assert!(matches!(step, ReceiveStep::Notify(GameNotice::Connected(3))));
    assert_eq!(sessions[&3].transports, vec![Transport::Bulk]);
}

#[test]
fn unordered_connection_alone_is_silent() {
    let mut sessions = table(vec![session(3, true, false, vec![])]);
    let step = receive_from_transport(&mut sessions, Transport::Unordered, &secret(), TransportEvent::Connected(3, None));
    assert!(matches!(step, ReceiveStep::Done));
    assert_eq!(sessions[&3].transports, vec![Transport::Unordered]);
}

#[test]
fn connection_to_unknown_session_is_ignored() {
    let mut sessions = table(vec![session(3, true, false, vec![])]);
    let step = receive_from_transport(&mut sessions, Transport::Bulk, &secret(), TransportEvent::Connected(9, None));
    assert!(matches!(step, ReceiveStep::Done));
    assert_eq!(sessions.len(), 1);
    assert!(sessions[&3].transports.is_empty());
}

#[test]
fn admin_connection_needs_the_secret() {
    let mut sessions = table(vec![session(5, true, true, vec![])]);
    let step = receive_from_transport(&mut sessions, Transport::Bulk, &secret(), TransportEvent::Connected(5, None));
    assert!(matches!(step, ReceiveStep::Fail(ServerError::MissingAdminSecret)));
    let step = receive_from_transport(
        &mut sessions,
        Transport::Bulk,
        &secret(),
        TransportEvent::Connected(5, Some(String::from("guess"))),
    );
    assert!(matches!(step, ReceiveStep::Fail(ServerError::InvalidAdminSecret)));
    assert!(sessions[&5].transports.is_empty());
    let step = receive_from_transport(&mut sessions, Transport::Bulk, &secret(), TransportEvent::Connected(5, Some(secret())));
    assert!(matches!(step, ReceiveStep::Notify(GameNotice::Connected(5))));
    assert_eq!(sessions[&5].transports, vec![Transport::Bulk]);
}

#[test]
fn losing_bulk_notifies_disconnection() {
    let mut sessions = table(vec![session(2, true, false, vec![Transport::Bulk, Transport::Unordered])]);
    let step = receive_from_transport(&mut sessions, Transport::Unordered, &secret(), TransportEvent::Disconnected(2));
    assert!(matches!(step, ReceiveStep::Done));
    let step = receive_from_transport(&mut sessions, Transport::Bulk, &secret(), TransportEvent::Disconnected(2));
    assert!(matches!(step, ReceiveStep::Notify(GameNotice::Disconnected(2))));
    assert!(sessions[&2].transports.is_empty());
    let step = receive_from_transport(&mut sessions, Transport::Bulk, &secret(), TransportEvent::Disconnected(8));
    assert!(matches!(step, ReceiveStep::Done));
}

#[test]
fn connect_then_disconnect_restores_the_session() {
    let mut sessions = table(vec![session(6, true, false, vec![Transport::Unordered])]);
    receive_from_transport(&mut sessions, Transport::Bulk, &secret(), TransportEvent::Connected(6, None));
    receive_from_transport(&mut sessions, Transport::Bulk, &secret(), TransportEvent::Disconnected(6));
    assert_eq!(sessions[&6].transports, vec![Transport::Unordered]);
    assert!(sessions[&6].authenticated);
}

#[test]
fn accepted_session_is_filed_under_the_given_id() {
    let mut sessions = table(vec![]);
    let reply = admit_session(&mut sessions, false, SessionControlMessage::Accept(Some(42)));
    assert!(matches!(reply, SessionControlMessage::Accept(Some(42))));
    let s = &sessions[&42];
    assert_eq!(s.id, 42);
    assert!(!s.admin && !s.authenticated && s.transports.is_empty());
    assert_eq!(s.get_status(), SessionStatus::Authenticating);
}

#[test]
fn accepted_admin_session_gets_an_id() {
    let mut sessions = table(vec![]);
    let reply = admit_session(&mut sessions, true, SessionControlMessage::Accept(None));
    match reply {
        SessionControlMessage::Accept(Some(id)) => {
            assert!(sessions[&id].admin);
            assert_eq!(sessions[&id].id, id);
            assert_eq!(sessions.len(), 1);
        }
        _ => panic!("unexpected reply"),
    }
}

#[test]
fn rejection_is_passed_on() {
    let mut sessions = table(vec![]);
    let reply = admit_session(&mut sessions, false, SessionControlMessage::Reject(Some(String::from("full"))));
    match reply {
        SessionControlMessage::Reject(Some(reason)) => assert_eq!(reason, "full"),
        _ => panic!("unexpected reply"),
    }
    assert!(sessions.is_empty());
}

fn routing_table() -> Sessions {
    table(vec![
        session(9, true, false, vec![Transport::Bulk, Transport::Unordered]),
        session(1, true, false, vec![Transport::Bulk]),
        session(5, false, false, vec![Transport::Bulk]),
        session(3, true, false, vec![Transport::Unordered, Transport::Bulk]),
        session(7, true, false, vec![Transport::Unordered]),
    ])
}

#[test]
fn small_broadcast_prefers_unordered() {
    let sessions = routing_table();
    match route_outgoing(&sessions, OutgoingMessage::Broadcast(vec![0; 10])) {
        SendStep::Deliver(route) => {
            assert_eq!(route.unordered, vec![3, 9]);
            assert_eq!(route.bulk, vec![1]);
            assert_eq!(route.data, vec![0; 10]);
        }
        SendStep::Stop => panic!("unexpected stop"),
    }
}

#[test]
fn large_broadcast_goes_bulk() {
    let sessions = routing_table();
    match route_outgoing(&sessions, OutgoingMessage::Broadcast(vec![0; MAX_UNORDERED_DATA_SIZE + 1])) {
        SendStep::Deliver(route) => {
            assert!(route.unordered.is_empty());
            assert_eq!(route.bulk, vec![1, 3, 9]);
            assert!(route.unordered_message().is_none());
            match route.bulk_message() {
                Some(TransportOutgoingMessage::Send(ids, data)) => {
                    assert_eq!(ids, vec![1, 3, 9]);
                    assert_eq!(data.len(), 1025);
                }
                _ => panic!("expected a bulk message"),
            }
        }
        SendStep::Stop => panic!("unexpected stop"),
    }
}

#[test]
fn payload_at_the_limit_may_go_unordered() {
    let sessions = routing_table();
    match route_outgoing(&sessions, OutgoingMessage::Send(9, vec![7; 1024])) {
        SendStep::Deliver(route) => {
            assert_eq!(route.unordered, vec![9]);
            assert!(route.bulk.is_empty());
            match route.unordered_message() {
                Some(TransportOutgoingMessage::Send(ids, data)) => {
                    assert_eq!(ids, vec![9]);
                    assert_eq!(data, vec![7; 1024]);
                }
                _ => panic!("expected an unordered message"),
            }
            assert!(route.bulk_message().is_none());
        }
        SendStep::Stop => panic!("unexpected stop"),
    }
}

#[test]
fn messages_to_absent_or_unconnected_sessions_go_nowhere() {
    let sessions = routing_table();
    for id in [5u32, 7, 11] {
        match route_outgoing(&sessions, OutgoingMessage::Send(id, vec![1])) {
            SendStep::Deliver(route) => {
                assert!(route.unordered.is_empty());
                assert!(route.bulk.is_empty());
            }
            SendStep::Stop => panic!("unexpected stop"),
        }
    }
}

#[test]
fn halt_stops_sending() {
    let sessions = routing_table();
    assert!(matches!(route_outgoing(&sessions, OutgoingMessage::Halt), SendStep::Stop));
}

#[test]
fn connection_news_and_failed_admin_requests_end_the_receive_loop() {
    let mut sessions = table(vec![session(3, true, false, vec![])]);
    let step = receive_from_transport(&mut sessions, Transport::Bulk, &secret(), TransportEvent::Connected(3, None));
    assert!(step.ends_receive_loop());
    let step = receive_from_transport(&mut sessions, Transport::Bulk, &secret(), TransportEvent::Disconnected(3));
    assert!(step.ends_receive_loop());
    let step = receive_from_transport(&mut sessions, Transport::Bulk, &secret(), TransportEvent::Received(3, vec![]));
    assert!(!step.ends_receive_loop());
    let step = receive_from_transport(
        &mut sessions,
        Transport::Bulk,
        &secret(),
        TransportEvent::Solicited(Some(String::from("guess"))),
    );
    assert!(step.ends_receive_loop());
    let step = receive_from_transport(&mut sessions, Transport::Bulk, &secret(), TransportEvent::Solicited(None));
    assert!(!step.ends_receive_loop());
    let step = receive_from_transport(&mut sessions, Transport::Unordered, &secret(), TransportEvent::Connected(3, None));
    assert!(!step.ends_receive_loop());
}

#[test]
fn misfiled_sessions_are_still_served() {
    let mut sessions = Sessions::new();
    sessions.insert(1, session(2, true, false, vec![]));
    assert!(multiplay_rs::session_table::table_is_valid(&sessions));
    let step = receive_from_transport(&mut sessions, Transport::Bulk, &secret(), TransportEvent::Connected(1, None));
    assert!(matches!(step, ReceiveStep::Notify(GameNotice::Connected(1))));
    match route_outgoing(&sessions, OutgoingMessage::Broadcast(vec![1])) {
        SendStep::Deliver(route) => assert_eq!(route.bulk, vec![1]),
        SendStep::Stop => panic!("unexpected stop"),
    }
}

#[test]
fn repeated_transports_make_a_table_invalid() {
    let mut sessions = Sessions::new();
    sessions.insert(1, session(1, true, false, vec![Transport::Bulk, Transport::Bulk]));
    assert!(!multiplay_rs::session_table::table_is_valid(&sessions));
}
