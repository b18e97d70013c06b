use multiplay_rs::address_book::AddressSessions;
use multiplay_rs::basic_session;
use multiplay_rs::client::{
    client_step, connection_is_open, handshake, on_server_frame, open_connection, ClientAction,
    ClientEvent, ClientPhase, ClientStep,
};
use multiplay_rs::probe::{probe_message, TestProtocol};
use multiplay_rs::protocol::{
    Message, OutgoingMessage, PeerAddress, SessionControlMessage, TransportEvent,
    TransportOutgoingMessage,
};
use multiplay_rs::session::Transport;
use multiplay_rs::signup::{conclude_signup, SessionControlMessage as Decision, SessionPayload};
use multiplay_rs::ws_gateway::{gateway_frame, gateway_targets, GatewayStep};
use multiplay_rs::ws_transport::{
    close_connection, complete_handshake, handle_frame, ConnectionError, ConnectionStep, Frame,
};

const A: PeerAddress = (0x7f00_0001, 8000);
const B: PeerAddress = (0x7f00_0001, 8001);

#[test]
fn address_book_pairs_one_to_one() {
    let mut book = AddressSessions::new();
    assert_eq!(book.get_session_id(&A), None);
    book.bind(A, 1);
    assert_eq!(book.get_session_id(&A), Some(1));
    assert_eq!(book.get_address(&1), Some(A));
    book.bind(B, 1);
    assert_eq!(book.get_session_id(&A), None);
    assert_eq!(book.get_address(&1), Some(B));
    book.bind(B, 2);
    assert_eq!(book.get_address(&1), None);
    book.bind(A, 3);
    let mut ids = book.bound_sessions();
    ids.sort();
    assert_eq!(ids, vec![2, 3]);
    assert_eq!(book.unbind(&B), Some(2));
    assert_eq!(book.unbind(&B), None);
    assert_eq!(book.bound_sessions(), vec![3]);
}

#[test]
fn close_frame_closes() {
    let mut book = AddressSessions::new();
    assert!(matches!(
        handle_frame(&mut book, A, Frame::Close),
        ConnectionStep::Close(ConnectionError::ClosedByClient)
    ));
    assert!(matches!(handle_frame(&mut book, A, Frame::Other), ConnectionStep::Ignore));
    assert!(matches!(
        handle_frame(&mut book, A, Frame::Binary(None)),
        ConnectionStep::Close(ConnectionError::UndecodablePayload)
    ));
}

#[test]
fn handshake_with_session_binds_and_reports() {
    let mut book = AddressSessions::new();
    let step = handle_frame(&mut book, A, Frame::Binary(Some(Message::Handshake(Some(4), Some(String::from("s"))))));
    match step {
        ConnectionStep::Report(TransportEvent::Connected(4, Some(s))) => assert_eq!(s, "s"),
        _ => panic!("unexpected step"),
    }
    assert_eq!(book.get_session_id(&A), Some(4));
    let step = handle_frame(&mut book, A, Frame::Binary(Some(Message::Data(vec![9]))));
    match step {
        ConnectionStep::Report(TransportEvent::Received(4, data)) => assert_eq!(data, vec![9]),
        _ => panic!("unexpected step"),
    }
    assert!(matches!(
        handle_frame(&mut book, A, Frame::Binary(Some(Message::Ping(1)))),
        ConnectionStep::Ignore
    ));
    assert_eq!(close_connection(&mut book, &A), Some(4));
    assert_eq!(close_connection(&mut book, &A), None);
}

#[test]
fn handshake_without_session_solicits() {
    let mut book = AddressSessions::new();
    assert!(matches!(
        handle_frame(&mut book, A, Frame::Binary(Some(Message::Handshake(None, None)))),
        ConnectionStep::Solicit(None)
    ));
    assert!(matches!(
        handle_frame(&mut book, A, Frame::Binary(Some(Message::Data(vec![1])))),
        ConnectionStep::Ignore
    ));
    assert_eq!(complete_handshake(&mut book, A, SessionControlMessage::Accept(Some(12))).ok(), Some(12));
    assert_eq!(book.get_session_id(&A), Some(12));
}

#[test]
fn failed_handshakes_leave_the_book() {
    let mut book = AddressSessions::new();
    assert!(matches!(
        complete_handshake(&mut book, A, SessionControlMessage::Accept(None)),
        Err(ConnectionError::AcceptedWithoutSession)
    ));
    match complete_handshake(&mut book, A, SessionControlMessage::Reject(Some(String::from("no")))) {
        Err(ConnectionError::SessionRejected(Some(reason))) => assert_eq!(reason, "no"),
        _ => panic!("unexpected result"),
    }
    assert_eq!(book.get_session_id(&A), None);
}

fn signup_table() -> basic_session::Sessions {
    let mut sessions = basic_session::Sessions::new();
    sessions.insert(8, basic_session::Session { id: 8, authenticated: true, transports: vec![] });
    sessions
}

#[test]
fn gateway_handshake_joins_existing_sessions() {
    let mut sessions = signup_table();
    let mut book = AddressSessions::new();
    let step = gateway_frame(&mut sessions, &mut book, A, Frame::Binary(Some(Message::Handshake(Some(8), None))));
    assert!(matches!(step, GatewayStep::Joined(8)));
    assert_eq!(sessions[&8].transports, vec![Transport::Bulk]);
    assert_eq!(book.get_session_id(&A), Some(8));
    let step = gateway_frame(&mut sessions, &mut book, A, Frame::Binary(Some(Message::Data(vec![3]))));
    match step {
        GatewayStep::Forward(8, data) => assert_eq!(data, vec![3]),
        _ => panic!("unexpected step"),
    }
    let step = gateway_frame(&mut sessions, &mut book, B, Frame::Binary(Some(Message::Handshake(Some(9), None))));
    assert!(matches!(step, GatewayStep::UnknownSession(9)));
    assert_eq!(book.get_session_id(&B), None);
    assert!(matches!(gateway_frame(&mut sessions, &mut book, B, Frame::Binary(None)), GatewayStep::Undecodable));
    assert!(matches!(gateway_frame(&mut sessions, &mut book, B, Frame::Other), GatewayStep::Ignore));
    assert!(matches!(
        gateway_frame(&mut sessions, &mut book, B, Frame::Binary(Some(Message::Data(vec![1])))),
        GatewayStep::Ignore
    ));
}

#[test]
fn gateway_targets_cover_bound_sessions() {
    let mut book = AddressSessions::new();
    book.bind(A, 1);
    book.bind(B, 2);
    let (mut ids, data) = gateway_targets(&book, OutgoingMessage::Broadcast(vec![5])).unwrap();
    ids.sort();
    assert_eq!(ids, vec![1, 2]);
    assert_eq!(data, vec![5]);
    let (ids, _) = gateway_targets(&book, OutgoingMessage::Send(7, vec![])).unwrap();
    assert_eq!(ids, vec![7]);
    assert!(gateway_targets(&book, OutgoingMessage::Halt).is_none());
}

#[test]
fn signup_files_accepted_sessions() {
    let mut sessions = signup_table();
    let session = basic_session::Session { id: 21, authenticated: false, transports: vec![] };
    let payload = conclude_signup(&mut sessions, session, Some(Decision::Accept(21)));
    assert_eq!(payload, Some(SessionPayload { id: 21 }));
    assert_eq!(sessions.len(), 2);
    assert_eq!(sessions[&21].id, 21);
}

#[test]
fn signup_refuses_kicked_sessions() {
    let mut sessions = signup_table();
    let session = basic_session::Session::new();
    assert_eq!(conclude_signup(&mut sessions, session, Some(Decision::Kick(0))), None);
    let session = basic_session::Session::new();
    assert_eq!(conclude_signup(&mut sessions, session, None), None);
    assert_eq!(sessions.len(), 1);
}

#[test]
fn client_answers_pings_and_takes_its_session() {
    assert!(matches!(handshake(Some(3)), Message::Handshake(Some(3), None)));
    assert!(matches!(handshake(None), Message::Handshake(None, None)));
    assert!(matches!(
        on_server_frame(Frame::Binary(Some(Message::Ping(17)))),
        ClientStep::Reply(Message::Pong(17))
    ));
    assert!(matches!(
        on_server_frame(Frame::Binary(Some(Message::Session(5)))),
        ClientStep::Authenticated(5)
    ));
    match on_server_frame(Frame::Binary(Some(Message::Data(vec![4])))) {
        ClientStep::Deliver(data) => assert_eq!(data, vec![4]),
        _ => panic!("unexpected step"),
    }
    assert!(matches!(on_server_frame(Frame::Binary(Some(Message::Pong(1)))), ClientStep::Ignore));
    assert!(matches!(on_server_frame(Frame::Binary(None)), ClientStep::Ignore));
    assert!(matches!(on_server_frame(Frame::Other), ClientStep::Ignore));
}

#[test]
fn probe_counts_and_stops_on_signal() {
    let send = TransportOutgoingMessage::Send(vec![1], vec![]);
    let purge = TransportOutgoingMessage::Purge(1);
    let step = probe_message(0, &send, None);
    assert_eq!(step.count, 1);
    assert!(!step.stop);
    let step = probe_message(1, &purge, Some(TestProtocol::Stop));
    assert_eq!(step.count, 2);
    assert!(!step.stop);
    let step = probe_message(2, &send, Some(TestProtocol::Stop));
    assert_eq!(step.count, 3);
    assert!(step.stop);
}

#[test]
fn client_is_open_while_it_holds_a_thread_or_stop_channel() {
    assert!(!connection_is_open(false, false));
    assert!(connection_is_open(true, false));
    assert!(connection_is_open(false, true));
    assert!(connection_is_open(true, true));
}

#[test]
fn handshake_then_close_leaves_no_trace() {
    let mut book = AddressSessions::new();
    book.bind(B, 30);
    handle_frame(&mut book, A, Frame::Binary(Some(Message::Handshake(Some(31), None))));
    assert_eq!(close_connection(&mut book, &A), Some(31));
    assert_eq!(book.get_session_id(&A), None);
    assert_eq!(book.get_address(&31), None);
    assert_eq!(book.bound_sessions(), vec![30]);
}

#[test]
fn client_sends_data_only_once_it_has_a_session() {
    let (phase, opening) = open_connection(Some(2));
    assert_eq!(phase, ClientPhase::AwaitingSession);
    assert!(matches!(opening, Message::Handshake(Some(2), None)));
    let (phase, action) = client_step(phase, ClientEvent::FromApplication(vec![1]));
    assert_eq!(phase, ClientPhase::AwaitingSession);
    assert!(matches!(action, ClientAction::Hold(ref d) if *d == vec![1]));
    let (phase, action) = client_step(phase, ClientEvent::FromServer(Frame::Binary(Some(Message::Ping(4)))));
    assert!(matches!(action, ClientAction::Send(Message::Pong(4))));
    let (phase, action) = client_step(phase, ClientEvent::FromServer(Frame::Binary(Some(Message::Session(9)))));
    assert_eq!(phase, ClientPhase::Ready(9));
    assert!(matches!(action, ClientAction::Nothing));
    let (phase, _) = client_step(phase, ClientEvent::FromServer(Frame::Binary(Some(Message::Session(10)))));
    assert_eq!(phase, ClientPhase::Ready(9));
    let (_, action) = client_step(phase, ClientEvent::FromApplication(vec![5]));
    assert!(matches!(action, ClientAction::Send(Message::Data(ref d)) if *d == vec![5]));
    let (_, action) = client_step(phase, ClientEvent::FromServer(Frame::Binary(Some(Message::Data(vec![6])))));
    assert!(matches!(action, ClientAction::Deliver(ref d) if *d == vec![6]));
    let (_, action) = client_step(phase, ClientEvent::FromServer(Frame::Other));
    assert!(matches!(action, ClientAction::Nothing));
}
