use multiplay_rs::basic_session;
use multiplay_rs::session::{ConnectionQuality, Session, SessionStatus, Transport};

#[test]
fn new_session_is_fresh() {
    let session = Session::new();
    assert!(!session.authenticated);
    assert!(!session.admin);
    assert!(session.transports.is_empty());
    assert_eq!(session.get_status(), SessionStatus::Authenticating);
}

#[test]
fn add_transport_reports_novelty() {
    let mut session = Session::new();
    assert!(!session.has_transport(&Transport::Bulk));
    assert!(session.add_transport(Transport::Bulk));
    assert!(session.has_transport(&Transport::Bulk));
    assert!(!session.add_transport(Transport::Bulk));
    assert_eq!(session.transports, vec![Transport::Bulk]);
    assert!(!session.has_transport(&Transport::Unordered));
}

#[test]
fn remove_transport_reports_presence() {
    let mut session = Session::new();
    session.add_transport(Transport::Bulk);
    session.add_transport(Transport::Unordered);
    assert!(session.remove_transport(&Transport::Bulk));
    assert!(!session.remove_transport(&Transport::Bulk));
    assert_eq!(session.transports, vec![Transport::Unordered]);
}

#[test]
fn status_follows_authentication_and_transports() {
    let mut session = Session::new();
    session.add_transport(Transport::Bulk);
    assert_eq!(session.get_status(), SessionStatus::Authenticating);
    session.authenticated = true;
    assert_eq!(session.get_status(), SessionStatus::Connected(ConnectionQuality::Partial));
    session.add_transport(Transport::Unordered);
    assert_eq!(session.get_status(), SessionStatus::Connected(ConnectionQuality::Full));
    session.remove_transport(&Transport::Bulk);
    assert_eq!(session.get_status(), SessionStatus::Disconnected);
}

#[test]
fn transport_names() {
    assert_eq!(Transport::Bulk.to_string(), "bulk");
    assert_eq!(Transport::Unordered.to_string(), "unordered");
}

#[test]
fn basic_session_is_connecting_without_bulk() {
    let mut session = basic_session::Session::new();
    assert_eq!(session.get_status(), basic_session::SessionStatus::Authenticating);
    session.authenticated = true;
    assert_eq!(session.get_status(), basic_session::SessionStatus::Connecting);
    assert!(session.add_transport(Transport::Unordered));
    assert_eq!(session.get_status(), basic_session::SessionStatus::Connecting);
    assert!(session.add_transport(Transport::Bulk));
    assert!(!session.add_transport(Transport::Bulk));
    assert!(session.has_transport(&Transport::Bulk));
    assert_eq!(
        session.get_status(),
        basic_session::SessionStatus::Connected(ConnectionQuality::Full)
    );
}

#[test]
fn random_ids_vary() {
    let ids: Vec<u32> = (0..8).map(|_| Session::make_id()).collect();
    assert!(ids.iter().any(|id| *id != ids[0]));
    let _ = basic_session::Session::make_id();
}
