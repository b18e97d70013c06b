//! The Web Socket transport's handling of each connection: what it does with
//! every frame a client sends, how a new session's handshake completes, and
//! what closing a connection undoes.
//!
//! Frames arrive decoded: the application turns each binary payload into a
//! [`Message`] (or reports that it could not) before calling in here.
use vstd::prelude::*;

use crate::address_book::{rebind, AddressSessions};
use crate::protocol::{Message, PeerAddress, SessionControlMessage, SessionID, TransportEvent};

verus! {

/// One frame received from a client.
#[derive(Debug)]
pub enum Frame {
    /// The client closed the connection.
    Close,
    /// A binary frame, with the message it decodes to (`None` when it does
    /// not decode).
    Binary(Option<Message>),
    /// Any other frame (text, ping, pong).
    Other,
}

/// Why a connection is closed.
#[derive(Debug)]
pub enum ConnectionError {
    /// The client closed it.
    ClosedByClient,
    /// A binary frame did not decode to a message.
    UndecodablePayload,
    /// The server refused the new session, with the reason it gave.
    SessionRejected(Option<String>),
    /// The server accepted the new session without naming it.
    AcceptedWithoutSession,
}

/// What the connection handler does after one frame.
#[derive(Debug)]
pub enum ConnectionStep {
    /// Report the event to the server.
    Report(TransportEvent),
    /// Ask the server for a new session for this connection, with the
    /// administrator secret the client gave, and complete the handshake with
    /// its answer ([`complete_handshake`]).
    Solicit(Option<String>),
    /// Nothing to do.
    Ignore,
    /// Close the connection ([`close_connection`]).
    Close(ConnectionError),
}

/// How the transport answers `frame` from the connection at `address`,
/// taking the pairing of connections and sessions from `old` to `new`.
pub open spec fn frame_outcome(
    old: Map<PeerAddress, SessionID>,
    address: PeerAddress,
    frame: Frame,
    new: Map<PeerAddress, SessionID>,
    step: ConnectionStep,
) -> bool {
    match frame {
        Frame::Close => new == old && step == ConnectionStep::Close(ConnectionError::ClosedByClient),
        Frame::Other => new == old && step == ConnectionStep::Ignore,
        Frame::Binary(None) => new == old && step == ConnectionStep::Close(
            ConnectionError::UndecodablePayload,
        ),
        Frame::Binary(Some(message)) => if old.contains_key(address) {
            &&& new == old
            &&& step == match message {
                Message::Data(data) => ConnectionStep::Report(
                    TransportEvent::Received(old[address], data),
                ),
                _ => ConnectionStep::Ignore,
            }
        } else {
            match message {
                Message::Handshake(Some(id), secret) => {
                    &&& new == rebind(old, address, id)
                    &&& step == ConnectionStep::Report(TransportEvent::Connected(id, secret))
                },
                Message::Handshake(None, secret) => {
                    &&& new == old
                    &&& step == ConnectionStep::Solicit(secret)
                },
                _ => new == old && step == ConnectionStep::Ignore,
            }
        },
    }
}

/// Handles one frame from the connection at `address`.
///
/// A close frame closes the connection and other non-binary frames are
/// ignored. A binary frame that does not decode closes the connection. From
/// a connection that speaks for a session, data is reported to the server as
/// received from that session and other messages are ignored. From any other
/// connection, a handshake naming a session pairs the connection with it and
/// reports the connection to the server; a handshake naming none asks the
/// server for a new session; other messages are ignored.
pub fn handle_frame(book: &mut AddressSessions, address: PeerAddress, frame: Frame) -> (step:
    ConnectionStep)
    ensures
        frame_outcome(old(book)@, address, frame, final(book)@, step),
        frame is Close ==> step == ConnectionStep::Close(ConnectionError::ClosedByClient)
            && final(book)@ == old(book)@,
        frame matches Frame::Binary(None) ==> step == ConnectionStep::Close(
            ConnectionError::UndecodablePayload,
        ) && final(book)@ == old(book)@,
{
    match frame {
        Frame::Close => ConnectionStep::Close(ConnectionError::ClosedByClient),
        Frame::Other => ConnectionStep::Ignore,
        Frame::Binary(None) => ConnectionStep::Close(ConnectionError::UndecodablePayload),
        Frame::Binary(Some(message)) => match book.get_session_id(&address) {
            Some(id) => match message {
                Message::Data(data) => ConnectionStep::Report(TransportEvent::Received(id, data)),
                _ => ConnectionStep::Ignore,
            },
            None => match message {
                Message::Handshake(Some(id), secret) => {
                    book.bind(address, id);
                    ConnectionStep::Report(TransportEvent::Connected(id, secret))
                },
                Message::Handshake(None, secret) => ConnectionStep::Solicit(secret),
                _ => ConnectionStep::Ignore,
            },
        },
    }
}

/// Completes the handshake of a new session with the server's answer: an
/// acceptance naming a session pairs the connection at `address` with it
/// (the client is then told its session); a rejection, or an acceptance
/// naming no session, fails and leaves the pairing unchanged.
pub fn complete_handshake(
    book: &mut AddressSessions,
    address: PeerAddress,
    answer: SessionControlMessage,
) -> (r: Result<SessionID, ConnectionError>)
    ensures
        match answer {
            SessionControlMessage::Accept(Some(id)) => {
                &&& r == Ok::<SessionID, ConnectionError>(id)
                &&& final(book)@ == rebind(old(book)@, address, id)
            },
            SessionControlMessage::Accept(None) => {
                &&& r == Err::<SessionID, ConnectionError>(ConnectionError::AcceptedWithoutSession)
                &&& final(book)@ == old(book)@
            },
            SessionControlMessage::Reject(reason) => {
                &&& r == Err::<SessionID, ConnectionError>(ConnectionError::SessionRejected(reason))
                &&& final(book)@ == old(book)@
            },
        },
{
    match answer {
        SessionControlMessage::Accept(Some(id)) => {
            book.bind(address, id);
            Ok(id)
        },
        SessionControlMessage::Accept(None) => Err(ConnectionError::AcceptedWithoutSession),
        SessionControlMessage::Reject(reason) => Err(ConnectionError::SessionRejected(reason)),
    }
}

/// Forgets the connection at `address`. Returns the session it spoke for,
/// which the server is then told has disconnected, if any.
pub fn close_connection(book: &mut AddressSessions, address: &PeerAddress) -> (r: Option<SessionID>)
    ensures
        final(book)@ == old(book)@.remove(*address),
        r == (if old(book)@.contains_key(*address) {
            Some(old(book)@[*address])
        } else {
            None
        }),
{
    book.unbind(address)
}

/// A close frame closes the connection, whatever the pairing and whether or
/// not the connection speaks for a session; the pairing is left for
/// [`close_connection`] to update. An undecodable binary frame does the same
/// with its own reason.
pub proof fn lemma_close_frames_close(
    old: Map<PeerAddress, SessionID>,
    address: PeerAddress,
    new: Map<PeerAddress, SessionID>,
    step: ConnectionStep,
    undecodable_new: Map<PeerAddress, SessionID>,
    undecodable_step: ConnectionStep,
)
    requires
        frame_outcome(old, address, Frame::Close, new, step),
        frame_outcome(old, address, Frame::Binary(None), undecodable_new, undecodable_step),
    ensures
        new == old,
        step == ConnectionStep::Close(ConnectionError::ClosedByClient),
        undecodable_new == old,
        undecodable_step == ConnectionStep::Close(ConnectionError::UndecodablePayload),
{
}

} // verus!
