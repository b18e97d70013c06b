//! Messages exchanged between clients, transports, the server and the game.
//!
//! Channel endpoints never appear here: where a message travels together with
//! the channel on which its answer is awaited, the library keeps the message
//! and the application keeps the channel.
use vstd::prelude::*;

verus! {

/// Identifies a session.
pub type SessionID = u32;

/// Where a connection comes from: the peer's IP address as a 128-bit number
/// (IPv4 addresses in their IPv6-mapped form) and its port.
pub type PeerAddress = (u128, u16);

/// What clients and the server send each other over a transport.
#[derive(Debug, Clone)]
pub enum Message {
    /// A client introduces itself, with the session it already holds (if any)
    /// and the administrator secret (if it claims to be one).
    Handshake(Option<SessionID>, Option<String>),
    /// The server tells a client which session it was given.
    Session(SessionID),
    /// Game data.
    Data(Vec<u8>),
    Ping(u32),
    Pong(u32),
}

/// The answer to a request for a new session.
#[derive(Debug, Clone)]
pub enum SessionControlMessage {
    /// The session is accepted, under the given identifier if there is one.
    Accept(Option<SessionID>),
    /// The session is refused, with a reason if there is one.
    Reject(Option<String>),
}

/// What the game hands the server to send.
#[derive(Debug, Clone)]
pub enum OutgoingMessage {
    /// Data for one session.
    Send(SessionID, Vec<u8>),
    /// Data for every session.
    Broadcast(Vec<u8>),
    /// Stop sending.
    Halt,
}

/// What the server hands a transport to send.
#[derive(Debug, Clone)]
pub enum TransportOutgoingMessage {
    /// Data for each of the listed sessions.
    Send(Vec<SessionID>, Vec<u8>),
    /// Forget a session.
    Purge(SessionID),
}

/// What a transport reports to the server.
#[derive(Debug, Clone)]
pub enum TransportEvent {
    /// A client asks for a new session, with the administrator secret if it
    /// gave one.
    Solicited(Option<String>),
    /// A client connected to a session over the transport, with the
    /// administrator secret if it gave one.
    Connected(SessionID, Option<String>),
    /// A client's connection over the transport closed.
    Disconnected(SessionID),
    /// A client sent data.
    Received(SessionID, Vec<u8>),
}

/// What the server tells the game about sessions.
#[derive(Debug, Clone)]
pub enum GameNotice {
    Connected(SessionID),
    Disconnected(SessionID),
    Received(SessionID, Vec<u8>),
}

} // verus!
