//! The verified core of a small real-time multiplayer networking server:
//! sessions, the decisions the server takes on transport events, the routing
//! of outgoing game messages, and the per-connection handshake logic of the
//! Web Socket transport.
pub mod address_book;
pub mod admin_secret;
pub mod protocol;
pub mod session;
pub mod basic_session;
pub mod client;
pub mod probe;
pub mod server;
pub mod session_table;
pub mod signup;
pub mod transport_set;
pub mod ws_gateway;
pub mod ws_transport;
