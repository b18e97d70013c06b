//! The stand-alone Web Socket gateway of the sign-up flow: clients that
//! signed up over HTTP join their session with a handshake, send data, and
//! receive what the game sends to their session or to everyone.
use vstd::prelude::*;

use crate::address_book::{rebind, AddressSessions};
use crate::basic_session::{Session, SessionView, Sessions, Transport};
use crate::session_table::{table_filed, table_valid};
use crate::protocol::{Message, OutgoingMessage, PeerAddress, SessionID};
use crate::ws_transport::Frame;

verus! {

/// What the gateway does after one frame from a client.
#[derive(Debug)]
pub enum GatewayStep {
    /// Hand the data to the game as received from the session.
    Forward(SessionID, Vec<u8>),
    /// The connection joined the session, now connected over the bulk
    /// transport.
    Joined(SessionID),
    /// A handshake named a session that does not exist (reported, nothing
    /// else done).
    UnknownSession(SessionID),
    /// A binary frame did not decode (reported, nothing else done).
    Undecodable,
    /// Nothing to do.
    Ignore,
}

/// `new` is `old` with the session `id` now also connected over the bulk
/// transport, every other field and every other session unchanged.
pub open spec fn joined(old: Map<SessionID, Session>, new: Map<SessionID, Session>, id: SessionID) -> bool {
    &&& new.dom() == old.dom()
    &&& forall|k: SessionID| k != id && #[trigger] old.contains_key(k) ==> new[k] == old[k]
    &&& new[id].wf()
    &&& new[id]@ == SessionView {
        id: old[id].id,
        authenticated: old[id].authenticated,
        transports: old[id]@.transports.insert(Transport::Bulk),
    }
}

/// How the gateway answers `frame` from the connection at `address`, taking
/// the sessions from `old_s` to `new_s` and the pairing of connections from
/// `old_b` to `new_b`.
pub open spec fn gateway_outcome(
    old_s: Map<SessionID, Session>,
    old_b: Map<PeerAddress, SessionID>,
    address: PeerAddress,
    frame: Frame,
    new_s: Map<SessionID, Session>,
    new_b: Map<PeerAddress, SessionID>,
    step: GatewayStep,
) -> bool {
    match frame {
        Frame::Binary(Some(message)) => if old_b.contains_key(address) {
            &&& new_s == old_s
            &&& new_b == old_b
            &&& step == match message {
                Message::Data(data) => GatewayStep::Forward(old_b[address], data),
                _ => GatewayStep::Ignore,
            }
        } else {
            match message {
                Message::Handshake(Some(id), _) => if old_s.contains_key(id) {
                    &&& joined(old_s, new_s, id)
                    &&& new_b == rebind(old_b, address, id)
                    &&& step == GatewayStep::Joined(id)
                } else {
                    &&& new_s == old_s
                    &&& new_b == old_b
                    &&& step == GatewayStep::UnknownSession(id)
                },
                _ => new_s == old_s && new_b == old_b && step == GatewayStep::Ignore,
            }
        },
        Frame::Binary(None) => new_s == old_s && new_b == old_b && step == GatewayStep::Undecodable,
        _ => new_s == old_s && new_b == old_b && step == GatewayStep::Ignore,
    }
}

/// Handles one frame from the connection at `address`.
///
/// Non-binary frames are ignored, and undecodable ones reported. From a
/// connection that speaks for a session, data goes to the game and other
/// messages are ignored. From any other connection, a handshake naming an
/// existing session pairs the connection with it and records the session as
/// connected over the bulk transport; a handshake naming a session that does
/// not exist is reported; other messages are ignored.
pub fn gateway_frame(
    sessions: &mut Sessions,
    book: &mut AddressSessions,
    address: PeerAddress,
    frame: Frame,
) -> (step: GatewayStep)
    requires
        table_valid(old(sessions)@),
    ensures
        table_valid(final(sessions)@),
        table_filed(old(sessions)@) ==> table_filed(final(sessions)@),
        gateway_outcome(
            old(sessions)@,
            old(book)@,
            address,
            frame,
            final(sessions)@,
            final(book)@,
            step,
        ),
{
    match frame {
        Frame::Binary(Some(message)) => match book.get_session_id(&address) {
            Some(id) => match message {
                Message::Data(data) => GatewayStep::Forward(id, data),
                _ => GatewayStep::Ignore,
            },
            None => match message {
                Message::Handshake(Some(id), _) => {
                    let ghost old_map = sessions@;
                    match sessions.remove(&id) {
                        Some(mut session) => {
                            book.bind(address, id);
                            session.add_transport(Transport::Bulk);
                            sessions.insert(id, session);
                            GatewayStep::Joined(id)
                        },
                        None => {
                            assert(sessions@ =~= old_map);
                            GatewayStep::UnknownSession(id)
                        },
                    }
                },
                _ => GatewayStep::Ignore,
            },
        },
        Frame::Binary(None) => GatewayStep::Undecodable,
        _ => GatewayStep::Ignore,
    }
}

/// The sessions a message of the game reaches through the gateway, with its
/// payload: one session for `Send`, every session some connection speaks
/// for (each once) for `Broadcast`; `None` for `Halt`.
pub fn gateway_targets(book: &AddressSessions, message: OutgoingMessage) -> (r: Option<(Vec<SessionID>, Vec<u8>)>)
    ensures
        match message {
            OutgoingMessage::Send(id, data) => r matches Some((ids, payload)) && ids@ == seq![id]
                && payload@ == data@,
            OutgoingMessage::Broadcast(data) => {
                &&& r matches Some((ids, payload))
                &&& ids@.no_duplicates()
                &&& ids@.to_set() == book@.values()
                &&& payload@ == data@
            },
            OutgoingMessage::Halt => r is None,
        },
{
    match message {
        OutgoingMessage::Send(id, data) => {
            let mut ids: Vec<SessionID> = Vec::new();
            ids.push(id);
            proof {
                assert(ids@ =~= seq![id]);
            }
            Some((ids, data))
        },
        OutgoingMessage::Broadcast(data) => Some((book.bound_sessions(), data)),
        OutgoingMessage::Halt => None,
    }
}

} // verus!
