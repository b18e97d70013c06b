//! The native client's side of the protocol: the handshake it opens with,
//! what it does with each frame the server sends, and when it may send the
//! application's data (only once the server has assigned its session).
use vstd::prelude::*;

use crate::protocol::{Message, SessionID};
use crate::ws_transport::Frame;

verus! {

/// What the client does after one frame from the server.
#[derive(Debug)]
pub enum ClientStep {
    /// The server assigned the session; sending may begin.
    Authenticated(SessionID),
    /// Game data for the embedding application.
    Deliver(Vec<u8>),
    /// Answer the server with this message.
    Reply(Message),
    /// Nothing to do.
    Ignore,
}

/// The handshake a client opens with: the session it already holds, if any,
/// and no administrator secret.
pub fn handshake(session_id: Option<SessionID>) -> (m: Message)
    ensures
        m == Message::Handshake(session_id, None),
{
    Message::Handshake(session_id, None)
}

/// Handles one frame from the server: a session assignment authenticates
/// the client, data is delivered, a ping is answered with a pong carrying the
/// same number; anything else (non-binary frames, undecodable payloads, other
/// messages) is ignored.
pub fn on_server_frame(frame: Frame) -> (step: ClientStep)
    ensures
        step == match frame {
            Frame::Binary(Some(Message::Session(id))) => ClientStep::Authenticated(id),
            Frame::Binary(Some(Message::Data(data))) => ClientStep::Deliver(data),
            Frame::Binary(Some(Message::Ping(n))) => ClientStep::Reply(Message::Pong(n)),
            _ => ClientStep::Ignore,
        },
{
    match frame {
        Frame::Binary(Some(Message::Session(id))) => ClientStep::Authenticated(id),
        Frame::Binary(Some(Message::Data(data))) => ClientStep::Deliver(data),
        Frame::Binary(Some(Message::Ping(n))) => ClientStep::Reply(Message::Pong(n)),
        _ => ClientStep::Ignore,
    }
}

/// Whether a client counts as open: it is as long as it holds its
/// connection thread or the channel that stops it.
pub fn connection_is_open(has_thread: bool, has_stop_channel: bool) -> (open: bool)
    ensures
        open == (has_thread || has_stop_channel),
{
    match (has_thread, has_stop_channel) {
        (false, false) => false,
        _ => true,
    }
}

/// Where a client stands in its conversation with the server.
#[derive(PartialEq, Eq, Copy, Clone, Debug, Structural)]
pub enum ClientPhase {
    /// The handshake is sent; the server has not assigned a session yet.
    AwaitingSession,
    /// The server assigned this session; data may be sent.
    Ready(SessionID),
}

/// Something that happens to a connected client.
#[derive(Debug)]
pub enum ClientEvent {
    /// A frame from the server.
    FromServer(Frame),
    /// Game data the embedding application wants sent.
    FromApplication(Vec<u8>),
}

/// What the client does in answer to an event.
#[derive(Debug)]
pub enum ClientAction {
    /// Send this message to the server.
    Send(Message),
    /// Hand this data to the embedding application.
    Deliver(Vec<u8>),
    /// Keep this data back until the server has assigned a session.
    Hold(Vec<u8>),
    /// Nothing to do.
    Nothing,
}

/// How a client in `phase` answers `event`: the first session assignment
/// makes it ready (later ones change nothing); data from the server is
/// delivered; a ping is answered with a pong carrying the same number; the
/// application's data is sent once ready and held back before; anything else
/// is ignored.
pub open spec fn client_transition(phase: ClientPhase, event: ClientEvent) -> (ClientPhase, ClientAction) {
    match event {
        ClientEvent::FromServer(Frame::Binary(Some(Message::Session(id)))) => match phase {
            ClientPhase::AwaitingSession => (ClientPhase::Ready(id), ClientAction::Nothing),
            ClientPhase::Ready(_) => (phase, ClientAction::Nothing),
        },
        ClientEvent::FromServer(Frame::Binary(Some(Message::Data(data)))) => (phase, ClientAction::Deliver(data)),
        ClientEvent::FromServer(Frame::Binary(Some(Message::Ping(n)))) => (
            phase,
            ClientAction::Send(Message::Pong(n)),
        ),
        ClientEvent::FromServer(_) => (phase, ClientAction::Nothing),
        ClientEvent::FromApplication(data) => match phase {
            ClientPhase::AwaitingSession => (phase, ClientAction::Hold(data)),
            ClientPhase::Ready(_) => (phase, ClientAction::Send(Message::Data(data))),
        },
    }
}

/// Opens the conversation: the client sends its handshake (naming the
/// session it already holds, if any, and no administrator secret) and awaits
/// its session.
pub fn open_connection(session_id: Option<SessionID>) -> (opened: (ClientPhase, Message))
    ensures
        opened.0 == ClientPhase::AwaitingSession,
        opened.1 == Message::Handshake(session_id, None),
{
    (ClientPhase::AwaitingSession, handshake(session_id))
}

/// Answers one event in `phase` ([`client_transition`]).
pub fn client_step(phase: ClientPhase, event: ClientEvent) -> (next: (ClientPhase, ClientAction))
    ensures
        next == client_transition(phase, event),
        event matches ClientEvent::FromServer(Frame::Binary(Some(Message::Ping(n)))) ==> next == (
            phase,
            ClientAction::Send(Message::Pong(n)),
        ),
{
    match event {
        ClientEvent::FromServer(frame) => match on_server_frame(frame) {
            ClientStep::Authenticated(id) => match phase {
                ClientPhase::AwaitingSession => (ClientPhase::Ready(id), ClientAction::Nothing),
                ClientPhase::Ready(_) => (phase, ClientAction::Nothing),
            },
            ClientStep::Deliver(data) => (phase, ClientAction::Deliver(data)),
            ClientStep::Reply(message) => (phase, ClientAction::Send(message)),
            ClientStep::Ignore => (phase, ClientAction::Nothing),
        },
        ClientEvent::FromApplication(data) => match phase {
            ClientPhase::AwaitingSession => (phase, ClientAction::Hold(data)),
            ClientPhase::Ready(_) => (phase, ClientAction::Send(Message::Data(data))),
        },
    }
}

/// In every phase, a ping is answered with a pong carrying the same number,
/// and the phase stays as it was.
pub proof fn lemma_pings_always_answered(phase: ClientPhase, n: u32)
    ensures
        client_transition(phase, ClientEvent::FromServer(Frame::Binary(Some(Message::Ping(n)))))
            == (phase, ClientAction::Send(Message::Pong(n))),
{
}

/// The actions a client starting in `phase` takes over `events`.
pub open spec fn client_actions(phase: ClientPhase, events: Seq<ClientEvent>) -> Seq<ClientAction>
    decreases events.len(),
{
    if events.len() == 0 {
        Seq::empty()
    } else {
        let (next, action) = client_transition(phase, events[0]);
        seq![action] + client_actions(next, events.drop_first())
    }
}

/// Whether `event` is the server assigning a session.
pub open spec fn assigns_session(event: ClientEvent) -> bool {
    event matches ClientEvent::FromServer(Frame::Binary(Some(Message::Session(_))))
}

/// Whether `action` sends game data to the server.
pub open spec fn sends_data(action: ClientAction) -> bool {
    action matches ClientAction::Send(Message::Data(_))
}

/// Whether `action` sends a handshake to the server.
pub open spec fn sends_handshake(action: ClientAction) -> bool {
    action matches ClientAction::Send(Message::Handshake(_, _))
}

/// After the handshake that [`open_connection`] sends, the client sends no
/// other handshake, and it sends no game data before the server has assigned
/// its session.
pub proof fn lemma_handshake_first_and_once(events: Seq<ClientEvent>)
    ensures
        forall|i: int| 0 <= i < events.len() ==> !sends_handshake(
            #[trigger] client_actions(ClientPhase::AwaitingSession, events)[i],
        ),
        forall|i: int|
            0 <= i < events.len() && sends_data(
                #[trigger] client_actions(ClientPhase::AwaitingSession, events)[i],
            ) ==> exists|j: int| 0 <= j <= i && assigns_session(#[trigger] events[j]),
{
    lemma_actions_order(ClientPhase::AwaitingSession, events);
}

/// The induction behind [`lemma_handshake_first_and_once`], from any phase.
proof fn lemma_actions_order(phase: ClientPhase, events: Seq<ClientEvent>)
    ensures
        client_actions(phase, events).len() == events.len(),
        forall|i: int| 0 <= i < events.len() ==> !sends_handshake(#[trigger] client_actions(phase, events)[i]),
        forall|i: int|
            0 <= i < events.len() && sends_data(#[trigger] client_actions(phase, events)[i])
                ==> phase is Ready || exists|j: int| 0 <= j <= i && assigns_session(#[trigger] events[j]),
    decreases events.len(),
{
    if events.len() > 0 {
        let (next, action) = client_transition(phase, events[0]);
        let rest = events.drop_first();
        lemma_actions_order(next, rest);
        let acts = client_actions(phase, events);
        assert(acts == seq![action] + client_actions(next, rest));
        assert forall|i: int| 0 <= i < events.len() implies !sends_handshake(#[trigger] acts[i]) by {
            if i > 0 {
                assert(acts[i] == client_actions(next, rest)[i - 1]);
            }
        }
        assert forall|i: int| 0 <= i < events.len() && sends_data(#[trigger] acts[i]) implies phase is Ready
            || exists|j: int| 0 <= j <= i && assigns_session(#[trigger] events[j]) by {
            if i == 0 {
            } else {
                assert(acts[i] == client_actions(next, rest)[i - 1]);
                if phase is AwaitingSession {
                    if next is Ready {
                        assert(assigns_session(events[0]));
                    } else {
                        let j = choose|j: int| 0 <= j <= i - 1 && assigns_session(#[trigger] rest[j]);
                        assert(rest[j] == events[j + 1]);
                        assert(assigns_session(events[j + 1]));
                    }
                }
            }
        }
    }
}

} // verus!
