//! Session sign-up over HTTP: a client asks for a session, the game accepts
//! or kicks it, and an accepted session is filed and its identifier returned
//! to the client.
use vstd::prelude::*;

use crate::basic_session::{Session, Sessions};
use crate::session_table::{table_filed, table_valid};
use crate::protocol::SessionID;

verus! {

/// The game's decision on a sign-up.
#[derive(PartialEq, Eq, Copy, Clone, Debug, Structural)]
pub enum SessionControlMessage {
    Accept(SessionID),
    Kick(SessionID),
}

/// What the client receives when its session is accepted.
#[derive(PartialEq, Eq, Copy, Clone, Debug, Structural)]
pub struct SessionPayload {
    pub id: SessionID,
}

/// Concludes the sign-up of `session` with the game's decision (`None` when
/// no decision could be had). On acceptance the session is filed under its
/// identifier, replacing any session filed there, and the client receives
/// that identifier; when kicked, or without a decision, nothing changes and
/// the request is refused.
pub fn conclude_signup(
    sessions: &mut Sessions,
    session: Session,
    decision: Option<SessionControlMessage>,
) -> (payload: Option<SessionPayload>)
    requires
        table_valid(old(sessions)@),
        session.wf(),
    ensures
        table_valid(final(sessions)@),
        table_filed(old(sessions)@) ==> table_filed(final(sessions)@),
        match decision {
            Some(SessionControlMessage::Accept(_)) => {
                &&& payload == Some(SessionPayload { id: session.id })
                &&& final(sessions)@ == old(sessions)@.insert(session.id, session)
            },
            _ => {
                &&& payload is None
                &&& final(sessions)@ == old(sessions)@
            },
        },
{
    match decision {
        Some(SessionControlMessage::Accept(_)) => {
            let id = session.id;
            sessions.insert(id, session);
            Some(SessionPayload { id })
        },
        _ => None,
    }
}

} // verus!
