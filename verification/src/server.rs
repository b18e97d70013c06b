//! The decisions of the RTC server: what it does with each event a transport
//! reports, how it admits new sessions, and to which sessions, over which
//! transport, it delivers each message of the game.
//!
//! The server's event loops (awaiting channels, locking the shared session
//! table) live in the application; each turn of them calls one function here.
use vstd::prelude::*;


use crate::protocol::{
    GameNotice, OutgoingMessage, SessionControlMessage, SessionID, TransportEvent,
    TransportOutgoingMessage,
};
use crate::session::{Session, SessionStatus, SessionView, Sessions, Transport};
use crate::session_table::{ascending, session_ids, table_filed, table_valid};

verus! {

/// Payloads longer than this many bytes always travel over the bulk
/// transport.
pub const MAX_UNORDERED_DATA_SIZE: usize = 1024;

/// Why the server refused a transport event.
#[derive(PartialEq, Eq, Copy, Clone, Debug, Structural)]
pub enum ServerError {
    /// A new session was requested with a wrong administrator secret.
    AdminAuthenticationFailed,
    /// An administrator session was connected with a wrong secret.
    InvalidAdminSecret,
    /// An administrator session was connected without a secret.
    MissingAdminSecret,
}

/// What the server does after handling one transport event.
#[derive(Debug)]
pub enum ReceiveStep {
    /// Forward the session request to the game and await its decision.
    AskGame,
    /// The administrator secret matched: accept the session without asking
    /// the game.
    AdmitAdmin,
    /// Tell the game.
    Notify(GameNotice),
    /// Nothing more.
    Done,
    /// The event is refused.
    Fail(ServerError),
}

impl ReceiveStep {
    /// Whether a transport's receive loop ends after this step: it does once
    /// it has told the game that a session connected or disconnected, and
    /// when a session was requested with a wrong administrator secret; it
    /// goes on after everything else.
    pub open spec fn ends_loop(self) -> bool {
        match self {
            ReceiveStep::Notify(GameNotice::Connected(_)) => true,
            ReceiveStep::Notify(GameNotice::Disconnected(_)) => true,
            ReceiveStep::Fail(ServerError::AdminAuthenticationFailed) => true,
            _ => false,
        }
    }

    /// Whether a transport's receive loop ends after this step
    /// ([`ReceiveStep::ends_loop`]).
    pub fn ends_receive_loop(&self) -> (ends: bool)
        ensures
            ends == self.ends_loop(),
            self matches ReceiveStep::Fail(ServerError::InvalidAdminSecret) ==> !ends,
            self matches ReceiveStep::Fail(ServerError::MissingAdminSecret) ==> !ends,
            self matches ReceiveStep::Notify(GameNotice::Received(_, _)) ==> !ends,
    {
        match self {
            ReceiveStep::Notify(GameNotice::Connected(_)) => true,
            ReceiveStep::Notify(GameNotice::Disconnected(_)) => true,
            ReceiveStep::Fail(ServerError::AdminAuthenticationFailed) => true,
            _ => false,
        }
    }
}

/// The check an administrator session must pass to connect: the secret it
/// presents must be the server's. Other sessions need no secret.
pub open spec fn admin_check(session: Session, secret: Option<String>, admin_secret: Seq<char>) -> Option<ServerError> {
    if session.admin {
        match secret {
            Some(s) => if s@ != admin_secret {
                Some(ServerError::InvalidAdminSecret)
            } else {
                None
            },
            None => Some(ServerError::MissingAdminSecret),
        }
    } else {
        None
    }
}

/// `new` is `old` with the session `id` now connected over exactly
/// `transports`, every other field and every other session unchanged.
pub open spec fn with_transports(
    old: Map<SessionID, Session>,
    new: Map<SessionID, Session>,
    id: SessionID,
    transports: Set<Transport>,
) -> bool {
    &&& new.dom() == old.dom()
    &&& forall|k: SessionID| k != id && #[trigger] old.contains_key(k) ==> new[k] == old[k]
    &&& new[id].wf()
    &&& new[id]@ == SessionView {
        id: old[id].id,
        authenticated: old[id].authenticated,
        admin: old[id].admin,
        transports,
    }
}

/// How the server answers one event reported by a transport of kind
/// `transport`, taking the session table from `old` to `new`.
pub open spec fn receive_outcome(
    old: Map<SessionID, Session>,
    transport: Transport,
    admin_secret: Seq<char>,
    event: TransportEvent,
    new: Map<SessionID, Session>,
    step: ReceiveStep,
) -> bool {
    match event {
        TransportEvent::Solicited(secret) => {
            &&& new == old
            &&& step == match secret {
                None => ReceiveStep::AskGame,
                Some(s) => if s@ == admin_secret {
                    ReceiveStep::AdmitAdmin
                } else {
                    ReceiveStep::Fail(ServerError::AdminAuthenticationFailed)
                },
            }
        },
        TransportEvent::Received(id, data) => {
            &&& new == old
            &&& step == ReceiveStep::Notify(GameNotice::Received(id, data))
        },
        TransportEvent::Connected(id, secret) => {
            if !old.contains_key(id) {
                new == old && step == ReceiveStep::Done
            } else if admin_check(old[id], secret, admin_secret) is Some {
                new == old && step == ReceiveStep::Fail(
                    admin_check(old[id], secret, admin_secret)->0,
                )
            } else {
                let transports = old[id]@.transports.insert(transport);
                &&& with_transports(old, new, id, transports)
                &&& step == if transports.contains(Transport::Bulk) {
                    ReceiveStep::Notify(GameNotice::Connected(id))
                } else {
                    ReceiveStep::Done
                }
            }
        },
        TransportEvent::Disconnected(id) => {
            if !old.contains_key(id) {
                new == old && step == ReceiveStep::Done
            } else {
                let transports = old[id]@.transports.remove(transport);
                &&& with_transports(old, new, id, transports)
                &&& step == if transports.contains(Transport::Bulk) {
                    ReceiveStep::Done
                } else {
                    ReceiveStep::Notify(GameNotice::Disconnected(id))
                }
            }
        },
    }
}

/// Handles one event reported by a transport of kind `transport`.
///
/// - A session request without a secret goes to the game; one with the
///   administrator secret is admitted by the server itself; one with another
///   secret is refused.
/// - Received data goes to the game.
/// - A connection to a known session records the transport (an administrator
///   session must present the administrator secret) and tells the game the
///   session is connected when it holds the bulk transport. Connections to
///   unknown sessions are ignored.
/// - A disconnection removes the transport and tells the game the session is
///   disconnected when it no longer holds the bulk transport.
pub fn receive_from_transport(
    sessions: &mut Sessions,
    transport: Transport,
    admin_secret: &String,
    event: TransportEvent,
) -> (step: ReceiveStep)
    requires
        table_valid(old(sessions)@),
    ensures
        table_valid(final(sessions)@),
        table_filed(old(sessions)@) ==> table_filed(final(sessions)@),
        receive_outcome(old(sessions)@, transport, admin_secret@, event, final(sessions)@, step),
{
    match event {
        TransportEvent::Solicited(secret) => match secret {
            None => ReceiveStep::AskGame,
            Some(s) => if s == *admin_secret {
                ReceiveStep::AdmitAdmin
            } else {
                ReceiveStep::Fail(ServerError::AdminAuthenticationFailed)
            },
        },
        TransportEvent::Received(id, data) => ReceiveStep::Notify(GameNotice::Received(id, data)),
        TransportEvent::Connected(id, secret) => {
            let ghost old_map = sessions@;
            match sessions.remove(&id) {
                None => {
                    assert(sessions@ =~= old_map);
                    ReceiveStep::Done
                },
                Some(mut session) => {
                    let refusal = if session.admin {
                        match &secret {
                            Some(s) => if *s == *admin_secret {
                                None
                            } else {
                                Some(ServerError::InvalidAdminSecret)
                            },
                            None => Some(ServerError::MissingAdminSecret),
                        }
                    } else {
                        None
                    };
                    assert(refusal == admin_check(old_map[id], secret, admin_secret@));
                    match refusal {
                        Some(error) => {
                            sessions.insert(id, session);
                            assert(sessions@ =~= old_map);
                            ReceiveStep::Fail(error)
                        },
                        None => {
                            session.add_transport(transport);
                            let bulk = session.has_transport(&Transport::Bulk);
                            sessions.insert(id, session);
                            if bulk {
                                ReceiveStep::Notify(GameNotice::Connected(id))
                            } else {
                                ReceiveStep::Done
                            }
                        },
                    }
                },
            }
        },
        TransportEvent::Disconnected(id) => {
            let ghost old_map = sessions@;
            match sessions.remove(&id) {
                None => {
                    assert(sessions@ =~= old_map);
                    ReceiveStep::Done
                },
                Some(mut session) => {
                    session.remove_transport(&transport);
                    let bulk = session.has_transport(&Transport::Bulk);
                    sessions.insert(id, session);
                    if bulk {
                        ReceiveStep::Done
                    } else {
                        ReceiveStep::Notify(GameNotice::Disconnected(id))
                    }
                },
            }
        },
    }
}

/// `new` is `old` with a fresh session filed under `id`, replacing any
/// session already filed there: not authenticated, an administrator exactly
/// when `admin`, connected over no transport.
pub open spec fn admitted(
    old: Map<SessionID, Session>,
    new: Map<SessionID, Session>,
    id: SessionID,
    admin: bool,
) -> bool {
    &&& new.dom() == old.dom().insert(id)
    &&& forall|k: SessionID| k != id && #[trigger] old.contains_key(k) ==> new[k] == old[k]
    &&& new[id].wf()
    &&& new[id]@ == SessionView {
        id,
        authenticated: false,
        admin,
        transports: Set::empty(),
    }
}

/// Carries out the decision on a session request: on acceptance, files a new
/// session (under the identifier the decision names, else under a random
/// one; an administrator session when `is_admin`) and answers the transport
/// with that identifier; on rejection, passes the rejection on and changes
/// nothing.
pub fn admit_session(
    sessions: &mut Sessions,
    is_admin: bool,
    decision: SessionControlMessage,
) -> (reply: SessionControlMessage)
    requires
        table_valid(old(sessions)@),
    ensures
        table_valid(final(sessions)@),
        table_filed(old(sessions)@) ==> table_filed(final(sessions)@),
        match decision {
            SessionControlMessage::Accept(custom) => {
                &&& reply matches SessionControlMessage::Accept(Some(id))
                &&& admitted(old(sessions)@, final(sessions)@, reply->Accept_0->0, is_admin)
                &&& (custom matches Some(c) ==> reply->Accept_0 == Some(c))
            },
            SessionControlMessage::Reject(reason) => {
                &&& reply == SessionControlMessage::Reject(reason)
                &&& final(sessions)@ == old(sessions)@
            },
        },
{
    match decision {
        SessionControlMessage::Accept(custom) => {
            let mut session = Session::new();
            if let Some(c) = custom {
                session.id = c;
            }
            session.admin = is_admin;
            let id = session.id;
            sessions.insert(id, session);
            SessionControlMessage::Accept(Some(id))
        },
        SessionControlMessage::Reject(reason) => SessionControlMessage::Reject(reason),
    }
}

/// Whether the session `id` is filed and connected.
pub open spec fn is_connected(m: Map<SessionID, Session>, id: SessionID) -> bool {
    m.contains_key(id) && m[id].status() is Connected
}

/// Whether a payload of `len` bytes for the session `id` goes over the
/// unordered transport: it is at most [`MAX_UNORDERED_DATA_SIZE`] bytes long
/// and the session holds the unordered transport. Otherwise it goes over the
/// bulk transport.
pub open spec fn goes_unordered(m: Map<SessionID, Session>, id: SessionID, len: nat) -> bool {
    len <= MAX_UNORDERED_DATA_SIZE && m[id]@.transports.contains(Transport::Unordered)
}

/// The sessions a message of the game is addressed to.
pub open spec fn targets(m: Map<SessionID, Session>, message: OutgoingMessage) -> Set<SessionID> {
    match message {
        OutgoingMessage::Send(id, _) => set![id],
        OutgoingMessage::Broadcast(_) => m.dom(),
        OutgoingMessage::Halt => Set::empty(),
    }
}

/// `unordered` and `bulk` list, each in ascending order, the connected
/// sessions among `targets` that a payload of `len` bytes reaches over the
/// unordered and over the bulk transport respectively.
pub open spec fn routes(
    m: Map<SessionID, Session>,
    targets: Set<SessionID>,
    len: nat,
    unordered: Seq<SessionID>,
    bulk: Seq<SessionID>,
) -> bool {
    &&& ascending(unordered)
    &&& ascending(bulk)
    &&& unordered.to_set() == targets.filter(reaches_unordered(m, len))
    &&& bulk.to_set() == targets.filter(reaches_bulk(m, len))
}

/// The connected sessions that a payload of `len` bytes reaches over the
/// unordered transport.
pub open spec fn reaches_unordered(m: Map<SessionID, Session>, len: nat) -> spec_fn(SessionID) -> bool {
    |id: SessionID| is_connected(m, id) && goes_unordered(m, id, len)
}

/// The connected sessions that a payload of `len` bytes reaches over the
/// bulk transport.
pub open spec fn reaches_bulk(m: Map<SessionID, Session>, len: nat) -> spec_fn(SessionID) -> bool {
    |id: SessionID| is_connected(m, id) && !goes_unordered(m, id, len)
}

/// Where one payload goes: the sessions to reach over unordered transports,
/// those to reach over bulk transports, and the payload.
#[derive(Debug)]
pub struct Route {
    pub unordered: Vec<SessionID>,
    pub bulk: Vec<SessionID>,
    pub data: Vec<u8>,
}

/// The message to hand every transport of one kind so that `ids` receive
/// `data`: none when there is no session to reach.
pub open spec fn dispatch(ids: Seq<SessionID>, data: Seq<u8>, m: Option<TransportOutgoingMessage>) -> bool {
    match m {
        None => ids.len() == 0,
        Some(TransportOutgoingMessage::Send(to, payload)) => {
            &&& ids.len() > 0
            &&& to@ == ids
            &&& payload@ == data
        },
        Some(TransportOutgoingMessage::Purge(_)) => false,
    }
}

fn dispatch_to(ids: &Vec<SessionID>, data: &Vec<u8>) -> (m: Option<TransportOutgoingMessage>)
    ensures
        dispatch(ids@, data@, m),
{
    if ids.len() == 0 {
        None
    } else {
        let to = ids.clone();
        let payload = data.clone();
        proof {
            assert(to@ =~= ids@);
            assert(payload@ =~= data@);
        }
        Some(TransportOutgoingMessage::Send(to, payload))
    }
}

impl Route {
    /// The message to hand each unordered transport, if any session is to be
    /// reached over one.
    pub fn unordered_message(&self) -> (m: Option<TransportOutgoingMessage>)
        ensures
            dispatch(self.unordered@, self.data@, m),
    {
        dispatch_to(&self.unordered, &self.data)
    }

    /// The message to hand each bulk transport, if any session is to be
    /// reached over one.
    pub fn bulk_message(&self) -> (m: Option<TransportOutgoingMessage>)
        ensures
            dispatch(self.bulk@, self.data@, m),
    {
        dispatch_to(&self.bulk, &self.data)
    }
}

/// What the send loop does with one message of the game.
#[derive(Debug)]
pub enum SendStep {
    /// Stop sending.
    Stop,
    /// Hand the payload to the transports.
    Deliver(Route),
}

/// Splits the sessions `ids` (in ascending order) into those a payload of
/// `len` bytes reaches over the unordered transport and those it reaches over
/// the bulk transport, leaving out sessions that are unknown or not
/// connected.
fn split_targets(sessions: &Sessions, ids: &Vec<SessionID>, len: usize) -> (split: (
    Vec<SessionID>,
    Vec<SessionID>,
))
    requires
        ascending(ids@),
    ensures
        routes(sessions@, ids@.to_set(), len as nat, split.0@, split.1@),
{
    let ghost m = sessions@;
    let ghost pu = reaches_unordered(m, len as nat);
    let ghost pb = reaches_bulk(m, len as nat);
    let mut unordered: Vec<SessionID> = Vec::new();
    let mut bulk: Vec<SessionID> = Vec::new();
    let mut i: usize = 0;
    while i < ids.len()
        invariant
            i <= ids@.len(),
            m == sessions@,
            pu == reaches_unordered(m, len as nat),
            pb == reaches_bulk(m, len as nat),
            ascending(ids@),
            ascending(unordered@),
            ascending(bulk@),
            unordered@.to_set() == ids@.take(i as int).to_set().filter(pu),
            bulk@.to_set() == ids@.take(i as int).to_set().filter(pb),
        decreases ids@.len() - i,
    {
        let id = ids[i];
        let ghost before = ids@.take(i as int);
        assert(ids@.take(i as int + 1) == before.push(id));
        proof {
            before.lemma_push_to_set_commute(id);
            unordered@.lemma_push_to_set_commute(id);
            bulk@.lemma_push_to_set_commute(id);
        }
        assert forall|k: int| 0 <= k < unordered@.len() implies unordered@[k] < id by {
            assert(unordered@.to_set().contains(unordered@[k]));
            let j = choose|j: int| 0 <= j < before.len() && before[j] == unordered@[k];
        }
        assert forall|k: int| 0 <= k < bulk@.len() implies bulk@[k] < id by {
            assert(bulk@.to_set().contains(bulk@[k]));
            let j = choose|j: int| 0 <= j < before.len() && before[j] == bulk@[k];
        }
        match sessions.get(&id) {
            Some(session) => {
                match session.get_status() {
                    SessionStatus::Connected(_) => {
                        if len <= MAX_UNORDERED_DATA_SIZE && session.has_transport(
                            &Transport::Unordered,
                        ) {
                            unordered.push(id);
                        } else {
                            bulk.push(id);
                        }
                    },
                    _ => {},
                }
            },
            None => {},
        }
        proof {
            assert(unordered@.to_set() =~= before.push(id).to_set().filter(pu));
            assert(bulk@.to_set() =~= before.push(id).to_set().filter(pb));
        }
        i = i + 1;
    }
    proof {
        assert(ids@.take(ids@.len() as int) =~= ids@);
    }
    (unordered, bulk)
}

/// Decides where a message of the game goes: `Halt` stops the send loop; a
/// message for one session or for all sessions is delivered to those of its
/// targets that are connected, over the unordered transport when the payload
/// is small enough and the session holds that transport, else over the bulk
/// transport.
pub fn route_outgoing(sessions: &Sessions, message: OutgoingMessage) -> (step: SendStep)
    ensures
        match message {
            OutgoingMessage::Halt => step is Stop,
            OutgoingMessage::Send(_, data) => {
                &&& step matches SendStep::Deliver(r)
                &&& r.data@ == data@
                &&& routes(sessions@, targets(sessions@, message), data@.len(), r.unordered@, r.bulk@)
            },
            OutgoingMessage::Broadcast(data) => {
                &&& step matches SendStep::Deliver(r)
                &&& r.data@ == data@
                &&& routes(sessions@, targets(sessions@, message), data@.len(), r.unordered@, r.bulk@)
            },
        },
{
    let ghost msg = message;
    let (ids, data) = match message {
        OutgoingMessage::Halt => {
            return SendStep::Stop;
        },
        OutgoingMessage::Send(id, data) => {
            let mut ids: Vec<SessionID> = Vec::new();
            ids.push(id);
            proof {
                assert(ids@ == Seq::<SessionID>::empty().push(id));
                Seq::<SessionID>::empty().lemma_push_to_set_commute(id);
                assert(Seq::<SessionID>::empty().to_set() =~= Set::<SessionID>::empty());
            }
            (ids, data)
        },
        OutgoingMessage::Broadcast(data) => (session_ids(sessions), data),
    };
    assert(ids@.to_set() == targets(sessions@, msg));
    let (unordered, bulk) = split_targets(sessions, &ids, data.len());
    SendStep::Deliver(Route { unordered, bulk, data })
}

/// Connecting a session over a transport it did not hold and then
/// disconnecting it from that transport leaves every session as it was.
pub proof fn lemma_connect_then_disconnect(
    old: Map<SessionID, Session>,
    mid: Map<SessionID, Session>,
    new: Map<SessionID, Session>,
    transport: Transport,
    admin_secret: Seq<char>,
    id: SessionID,
    secret: Option<String>,
    connected: ReceiveStep,
    disconnected: ReceiveStep,
)
    requires
        old.contains_key(id),
        !old[id]@.transports.contains(transport),
        receive_outcome(old, transport, admin_secret, TransportEvent::Connected(id, secret), mid, connected),
        receive_outcome(mid, transport, admin_secret, TransportEvent::Disconnected(id), new, disconnected),
    ensures
        new.dom() == old.dom(),
        forall|k: SessionID| #[trigger] old.contains_key(k) ==> new[k]@ == old[k]@,
{
    if admin_check(old[id], secret, admin_secret) is None {
        assert(mid[id]@.transports.remove(transport) =~= old[id]@.transports);
    } else {
        assert(old[id]@.transports.remove(transport) =~= old[id]@.transports);
    }
}

/// An administrator session gains no transport, and the game hears nothing,
/// unless the connection presents the administrator secret.
pub proof fn lemma_admin_needs_secret(
    old: Map<SessionID, Session>,
    new: Map<SessionID, Session>,
    transport: Transport,
    admin_secret: Seq<char>,
    id: SessionID,
    secret: Option<String>,
    step: ReceiveStep,
)
    requires
        old.contains_key(id),
        old[id].admin,
        !(secret matches Some(s) && s@ == admin_secret),
        receive_outcome(old, transport, admin_secret, TransportEvent::Connected(id, secret), new, step),
    ensures
        new == old,
        step is Fail,
{
}

/// A payload reaches each connected target exactly once, over the
/// unordered or the bulk transport, and nothing else: no session that is
/// not a target or not connected, no payload longer than
/// [`MAX_UNORDERED_DATA_SIZE`] bytes over the unordered transport, and none
/// over the unordered transport to a session that does not hold it; such a
/// session gets the payload over the bulk transport instead.
pub proof fn lemma_route_partition(
    m: Map<SessionID, Session>,
    targets: Set<SessionID>,
    len: nat,
    unordered: Seq<SessionID>,
    bulk: Seq<SessionID>,
)
    requires
        routes(m, targets, len, unordered, bulk),
    ensures
        unordered.no_duplicates(),
        bulk.no_duplicates(),
        forall|id: SessionID| targets.contains(id) && is_connected(m, id) ==> (#[trigger] unordered.contains(id) || bulk.contains(id)),
        forall|id: SessionID| !(#[trigger] unordered.contains(id) && bulk.contains(id)),
        forall|id: SessionID| #[trigger] unordered.contains(id) ==> targets.contains(id) && is_connected(m, id) && len <= MAX_UNORDERED_DATA_SIZE
            && m[id]@.transports.contains(Transport::Unordered),
        forall|id: SessionID| #[trigger] bulk.contains(id) ==> targets.contains(id) && is_connected(m, id),
        forall|id: SessionID|
            targets.contains(id) && is_connected(m, id) && !m[id]@.transports.contains(Transport::Unordered)
                ==> #[trigger] bulk.contains(id),
{
    assert forall|id: SessionID| #[trigger] unordered.contains(id) implies targets.contains(id) && is_connected(m, id)
        && len <= MAX_UNORDERED_DATA_SIZE && m[id]@.transports.contains(Transport::Unordered) by {
        assert(unordered.to_set().contains(id));
    }
    assert forall|id: SessionID| #[trigger] bulk.contains(id) implies targets.contains(id) && is_connected(m, id) by {
        assert(bulk.to_set().contains(id));
    }
    assert forall|id: SessionID| targets.contains(id) && is_connected(m, id) implies (#[trigger] unordered.contains(id) || bulk.contains(id)) by {
        if goes_unordered(m, id, len) {
            assert(unordered.to_set().contains(id));
        } else {
            assert(bulk.to_set().contains(id));
        }
    }
    assert forall|id: SessionID|
        targets.contains(id) && is_connected(m, id) && !m[id]@.transports.contains(Transport::Unordered)
            implies #[trigger] bulk.contains(id) by {
        assert(bulk.to_set().contains(id));
    }
    assert forall|id: SessionID| !(#[trigger] unordered.contains(id) && bulk.contains(id)) by {
        if unordered.contains(id) && bulk.contains(id) {
            assert(unordered.to_set().contains(id));
            assert(bulk.to_set().contains(id));
        }
    }
}

/// Which events end a transport's receive loop: a refused connection (wrong
/// or missing administrator secret) never does, nor does received data or a
/// session request that goes to the game; a session request with a wrong
/// secret does; a connection or disconnection does exactly when the game is
/// told of it.
pub proof fn lemma_which_events_end_the_loop(
    old: Map<SessionID, Session>,
    transport: Transport,
    admin_secret: Seq<char>,
    event: TransportEvent,
    new: Map<SessionID, Session>,
    step: ReceiveStep,
)
    requires
        receive_outcome(old, transport, admin_secret, event, new, step),
    ensures
        event is Received ==> !step.ends_loop(),
        event is Solicited ==> (step.ends_loop() <==> step is Fail),
        event is Connected ==> (step.ends_loop() <==> step is Notify),
        event is Connected && step is Fail ==> !step.ends_loop(),
        event is Disconnected ==> (step.ends_loop() <==> step is Notify),
{
}

/// Every session a payload is routed to is authenticated and holds the
/// bulk transport.
pub proof fn lemma_routed_sessions_hold_bulk(
    m: Map<SessionID, Session>,
    targets: Set<SessionID>,
    len: nat,
    unordered: Seq<SessionID>,
    bulk: Seq<SessionID>,
)
    requires
        routes(m, targets, len, unordered, bulk),
    ensures
        forall|id: SessionID| #[trigger] unordered.contains(id) ==> m[id].authenticated && m[id]@.transports.contains(Transport::Bulk),
        forall|id: SessionID| #[trigger] bulk.contains(id) ==> m[id].authenticated && m[id]@.transports.contains(Transport::Bulk),
{
    lemma_route_partition(m, targets, len, unordered, bulk);
    assert forall|id: SessionID| #[trigger] unordered.contains(id) implies m[id].authenticated && m[id]@.transports.contains(Transport::Bulk) by {
        crate::session::lemma_status_laws(m[id].authenticated, m[id]@.transports);
    }
    assert forall|id: SessionID| #[trigger] bulk.contains(id) implies m[id].authenticated && m[id]@.transports.contains(Transport::Bulk) by {
        crate::session::lemma_status_laws(m[id].authenticated, m[id]@.transports);
    }
}

} // verus!
