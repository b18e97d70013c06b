//! A client session as the RTC server tracks it: its identifier, whether it
//! has been authenticated (and as an administrator), and which transports it
//! is currently connected over.
use vstd::prelude::*;

use std::collections::BTreeMap;

use crate::protocol::SessionID;
use crate::session_table::SessionRecord;
use crate::transport_set;

verus! {

/// The kinds of transport a session can be connected over.
#[derive(PartialEq, Eq, PartialOrd, Ord, Debug, Clone, Copy, Structural)]
pub enum Transport {
    /// Reliable, ordered delivery; any payload size.
    Bulk,
    /// Unreliable, unordered delivery; small payloads only.
    Unordered,
}

impl Transport {
    /// The lower-case name of the transport.
    pub open spec fn name(self) -> Seq<char> {
        match self {
            Transport::Bulk => "bulk"@,
            Transport::Unordered => "unordered"@,
        }
    }

    /// The lower-case name of the transport: "bulk" or "unordered".
    pub fn to_string(&self) -> (s: String)
        ensures
            s@ == self.name(),
    {
        match self {
            Transport::Bulk => "bulk".to_owned(),
            Transport::Unordered => "unordered".to_owned(),
        }
    }
}

/// How well a connected session is served: over the bulk transport alone, or
/// over both transports.
#[derive(PartialEq, Eq, Copy, Clone, Debug, Structural)]
pub enum ConnectionQuality {
    Partial,
    Full,
}

/// Where a session stands.
#[derive(PartialEq, Eq, Copy, Clone, Debug, Structural)]
pub enum SessionStatus {
    Authenticating,
    Connected(ConnectionQuality),
    Disconnected,
}

/// The status that an authenticated flag and a set of transports amount to:
/// unauthenticated sessions are authenticating; authenticated ones are
/// connected exactly when they hold the bulk transport, fully so when they
/// also hold the unordered one, and disconnected otherwise.
pub open spec fn status_of(authenticated: bool, transports: Set<Transport>) -> SessionStatus {
    if !authenticated {
        SessionStatus::Authenticating
    } else if transports.contains(Transport::Bulk) {
        if transports.contains(Transport::Unordered) {
            SessionStatus::Connected(ConnectionQuality::Full)
        } else {
            SessionStatus::Connected(ConnectionQuality::Partial)
        }
    } else {
        SessionStatus::Disconnected
    }
}

/// What a status says of a session: unauthenticated sessions are
/// authenticating; a session is connected exactly when it is authenticated
/// and holds the bulk transport, fully exactly when it also holds the
/// unordered one and partially otherwise; an authenticated session without
/// the bulk transport is disconnected.
pub proof fn lemma_status_laws(authenticated: bool, transports: Set<Transport>)
    ensures
        !authenticated ==> status_of(authenticated, transports) == SessionStatus::Authenticating,
        (status_of(authenticated, transports) is Connected) <==> (authenticated && transports.contains(Transport::Bulk)),
        authenticated && !transports.contains(Transport::Bulk) ==> status_of(authenticated, transports) == SessionStatus::Disconnected,
        (status_of(authenticated, transports) == SessionStatus::Connected(ConnectionQuality::Full)) <==> (authenticated
            && transports.contains(Transport::Bulk) && transports.contains(Transport::Unordered)),
        (status_of(authenticated, transports) == SessionStatus::Connected(ConnectionQuality::Partial)) <==> (
        authenticated && transports.contains(Transport::Bulk) && !transports.contains(Transport::Unordered)),
{
}

/// One client session.
///
/// `transports` holds each transport at most once (see [`Session::wf`]); it
/// is the set of transports the session is connected over.
pub struct Session {
    pub id: SessionID,
    pub authenticated: bool,
    pub admin: bool,
    /// The transports the session is connected over, each at most once.
    /// A vector stands in for an ordered set: vstd specifies `BTreeSet` only
    /// for keys whose ordering is proved lawful, which a derived `Ord` on
    /// [`Transport`] does not give (see `transport_set`).
    pub transports: Vec<Transport>,
}

/// The mathematical picture of a session.
pub struct SessionView {
    pub id: SessionID,
    pub authenticated: bool,
    pub admin: bool,
    pub transports: Set<Transport>,
}

impl View for Session {
    type V = SessionView;

    open spec fn view(&self) -> SessionView {
        SessionView {
            id: self.id,
            authenticated: self.authenticated,
            admin: self.admin,
            transports: self.transports@.to_set(),
        }
    }
}

impl Session {
    /// Well-formedness: no transport is listed twice.
    pub open spec fn wf(&self) -> bool {
        self.transports@.no_duplicates()
    }

    /// Whether no transport is listed twice ([`Session::wf`]).
    pub fn is_well_formed(&self) -> (b: bool)
        ensures
            b == self.wf(),
    {
        transport_set::has_no_repeats(&self.transports)
    }

    /// The status of this session.
    pub open spec fn status(&self) -> SessionStatus {
        status_of(self.authenticated, self.transports@.to_set())
    }

    /// A new unauthenticated session with a random identifier and no
    /// transports.
    pub fn new() -> (s: Self)
        ensures
            s.wf(),
            !s.authenticated,
            !s.admin,
            s.transports@.len() == 0,
            s@.transports == Set::<Transport>::empty(),
    {
        let s = Session { id: Self::make_id(), authenticated: false, admin: false, transports: Vec::new() };
        proof {
            assert(s.transports@ =~= Seq::<Transport>::empty());
        }
        s
    }

    /// A random session identifier, drawn with `rand::random::<u32>()`.
    ///
    /// Any `u32` may come back; nothing is promised of it.
    #[verifier::external_body]
    pub fn make_id() -> (id: SessionID) {
        rand::random::<u32>()
    }

    /// Whether the session is connected over `transport`.
    pub fn has_transport(&self, transport: &Transport) -> (b: bool)
        ensures
            b == self.transports@.contains(*transport),
            b == self@.transports.contains(*transport),
    {
        transport_set::holds(&self.transports, transport)
    }

    /// Records that the session is connected over `transport`. Returns
    /// `true` when the transport was new to the session, `false` (leaving the
    /// session unchanged) when it was already there.
    pub fn add_transport(&mut self, transport: Transport) -> (added: bool)
        requires
            old(self).wf(),
        ensures
            final(self).wf(),
            added == !old(self)@.transports.contains(transport),
            final(self)@.transports == old(self)@.transports.insert(transport),
            final(self).id == old(self).id,
            final(self).authenticated == old(self).authenticated,
            final(self).admin == old(self).admin,
    {
        transport_set::insert(&mut self.transports, transport)
    }

    /// Stops recording `transport` for the session. Returns whether it was
    /// there.
    pub fn remove_transport(&mut self, transport: &Transport) -> (removed: bool)
        requires
            old(self).wf(),
        ensures
            final(self).wf(),
            removed == old(self)@.transports.contains(*transport),
            final(self)@.transports == old(self)@.transports.remove(*transport),
            final(self).id == old(self).id,
            final(self).authenticated == old(self).authenticated,
            final(self).admin == old(self).admin,
    {
        transport_set::remove(&mut self.transports, transport)
    }

    /// The status of the session: `Authenticating` until authenticated;
    /// then `Connected(Full)` over both transports, `Connected(Partial)`
    /// over the bulk transport alone, `Disconnected` without the bulk
    /// transport.
    pub fn get_status(&self) -> (status: SessionStatus)
        ensures
            status == self.status(),
            status == status_of(self@.authenticated, self@.transports),
            (status is Connected) <==> (self.authenticated && self@.transports.contains(Transport::Bulk)),
            (status == SessionStatus::Connected(ConnectionQuality::Full)) <==> (self.authenticated
                && self@.transports.contains(Transport::Bulk) && self@.transports.contains(Transport::Unordered)),
            self.authenticated && !self@.transports.contains(Transport::Bulk) ==> status == SessionStatus::Disconnected,
    {
        if !self.authenticated {
            SessionStatus::Authenticating
        } else if self.has_transport(&Transport::Bulk) {
            if self.has_transport(&Transport::Unordered) {
                SessionStatus::Connected(ConnectionQuality::Full)
            } else {
                SessionStatus::Connected(ConnectionQuality::Partial)
            }
        } else {
            SessionStatus::Disconnected
        }
    }
}

/// The session table shared by the server and its transports, filed by
/// identifier.
pub type Sessions = BTreeMap<SessionID, Session>;

impl SessionRecord for Session {
    open spec fn valid(&self) -> bool {
        self.wf()
    }

    open spec fn record_id(&self) -> SessionID {
        self.id
    }

    fn is_valid(&self) -> (b: bool) {
        self.is_well_formed()
    }
}

} // verus!
