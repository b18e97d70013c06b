//! The session record of the HTTP sign-up flow and of the stand-alone Web
//! Socket gateway: no administrator flag, and a session that is authenticated
//! but lacks the bulk transport is still connecting.
use vstd::prelude::*;

use std::collections::BTreeMap;

use crate::protocol::SessionID;
use crate::session_table::SessionRecord;
use crate::transport_set;
pub use crate::session::{ConnectionQuality, Transport};

verus! {

/// Where a session of the sign-up flow stands.
#[derive(PartialEq, Eq, Copy, Clone, Debug, Structural)]
pub enum SessionStatus {
    Authenticating,
    Connecting,
    Connected(ConnectionQuality),
    Disconnected,
}

/// The status that an authenticated flag and a set of transports amount to:
/// unauthenticated sessions are authenticating; authenticated ones are
/// connected exactly when they hold the bulk transport (fully so when they
/// also hold the unordered one) and connecting otherwise.
pub open spec fn status_of(authenticated: bool, transports: Set<Transport>) -> SessionStatus {
    if !authenticated {
        SessionStatus::Authenticating
    } else if transports.contains(Transport::Bulk) {
        if transports.contains(Transport::Unordered) {
            SessionStatus::Connected(ConnectionQuality::Full)
        } else {
            SessionStatus::Connected(ConnectionQuality::Partial)
        }
    } else {
        SessionStatus::Connecting
    }
}

/// What a status says of a session: unauthenticated sessions are
/// authenticating; a session is connected exactly when it is authenticated
/// and holds the bulk transport, fully exactly when it also holds the
/// unordered one and partially otherwise; an authenticated session without
/// the bulk transport is connecting.
pub proof fn lemma_status_laws(authenticated: bool, transports: Set<Transport>)
    ensures
        !authenticated ==> status_of(authenticated, transports) == SessionStatus::Authenticating,
        (status_of(authenticated, transports) is Connected) <==> (authenticated && transports.contains(Transport::Bulk)),
        authenticated && !transports.contains(Transport::Bulk) ==> status_of(authenticated, transports) == SessionStatus::Connecting,
        (status_of(authenticated, transports) == SessionStatus::Connected(ConnectionQuality::Full)) <==> (authenticated
            && transports.contains(Transport::Bulk) && transports.contains(Transport::Unordered)),
        (status_of(authenticated, transports) == SessionStatus::Connected(ConnectionQuality::Partial)) <==> (
        authenticated && transports.contains(Transport::Bulk) && !transports.contains(Transport::Unordered)),
{
}

/// One client session. `transports` holds each transport at most once (see
/// [`Session::wf`]).
pub struct Session {
    pub id: SessionID,
    pub authenticated: bool,
    /// The transports the session is connected over, each at most once.
    /// A vector stands in for an ordered set: vstd specifies `BTreeSet` only
    /// for keys whose ordering is proved lawful, which a derived `Ord` on
    /// [`Transport`] does not give (see `transport_set`).
    pub transports: Vec<Transport>,
}

/// The mathematical picture of a session.
pub struct SessionView {
    pub id: SessionID,
    pub authenticated: bool,
    pub transports: Set<Transport>,
}

impl View for Session {
    type V = SessionView;

    open spec fn view(&self) -> SessionView {
        SessionView {
            id: self.id,
            authenticated: self.authenticated,
            transports: self.transports@.to_set(),
        }
    }
}

impl Session {
    /// Well-formedness: no transport is listed twice.
    pub open spec fn wf(&self) -> bool {
        self.transports@.no_duplicates()
    }

    /// Whether no transport is listed twice ([`Session::wf`]).
    pub fn is_well_formed(&self) -> (b: bool)
        ensures
            b == self.wf(),
    {
        transport_set::has_no_repeats(&self.transports)
    }

    /// The status of this session.
    pub open spec fn status(&self) -> SessionStatus {
        status_of(self.authenticated, self.transports@.to_set())
    }

    /// A new unauthenticated session with a random identifier and no
    /// transports.
    pub fn new() -> (s: Self)
        ensures
            s.wf(),
            !s.authenticated,
            s.transports@.len() == 0,
            s@.transports == Set::<Transport>::empty(),
    {
        let s = Session { id: Self::make_id(), authenticated: false, transports: Vec::new() };
        proof {
            assert(s.transports@ =~= Seq::<Transport>::empty());
        }
        s
    }

    /// A random session identifier; any `u32` may come back.
    pub fn make_id() -> (id: SessionID) {
        crate::session::Session::make_id()
    }

    /// Whether the session is connected over `transport`.
    pub fn has_transport(&self, transport: &Transport) -> (b: bool)
        ensures
            b == self.transports@.contains(*transport),
            b == self@.transports.contains(*transport),
    {
        transport_set::holds(&self.transports, transport)
    }

    /// Records that the session is connected over `transport`. Returns
    /// `true` when the transport was new to the session, `false` (leaving the
    /// session unchanged) when it was already there.
    pub fn add_transport(&mut self, transport: Transport) -> (added: bool)
        requires
            old(self).wf(),
        ensures
            final(self).wf(),
            added == !old(self)@.transports.contains(transport),
            final(self)@.transports == old(self)@.transports.insert(transport),
            final(self).id == old(self).id,
            final(self).authenticated == old(self).authenticated,
    {
        transport_set::insert(&mut self.transports, transport)
    }

    /// The status of the session: `Authenticating` until authenticated;
    /// then `Connected(Full)` over both transports, `Connected(Partial)`
    /// over the bulk transport alone, `Connecting` without the bulk
    /// transport.
    pub fn get_status(&self) -> (status: SessionStatus)
        ensures
            status == self.status(),
            status == status_of(self@.authenticated, self@.transports),
            (status is Connected) <==> (self.authenticated && self@.transports.contains(Transport::Bulk)),
            (status == SessionStatus::Connected(ConnectionQuality::Full)) <==> (self.authenticated
                && self@.transports.contains(Transport::Bulk) && self@.transports.contains(Transport::Unordered)),
            self.authenticated && !self@.transports.contains(Transport::Bulk) ==> status == SessionStatus::Connecting,
    {
        if !self.authenticated {
            SessionStatus::Authenticating
        } else if self.has_transport(&Transport::Bulk) {
            if self.has_transport(&Transport::Unordered) {
                SessionStatus::Connected(ConnectionQuality::Full)
            } else {
                SessionStatus::Connected(ConnectionQuality::Partial)
            }
        } else {
            SessionStatus::Connecting
        }
    }
}

/// The table of sign-up sessions, filed by identifier.
pub type Sessions = BTreeMap<SessionID, Session>;

impl SessionRecord for Session {
    open spec fn valid(&self) -> bool {
        self.wf()
    }

    open spec fn record_id(&self) -> SessionID {
        self.id
    }

    fn is_valid(&self) -> (b: bool) {
        self.is_well_formed()
    }
}

} // verus!
