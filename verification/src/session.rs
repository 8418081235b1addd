//! Login sessions, and the monitor that turns changes of the active session into events.

use crate::event::{ServiceEvent, ServiceEventView};
use vstd::prelude::*;
use vstd::string::*;

verus! {

/// A login session, known by its identifier alone. Two sessions are the same session
/// exactly when their identifiers are equal.
#[derive(Debug, Clone, PartialEq, Eq)]
pub struct Session {
    pub id: String,
}

impl View for Session {
    type V = Seq<char>;

    open spec fn view(&self) -> Seq<char> {
        self.id@
    }
}

/// The identifier of a session that may be absent.
pub open spec fn session_id(session: Option<Session>) -> Option<Seq<char>> {
    match session {
        Some(s) => Some(s@),
        None => None,
    }
}

impl Session {
    /// The session with the identifier `id`.
    pub fn new(id: String) -> (s: Session)
        ensures
            s@ == id@,
    {
        Session { id }
    }

    /// Whether `self` and `other` are the same session.
    pub fn same_as(&self, other: &Session) -> (r: bool)
        ensures
            r == (self@ == other@),
    {
        self.id == other.id
    }

    /// A second value for the same session.
    pub fn duplicate(&self) -> (s: Session)
        ensures
            s@ == self@,
    {
        Session { id: self.id.clone() }
    }

    /// The text that stands for this session when it is shown: its identifier.
    pub fn to_text(&self) -> (s: String)
        ensures
            s@ == self@,
    {
        self.id.clone()
    }
}

/// The active session that a query of the session subsystem stands for. A query that
/// failed counts as "no active session".
pub fn active_session(query: Result<String, String>) -> (session: Option<Session>)
    ensures
        session_id(session) == match query {
            Ok(id) => Some(id@),
            Err(_) => None,
        },
{
    match query {
        Ok(id) => Some(Session::new(id)),
        Err(_) => None,
    }
}

/// Whether the active session changed between two observations: from none to one,
/// from one to none, or from one to another.
pub open spec fn session_changed(previous: Option<Seq<char>>, current: Option<Seq<char>>) -> bool {
    match (previous, current) {
        (Some(p), Some(c)) => p != c,
        (None, None) => false,
        _ => true,
    }
}

/// The events that one observation gives rise to: nothing where the session did not
/// change; else the connect of the new session, if there is one, and then the disconnect
/// of the old one, if there was one.
pub open spec fn transition_events<T>(
    previous: Option<Seq<char>>,
    current: Option<Seq<char>>,
) -> Seq<ServiceEventView<T>> {
    if session_changed(previous, current) {
        let connect = match current {
            Some(c) => seq![ServiceEventView::<T>::SessionConnect(c)],
            None => Seq::<ServiceEventView<T>>::empty(),
        };
        let disconnect = match previous {
            Some(p) => seq![ServiceEventView::<T>::SessionDisconnect(p)],
            None => Seq::<ServiceEventView<T>>::empty(),
        };
        connect + disconnect
    } else {
        Seq::<ServiceEventView<T>>::empty()
    }
}

/// The mathematical content of a list of events.
pub open spec fn events_view<T>(events: Seq<ServiceEvent<T>>) -> Seq<ServiceEventView<T>> {
    events.map_values(|e: ServiceEvent<T>| e@)
}

/// The transitions of the active session, one by one: no event where nothing changed;
/// one connect for a session that appeared; one disconnect for a session that went away;
/// for a switch, one connect of the new session followed by one disconnect of the old.
pub proof fn lemma_transition_table<T>(a: Seq<char>, b: Seq<char>)
    requires
        a != b,
    ensures
        transition_events::<T>(None, None) == Seq::<ServiceEventView<T>>::empty(),
        transition_events::<T>(None, Some(a)) == seq![ServiceEventView::<T>::SessionConnect(a)],
        transition_events::<T>(Some(a), None) == seq![ServiceEventView::<T>::SessionDisconnect(a)],
        transition_events::<T>(Some(a), Some(a)) == Seq::<ServiceEventView<T>>::empty(),
        transition_events::<T>(Some(a), Some(b)) == seq![
            ServiceEventView::<T>::SessionConnect(b),
            ServiceEventView::<T>::SessionDisconnect(a),
        ],
{
    assert(transition_events::<T>(None, Some(a)) =~= seq![
        ServiceEventView::<T>::SessionConnect(a),
    ]);
    assert(transition_events::<T>(Some(a), None) =~= seq![
        ServiceEventView::<T>::SessionDisconnect(a),
    ]);
    assert(transition_events::<T>(Some(a), Some(b)) =~= seq![
        ServiceEventView::<T>::SessionConnect(b),
        ServiceEventView::<T>::SessionDisconnect(a),
    ]);
}

/// The session monitor's memory: the active session as of the last observation. Nothing
/// but [`SessionMonitor::notify`] changes it.
#[derive(Debug)]
pub struct SessionMonitor {
    current: Option<Session>,
}

impl View for SessionMonitor {
    type V = Option<Seq<char>>;

    closed spec fn view(&self) -> Option<Seq<char>> {
        session_id(self.current)
    }
}

impl SessionMonitor {
    /// A monitor that starts from the session `initial`.
    pub fn new(initial: Option<Session>) -> (monitor: SessionMonitor)
        ensures
            monitor@ == session_id(initial),
    {
        SessionMonitor { current: initial }
    }

    /// The active session as of the last observation.
    pub fn current(&self) -> (session: Option<Session>)
        ensures
            session_id(session) == self@,
    {
        match &self.current {
            Some(s) => Some(s.duplicate()),
            None => None,
        }
    }

    /// Takes in one observation of the active session and returns the events that it
    /// gives rise to, in the order in which they are to be sent. The observation is
    /// remembered whether or not anything changed.
    pub fn notify<T>(&mut self, active: Option<Session>) -> (events: Vec<ServiceEvent<T>>)
        ensures
            final(self)@ == session_id(active),
            events_view(events@) == transition_events::<T>(old(self)@, session_id(active)),
    {
        let mut events: Vec<ServiceEvent<T>> = Vec::new();
        let changed = match (&self.current, &active) {
            (Some(previous), Some(current)) => !previous.same_as(current),
            (None, None) => false,
            _ => true,
        };
        if changed {
            match &active {
                Some(current) => {
                    events.push(ServiceEvent::SessionConnect(current.duplicate()));
                },
                None => {},
            }
            match &self.current {
                Some(previous) => {
                    events.push(ServiceEvent::SessionDisconnect(previous.duplicate()));
                },
                None => {},
            }
        }
        assert(events_view(events@) =~= transition_events::<T>(self@, session_id(active)));
        self.current = active;
        events
    }
}

} // verus!
