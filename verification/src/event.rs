//! The events that reach the service's main function.

use crate::session::Session;
use vstd::prelude::*;
use vstd::string::*;

verus! {

/// An event for the service. `T` is the application's own kind of event.
#[derive(Debug, Clone, PartialEq, Eq)]
pub enum ServiceEvent<T> {
    Continue,
    Pause,
    Stop,
    SessionConnect(Session),
    SessionDisconnect(Session),
    SessionRemoteConnect(Session),
    SessionRemoteDisconnect(Session),
    SessionLogon(Session),
    SessionLogoff(Session),
    SessionLock(Session),
    SessionUnlock(Session),
    Custom(T),
}

/// The mathematical content of a [`ServiceEvent`]: each session by its identifier.
pub enum ServiceEventView<T> {
    Continue,
    Pause,
    Stop,
    SessionConnect(Seq<char>),
    SessionDisconnect(Seq<char>),
    SessionRemoteConnect(Seq<char>),
    SessionRemoteDisconnect(Seq<char>),
    SessionLogon(Seq<char>),
    SessionLogoff(Seq<char>),
    SessionLock(Seq<char>),
    SessionUnlock(Seq<char>),
    Custom(T),
}

impl<T> View for ServiceEvent<T> {
    type V = ServiceEventView<T>;

    open spec fn view(&self) -> ServiceEventView<T> {
        match *self {
            ServiceEvent::Continue => ServiceEventView::Continue,
            ServiceEvent::Pause => ServiceEventView::Pause,
            ServiceEvent::Stop => ServiceEventView::Stop,
            ServiceEvent::SessionConnect(s) => ServiceEventView::SessionConnect(s@),
            ServiceEvent::SessionDisconnect(s) => ServiceEventView::SessionDisconnect(s@),
            ServiceEvent::SessionRemoteConnect(s) => ServiceEventView::SessionRemoteConnect(s@),
            ServiceEvent::SessionRemoteDisconnect(s) => ServiceEventView::SessionRemoteDisconnect(
                s@,
            ),
            ServiceEvent::SessionLogon(s) => ServiceEventView::SessionLogon(s@),
            ServiceEvent::SessionLogoff(s) => ServiceEventView::SessionLogoff(s@),
            ServiceEvent::SessionLock(s) => ServiceEventView::SessionLock(s@),
            ServiceEvent::SessionUnlock(s) => ServiceEventView::SessionUnlock(s@),
            ServiceEvent::Custom(t) => ServiceEventView::Custom(t),
        }
    }
}

/// The name of an event's kind followed by the session in brackets.
pub open spec fn session_event_text(kind: Seq<char>, session: Seq<char>) -> Seq<char> {
    kind + "("@ + session + ")"@
}

/// The text that stands for an event when it is shown. An application's own event
/// shows as `Custom`, whatever it holds.
pub open spec fn event_text<T>(event: ServiceEventView<T>) -> Seq<char> {
    match event {
        ServiceEventView::Continue => "Continue"@,
        ServiceEventView::Pause => "Pause"@,
        ServiceEventView::Stop => "Stop"@,
        ServiceEventView::SessionConnect(s) => session_event_text("SessionConnect"@, s),
        ServiceEventView::SessionDisconnect(s) => session_event_text("SessionDisconnect"@, s),
        ServiceEventView::SessionRemoteConnect(s) => session_event_text(
            "SessionRemoteConnect"@,
            s,
        ),
        ServiceEventView::SessionRemoteDisconnect(s) => session_event_text(
            "SessionRemoteDisconnect"@,
            s,
        ),
        ServiceEventView::SessionLogon(s) => session_event_text("SessionLogon"@, s),
        ServiceEventView::SessionLogoff(s) => session_event_text("SessionLogoff"@, s),
        ServiceEventView::SessionLock(s) => session_event_text("SessionLock"@, s),
        ServiceEventView::SessionUnlock(s) => session_event_text("SessionUnlock"@, s),
        ServiceEventView::Custom(_) => "Custom"@,
    }
}

/// The name of a kind of event followed by `session` in brackets.
fn session_event_string(kind: &str, session: &Session) -> (s: String)
    ensures
        s@ == session_event_text(kind@, session@),
{
    let mut s = String::from_str(kind);
    s.append("(");
    s.append(session.id.as_str());
    s.append(")");
    s
}

impl<T> ServiceEvent<T> {
    /// The text that stands for this event when it is shown.
    pub fn to_text(&self) -> (s: String)
        ensures
            s@ == event_text(self@),
    {
        match self {
            ServiceEvent::Continue => String::from_str("Continue"),
            ServiceEvent::Pause => String::from_str("Pause"),
            ServiceEvent::Stop => String::from_str("Stop"),
            ServiceEvent::SessionConnect(id) => session_event_string("SessionConnect", id),
            ServiceEvent::SessionDisconnect(id) => session_event_string("SessionDisconnect", id),
            ServiceEvent::SessionRemoteConnect(id) => session_event_string(
                "SessionRemoteConnect",
                id,
            ),
            ServiceEvent::SessionRemoteDisconnect(id) => session_event_string(
                "SessionRemoteDisconnect",
                id,
            ),
            ServiceEvent::SessionLogon(id) => session_event_string("SessionLogon", id),
            ServiceEvent::SessionLogoff(id) => session_event_string("SessionLogoff", id),
            ServiceEvent::SessionLock(id) => session_event_string("SessionLock", id),
            ServiceEvent::SessionUnlock(id) => session_event_string("SessionUnlock", id),
            ServiceEvent::Custom(_) => String::from_str("Custom"),
        }
    }
}

} // verus!
