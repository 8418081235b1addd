use ceviche::controller::Session;
use ceviche::ServiceEvent;

fn s() -> Session {
    Session::new("12".to_string())
}

#[test]
fn events_without_a_session_show_their_name() {
    assert_eq!(ServiceEvent::<u8>::Continue.to_text(), "Continue");
    assert_eq!(ServiceEvent::<u8>::Pause.to_text(), "Pause");
    assert_eq!(ServiceEvent::<u8>::Stop.to_text(), "Stop");
}

#[test]
fn session_events_show_the_session_in_brackets() {
    assert_eq!(ServiceEvent::<u8>::SessionConnect(s()).to_text(), "SessionConnect(12)");
    assert_eq!(ServiceEvent::<u8>::SessionDisconnect(s()).to_text(), "SessionDisconnect(12)");
    assert_eq!(
        ServiceEvent::<u8>::SessionRemoteConnect(s()).to_text(),
        "SessionRemoteConnect(12)"
    );
    assert_eq!(
        ServiceEvent::<u8>::SessionRemoteDisconnect(s()).to_text(),
        "SessionRemoteDisconnect(12)"
    );
    assert_eq!(ServiceEvent::<u8>::SessionLogon(s()).to_text(), "SessionLogon(12)");
    assert_eq!(ServiceEvent::<u8>::SessionLogoff(s()).to_text(), "SessionLogoff(12)");
    assert_eq!(ServiceEvent::<u8>::SessionLock(s()).to_text(), "SessionLock(12)");
    assert_eq!(ServiceEvent::<u8>::SessionUnlock(s()).to_text(), "SessionUnlock(12)");
    assert_eq!(
        ServiceEvent::<u8>::SessionLock(Session::new(String::new())).to_text(),
        "SessionLock()"
    );
}

#[test]
fn custom_events_show_as_custom() {
    assert_eq!(ServiceEvent::Custom(5u8).to_text(), "Custom");
    assert_eq!(ServiceEvent::Custom("x".to_string()).to_text(), "Custom");
}
