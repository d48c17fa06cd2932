use quickinject::errors::Error;
use quickinject::session::SessionAction;
use quickinject::session::SessionEvent;
use quickinject::session::SessionState;
use quickinject::session::session_step;

#[test]
fn happy_path_is_one_exchange_then_close() {
    let (s, a) = session_step(SessionState::Disconnected, SessionEvent::ConnectOk);
    assert_eq!(s, SessionState::Connected);
    assert_eq!(a, SessionAction::Send);

    let (s, a) = session_step(s, SessionEvent::SendOk);
    assert_eq!(s, SessionState::AwaitingResponse);
    assert_eq!(a, SessionAction::Receive);

    let (s, a) = session_step(s, SessionEvent::ReceiveOk);
    assert_eq!(s, SessionState::Closed);
    assert_eq!(a, SessionAction::Close);

    let (s, a) = session_step(s, SessionEvent::CloseOk);
    assert_eq!(s, SessionState::Closed);
    assert_eq!(a, SessionAction::Finish);
}

#[test]
fn connect_failure_aborts_with_connection_error() {
    let (s, a) = session_step(SessionState::Disconnected, SessionEvent::ConnectFailed);
    assert_eq!(s, SessionState::Failed);
    assert_eq!(a, SessionAction::Fail(Error::Connection));
}

#[test]
fn send_failure_aborts_without_close() {
    let (s, a) = session_step(SessionState::Connected, SessionEvent::SendFailed);
    assert_eq!(s, SessionState::Failed);
    assert_eq!(a, SessionAction::Fail(Error::Protocol));
}

#[test]
fn receive_failure_aborts_without_close() {
    let (s, a) = session_step(SessionState::AwaitingResponse, SessionEvent::ReceiveFailed);
    assert_eq!(s, SessionState::Failed);
    assert_eq!(a, SessionAction::Fail(Error::Protocol));
}

#[test]
fn close_failure_is_a_protocol_error() {
    let (s, a) = session_step(SessionState::Closed, SessionEvent::CloseFailed);
    assert_eq!(s, SessionState::Failed);
    assert_eq!(a, SessionAction::Fail(Error::Protocol));
}

#[test]
fn unexpected_event_is_a_protocol_failure() {
    let (s, a) = session_step(SessionState::Disconnected, SessionEvent::ReceiveOk);
    assert_eq!(s, SessionState::Failed);
    assert_eq!(a, SessionAction::Fail(Error::Protocol));
}

#[test]
fn failure_is_terminal() {
    let (s, a) = session_step(SessionState::Failed, SessionEvent::ConnectOk);
    assert_eq!(s, SessionState::Failed);
    assert_eq!(a, SessionAction::Fail(Error::Protocol));
}

#[test]
fn error_descriptions() {
    assert_eq!(Error::Network.describe(), "network error during discovery");
    assert_eq!(Error::Parse.describe(), "malformed target listing");
    assert_eq!(Error::TargetNotFound.describe(), "Content not found");
    assert_eq!(Error::Connection.describe(), "websocket connection failed");
    assert_eq!(Error::Protocol.describe(), "websocket protocol failure");
}
