//! The one-shot debug session as a state machine.
//!
//! The session runs `Disconnected -> Connected -> AwaitingResponse ->
//! Closed | Failed`: connect, send the one command, block for the one
//! response, then close gracefully. The decisions stand here; the websocket
//! work that produces the events is performed outside the library, which
//! executes the action each step returns and hands the outcome back as the
//! next event.
//!
//! On any failure the next action is never a close: the connection is left
//! to process teardown, as the session's design has it.

use vstd::prelude::*;
use crate::errors::Error;

verus! {

/// Where the session stands.
#[derive(Clone, Copy, Debug, PartialEq, Eq, Structural)]
pub enum SessionState {
    /// No connection yet.
    Disconnected,
    /// The websocket handshake succeeded; the command may be sent.
    Connected,
    /// The command was written; exactly one response frame is owed.
    AwaitingResponse,
    /// The exchange completed; the close handshake runs or has run.
    Closed,
    /// A transport or protocol failure ended the session.
    Failed,
}

/// What the surrounding application reports back to the session.
#[derive(Clone, Copy, Debug, PartialEq, Eq, Structural)]
pub enum SessionEvent {
    ConnectOk,
    ConnectFailed,
    SendOk,
    SendFailed,
    ReceiveOk,
    ReceiveFailed,
    CloseOk,
    CloseFailed,
}

/// What the surrounding application must do next.
#[derive(Clone, Copy, Debug, PartialEq, Eq, Structural)]
pub enum SessionAction {
    /// Write the command as a single text frame.
    Send,
    /// Block until one frame arrives.
    Receive,
    /// Run the graceful close handshake.
    Close,
    /// The run succeeded; nothing is left to do.
    Finish,
    /// Abort the run with this error.
    Fail(Error),
}

/// The transition table of the one-shot exchange. An event that the current
/// state does not expect is a protocol failure.
pub open spec fn step_spec(s: SessionState, e: SessionEvent) -> (SessionState, SessionAction) {
    match (s, e) {
        (SessionState::Disconnected, SessionEvent::ConnectOk) => (
            SessionState::Connected,
            SessionAction::Send,
        ),
        (SessionState::Disconnected, SessionEvent::ConnectFailed) => (
            SessionState::Failed,
            SessionAction::Fail(Error::Connection),
        ),
        (SessionState::Connected, SessionEvent::SendOk) => (
            SessionState::AwaitingResponse,
            SessionAction::Receive,
        ),
        (SessionState::Connected, SessionEvent::SendFailed) => (
            SessionState::Failed,
            SessionAction::Fail(Error::Protocol),
        ),
        (SessionState::AwaitingResponse, SessionEvent::ReceiveOk) => (
            SessionState::Closed,
            SessionAction::Close,
        ),
        (SessionState::AwaitingResponse, SessionEvent::ReceiveFailed) => (
            SessionState::Failed,
            SessionAction::Fail(Error::Protocol),
        ),
        (SessionState::Closed, SessionEvent::CloseOk) => (
            SessionState::Closed,
            SessionAction::Finish,
        ),
        (SessionState::Closed, SessionEvent::CloseFailed) => (
            SessionState::Failed,
            SessionAction::Fail(Error::Protocol),
        ),
        _ => (SessionState::Failed, SessionAction::Fail(Error::Protocol)),
    }
}

/// Advances the session by one event.
pub fn session_step(s: SessionState, e: SessionEvent) -> (r: (SessionState, SessionAction))
    ensures
        r == step_spec(s, e),
{
    match (s, e) {
        (SessionState::Disconnected, SessionEvent::ConnectOk) => (
            SessionState::Connected,
            SessionAction::Send,
        ),
        (SessionState::Disconnected, SessionEvent::ConnectFailed) => (
            SessionState::Failed,
            SessionAction::Fail(Error::Connection),
        ),
        (SessionState::Connected, SessionEvent::SendOk) => (
            SessionState::AwaitingResponse,
            SessionAction::Receive,
        ),
        (SessionState::Connected, SessionEvent::SendFailed) => (
            SessionState::Failed,
            SessionAction::Fail(Error::Protocol),
        ),
        (SessionState::AwaitingResponse, SessionEvent::ReceiveOk) => (
            SessionState::Closed,
            SessionAction::Close,
        ),
        (SessionState::AwaitingResponse, SessionEvent::ReceiveFailed) => (
            SessionState::Failed,
            SessionAction::Fail(Error::Protocol),
        ),
        (SessionState::Closed, SessionEvent::CloseOk) => (
            SessionState::Closed,
            SessionAction::Finish,
        ),
        (SessionState::Closed, SessionEvent::CloseFailed) => (
            SessionState::Failed,
            SessionAction::Fail(Error::Protocol),
        ),
        _ => (SessionState::Failed, SessionAction::Fail(Error::Protocol)),
    }
}

/// How often a run asks for the given action: the session is stepped through
/// the events in order, counting the steps whose action is `a`.
pub open spec fn actions_in(s0: SessionState, events: Seq<SessionEvent>, a: SessionAction) -> nat
    decreases events.len(),
{
    if events.len() == 0 {
        0
    } else {
        (if step_spec(s0, events[0]).1 == a {
            1nat
        } else {
            0nat
        }) + actions_in(step_spec(s0, events[0]).0, events.drop_first(), a)
    }
}

/// The exchange is strictly one-shot: however the events unfold, a run asks
/// for at most one send, at most one receive, and at most one close.
pub proof fn lemma_one_shot(s0: SessionState, events: Seq<SessionEvent>)
    ensures
        actions_in(s0, events, SessionAction::Send) <= 1,
        actions_in(s0, events, SessionAction::Receive) <= 1,
        actions_in(s0, events, SessionAction::Close) <= 1,
        s0 != SessionState::Disconnected ==> actions_in(s0, events, SessionAction::Send) == 0,
        (s0 != SessionState::Disconnected && s0 != SessionState::Connected) ==> actions_in(
            s0,
            events,
            SessionAction::Receive,
        ) == 0,
        (s0 == SessionState::Closed || s0 == SessionState::Failed) ==> actions_in(
            s0,
            events,
            SessionAction::Close,
        ) == 0,
    decreases events.len(),
{
    if events.len() > 0 {
        let s1 = step_spec(s0, events[0]).0;
        lemma_one_shot(s1, events.drop_first());
        assert(s1 != SessionState::Disconnected);
        if s0 != SessionState::Disconnected {
            assert(s1 != SessionState::Connected);
        }
        if s0 == SessionState::Closed || s0 == SessionState::Failed {
            assert(s1 == SessionState::Closed || s1 == SessionState::Failed);
        }
        if step_spec(s0, events[0]).1 == SessionAction::Close {
            assert(s1 == SessionState::Closed);
        }
    }
}

/// A close is asked for only after the one response arrived: on every other
/// step, and on every failure, the connection is left unclosed.
pub proof fn lemma_close_only_after_response(s: SessionState, e: SessionEvent)
    ensures
        step_spec(s, e).1 == SessionAction::Close ==> (s == SessionState::AwaitingResponse && e
            == SessionEvent::ReceiveOk),
{
}

/// A failed session stays failed: no event leads out of `Failed`, and none
/// asks for further websocket work.
pub proof fn lemma_failure_is_terminal(e: SessionEvent)
    ensures
        step_spec(SessionState::Failed, e).0 == SessionState::Failed,
        step_spec(SessionState::Failed, e).1 is Fail,
{
}

/// A receive is asked for only by the send's success: no other state and no
/// other event demands one.
pub proof fn lemma_single_receive(s: SessionState, e: SessionEvent)
    ensures
        step_spec(s, e).1 == SessionAction::Receive ==> (s == SessionState::Connected && e
            == SessionEvent::SendOk),
{
}

} // verus!
