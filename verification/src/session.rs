//! The control connection's logical state, one instance per live
//! connection: ready after a successful greeting, and terminated after
//! Quit completes or any command fails. A terminated connection must
//! not be used for further commands.

use vstd::prelude::*;

use crate::commands::Command;

verus! {

/// Where a control connection stands in its life cycle.
#[derive(Clone, Copy, Debug, PartialEq, Eq, Structural)]
pub enum SessionState {
    /// The greeting was validated, and every command issued so far
    /// completed; the connection accepts the next command.
    Ready,
    /// Quit completed, or a command failed and left the server's reply
    /// stream in doubt; the connection must not be used again.
    Terminated,
}

/// The state after a command completes: every command but Quit keeps a
/// ready connection ready when it succeeds; Quit ends the session; any
/// failure ends it too, since the reply stream is then in doubt.
pub open spec fn spec_advance(s: SessionState, c: Command, succeeded: bool) -> SessionState {
    match s {
        SessionState::Terminated => SessionState::Terminated,
        SessionState::Ready => if succeeded && !(c is Quit) {
            SessionState::Ready
        } else {
            SessionState::Terminated
        },
    }
}

impl SessionState {
    /// The connection may carry the next command.
    pub fn is_ready(&self) -> (r: bool)
        ensures
            r == (*self is Ready),
    {
        match self {
            SessionState::Ready => true,
            SessionState::Terminated => false,
        }
    }

    /// Steps the state after `command` completed with or without
    /// success.
    pub fn advance(self, command: &Command, succeeded: bool) -> (next: SessionState)
        ensures
            next == spec_advance(self, *command, succeeded),
            next is Ready <==> (self is Ready && succeeded && !(*command is Quit)),
    {
        match self {
            SessionState::Terminated => SessionState::Terminated,
            SessionState::Ready => {
                if succeeded && !matches!(command, Command::Quit(_)) {
                    SessionState::Ready
                } else {
                    SessionState::Terminated
                }
            },
        }
    }
}

} // verus!
