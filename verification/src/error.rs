//! The phases of a session and the ways it can fail.

use crate::proto::MessageKind;
use vstd::prelude::*;

verus! {

/// The phases a session goes through, in this order. `Completed` and
/// `Failed` are final.
#[derive(Clone, Copy, Debug, PartialEq, Eq, Structural)]
pub enum Phase {
    /// Waiting for the client's key and answering it.
    Authenticating,
    /// Waiting for the shell request and starting the shell.
    Negotiating,
    /// Relaying between the shell and the client.
    Streaming,
    /// Holding the connection open after the work is done.
    Draining,
    /// The session ended well.
    Completed,
    /// The session ended with an error.
    Failed,
}

impl Phase {
    /// Position of the phase in the order of a session.
    pub open spec fn rank(self) -> nat {
        match self {
            Phase::Authenticating => 0,
            Phase::Negotiating => 1,
            Phase::Streaming => 2,
            Phase::Draining => 3,
            Phase::Completed => 4,
            Phase::Failed => 4,
        }
    }

    /// Whether a session in this phase has ended.
    pub open spec fn is_final(self) -> bool {
        self == Phase::Completed || self == Phase::Failed
    }
}

/// Why a session failed. Every one of these ends the session; none is
/// retried.
#[derive(Clone, Copy, Debug, PartialEq, Eq, Structural)]
pub enum ShellError {
    /// No message arrived before the phase's deadline.
    Timeout(Phase),
    /// The client closed the stream before sending what the phase needs.
    ClientClosed(Phase),
    /// The client sent a message that the phase does not accept.
    UnexpectedMessage(Phase, MessageKind),
    /// The client sent bytes that are no message.
    InvalidMessage(Phase),
    /// The client's key is not the session's key.
    KeyRejected,
    /// Reading from the shell failed.
    ShellRead,
    /// Writing to the shell failed.
    ShellWrite,
    /// The shell could not be resized.
    ShellResize,
    /// The shell ended without an exit code.
    ExitCodeUnavailable,
    /// A message to the client could not be sent.
    SendFailed(Phase),
    /// The session was handed an event that answers no request it made.
    OutOfTurn(Phase),
}

impl ShellError {
    /// The text of `describe`.
    pub open spec fn description(self) -> Seq<char> {
        match self {
            ShellError::Timeout(Phase::Authenticating) => "timed out while waiting for key"@,
            ShellError::Timeout(_) => "timed out while waiting for shell request"@,
            ShellError::ClientClosed(Phase::Authenticating) => "client did not send key"@,
            ShellError::ClientClosed(_) => "client did not send start shell message"@,
            ShellError::UnexpectedMessage(Phase::Streaming, _) =>
                "received unexpected message from shell client"@,
            ShellError::UnexpectedMessage(_, _) => "received unexpected message from client"@,
            ShellError::InvalidMessage(Phase::Streaming) =>
                "received invalid message from shell client"@,
            ShellError::InvalidMessage(_) => "received invalid message from client"@,
            ShellError::KeyRejected => "client key rejected"@,
            ShellError::ShellRead => "error while reading from shell"@,
            ShellError::ShellWrite => "error while writing to shell"@,
            ShellError::ShellResize => "error while resizing shell"@,
            ShellError::ExitCodeUnavailable => "shell exited without an exit code"@,
            ShellError::SendFailed(_) => "error while sending message to client"@,
            ShellError::OutOfTurn(_) => "received an event that answers no request"@,
        }
    }

    /// A sentence that says what went wrong.
    pub fn describe(&self) -> (text: String)
        ensures
            text@ == self.description(),
    {
        let text: &str = match self {
            ShellError::Timeout(Phase::Authenticating) => "timed out while waiting for key",
            ShellError::Timeout(_) => "timed out while waiting for shell request",
            ShellError::ClientClosed(Phase::Authenticating) => "client did not send key",
            ShellError::ClientClosed(_) => "client did not send start shell message",
            ShellError::UnexpectedMessage(Phase::Streaming, _) =>
                "received unexpected message from shell client",
            ShellError::UnexpectedMessage(_, _) => "received unexpected message from client",
            ShellError::InvalidMessage(Phase::Streaming) =>
                "received invalid message from shell client",
            ShellError::InvalidMessage(_) => "received invalid message from client",
            ShellError::KeyRejected => "client key rejected",
            ShellError::ShellRead => "error while reading from shell",
            ShellError::ShellWrite => "error while writing to shell",
            ShellError::ShellResize => "error while resizing shell",
            ShellError::ExitCodeUnavailable => "shell exited without an exit code",
            ShellError::SendFailed(_) => "error while sending message to client",
            ShellError::OutOfTurn(_) => "received an event that answers no request",
        };
        text.to_owned()
    }

    /// Whether the error is the expiry of a phase's deadline.
    pub fn is_timeout(&self) -> (timeout: bool)
        ensures
            timeout == (self is Timeout),
    {
        match self {
            ShellError::Timeout(_) => true,
            _ => false,
        }
    }
}

} // verus!
