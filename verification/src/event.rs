//! What a session asks of its surroundings, and what they answer.
//!
//! The session itself does no input or output. It hands out one
//! [`Action`] at a time; whoever runs the session performs it and hands
//! back the [`Event`] that tells how it ended.

use crate::error::ShellError;
use crate::proto::ClientMessageView;
use crate::proto::ServerMessageView;
use crate::proto::ShellClientMessage;
use crate::proto::ShellServerMessage;
use crate::proto::StartShellPayload;
use crate::proto::StartShellPayloadView;
use crate::proto::WindowSize;
use vstd::prelude::*;

verus! {

/// Milliseconds the client has to send its key.
pub const KEY_TIMEOUT_MS: u64 = 3000;

/// Milliseconds the client has to request a shell once its key is accepted.
pub const SHELL_REQUEST_TIMEOUT_MS: u64 = 3000;

/// Milliseconds the connection is held open after the session's work is done.
pub const LINGER_MS: u64 = 500;

/// Largest number of bytes taken from the shell in one read.
pub const READ_CHUNK: usize = 1024;

/// The outcome of the action a session asked for last.
#[derive(Clone, Debug, PartialEq, Eq)]
pub enum Event {
    /// The client sent this message.
    Message(ShellClientMessage),
    /// The client sent bytes that could not be decoded.
    InvalidMessage,
    /// The client closed its stream.
    StreamEnded,
    /// The deadline passed before a message arrived.
    TimedOut,
    /// The message to the client was sent.
    Sent,
    /// The message to the client could not be sent.
    SendFailed,
    /// The shell is running.
    ShellStarted,
    /// The shell could not be started.
    ShellStartFailed,
    /// A read from the shell returned these bytes; none means that the
    /// shell has ended.
    ShellRead(Vec<u8>),
    /// The read from the shell failed.
    ShellReadFailed,
    /// The bytes were written to the shell.
    ShellWritten,
    /// The write to the shell failed.
    ShellWriteFailed,
    /// The shell took the new window size.
    ShellResized,
    /// The shell refused the new window size.
    ShellResizeFailed,
    /// The exit code of the ended shell, if it has one.
    ExitCode(Option<i32>),
    /// The linger interval is over.
    LingerElapsed,
}

/// Mathematical view of an [`Event`].
pub enum EventView {
    Message(ClientMessageView),
    InvalidMessage,
    StreamEnded,
    TimedOut,
    Sent,
    SendFailed,
    ShellStarted,
    ShellStartFailed,
    ShellRead(Seq<u8>),
    ShellReadFailed,
    ShellWritten,
    ShellWriteFailed,
    ShellResized,
    ShellResizeFailed,
    ExitCode(Option<i32>),
    LingerElapsed,
}

impl View for Event {
    type V = EventView;

    open spec fn view(&self) -> EventView {
        match self {
            Event::Message(message) => EventView::Message(message@),
            Event::InvalidMessage => EventView::InvalidMessage,
            Event::StreamEnded => EventView::StreamEnded,
            Event::TimedOut => EventView::TimedOut,
            Event::Sent => EventView::Sent,
            Event::SendFailed => EventView::SendFailed,
            Event::ShellStarted => EventView::ShellStarted,
            Event::ShellStartFailed => EventView::ShellStartFailed,
            Event::ShellRead(bytes) => EventView::ShellRead(bytes@),
            Event::ShellReadFailed => EventView::ShellReadFailed,
            Event::ShellWritten => EventView::ShellWritten,
            Event::ShellWriteFailed => EventView::ShellWriteFailed,
            Event::ShellResized => EventView::ShellResized,
            Event::ShellResizeFailed => EventView::ShellResizeFailed,
            Event::ExitCode(code) => EventView::ExitCode(*code),
            Event::LingerElapsed => EventView::LingerElapsed,
        }
    }
}

/// What a session asks to be done next.
#[derive(Clone, Debug, PartialEq, Eq)]
pub enum Action {
    /// Wait for the next client message, at most this long. Answered by
    /// `Message`, `InvalidMessage`, `StreamEnded` or `TimedOut`.
    AwaitMessage { timeout_ms: u64 },
    /// Send the message to the client. Answered by `Sent` or `SendFailed`.
    Send(ShellServerMessage),
    /// Start a shell on a pseudo-terminal. Answered by `ShellStarted` or
    /// `ShellStartFailed`.
    StartPty(StartShellPayload),
    /// Start the built-in shell. Answered by `ShellStarted`.
    StartFallback(StartShellPayload),
    /// Wait for whichever comes first: output of the shell, read in
    /// chunks of at most `chunk` bytes, or the next client message.
    /// Answered by `ShellRead`, `ShellReadFailed`, `Message`,
    /// `InvalidMessage` or `StreamEnded`.
    Relay { chunk: usize },
    /// Write the bytes to the shell. Answered by `ShellWritten` or
    /// `ShellWriteFailed`.
    WriteShell(Vec<u8>),
    /// Resize the shell's window. Answered by `ShellResized` or
    /// `ShellResizeFailed`.
    ResizeShell(WindowSize),
    /// Ask the ended shell for its exit code. Answered by `ExitCode`.
    QueryExitCode,
    /// Keep the connection open for this long. Answered by `LingerElapsed`.
    Linger { millis: u64 },
    /// Close the connection: the session ended well.
    Finish,
    /// Close the connection: the session failed.
    Abort(ShellError),
}

/// Mathematical view of an [`Action`].
pub enum ActionView {
    AwaitMessage { timeout_ms: u64 },
    Send(ServerMessageView),
    StartPty(StartShellPayloadView),
    StartFallback(StartShellPayloadView),
    Relay { chunk: usize },
    WriteShell(Seq<u8>),
    ResizeShell(WindowSize),
    QueryExitCode,
    Linger { millis: u64 },
    Finish,
    Abort(ShellError),
}

impl View for Action {
    type V = ActionView;

    open spec fn view(&self) -> ActionView {
        match self {
            Action::AwaitMessage { timeout_ms } => ActionView::AwaitMessage {
                timeout_ms: *timeout_ms,
            },
            Action::Send(message) => ActionView::Send(message@),
            Action::StartPty(request) => ActionView::StartPty(request@),
            Action::StartFallback(request) => ActionView::StartFallback(request@),
            Action::Relay { chunk } => ActionView::Relay { chunk: *chunk },
            Action::WriteShell(bytes) => ActionView::WriteShell(bytes@),
            Action::ResizeShell(size) => ActionView::ResizeShell(*size),
            Action::QueryExitCode => ActionView::QueryExitCode,
            Action::Linger { millis } => ActionView::Linger { millis: *millis },
            Action::Finish => ActionView::Finish,
            Action::Abort(error) => ActionView::Abort(*error),
        }
    }
}

impl ActionView {
    /// The messages that performing the action puts on the wire, in order.
    pub open spec fn emitted(self) -> Seq<ServerMessageView> {
        match self {
            ActionView::Send(message) => seq![message],
            _ => Seq::empty(),
        }
    }

    /// Whether the action closes the connection.
    pub open spec fn is_final(self) -> bool {
        self is Finish || self is Abort
    }
}

impl Action {
    /// Whether the action closes the connection.
    pub fn is_final(&self) -> (last: bool)
        ensures
            last == self@.is_final(),
    {
        match self {
            Action::Finish => true,
            Action::Abort(_) => true,
            _ => false,
        }
    }
}

} // verus!
