//! Messages exchanged between the client and the shell session.
//!
//! Every message type has a mathematical view in which strings are
//! sequences of characters and payloads are sequences of bytes. The
//! contracts of the session speak of those views.

use vstd::prelude::*;

verus! {

/// Terminal dimensions as (columns, rows).
#[derive(Clone, Copy, Debug, PartialEq, Eq, Structural)]
pub struct WindowSize(pub u32, pub u32);

impl WindowSize {
    /// Number of columns.
    pub fn columns(&self) -> (c: u32)
        ensures
            c == self.0,
    {
        self.0
    }

    /// Number of rows.
    pub fn rows(&self) -> (r: u32)
        ensures
            r == self.1,
    {
        self.1
    }
}

/// What the client asks for when it requests a shell: the terminal type
/// and the initial window size.
#[derive(Clone, Debug, PartialEq, Eq)]
pub struct StartShellPayload {
    pub term: String,
    pub size: WindowSize,
}

/// Mathematical view of a [`StartShellPayload`].
pub struct StartShellPayloadView {
    pub term: Seq<char>,
    pub size: WindowSize,
}

impl View for StartShellPayload {
    type V = StartShellPayloadView;

    open spec fn view(&self) -> StartShellPayloadView {
        StartShellPayloadView { term: self.term@, size: self.size }
    }
}

impl StartShellPayload {
    /// A second request with the same terminal type and size.
    pub fn duplicate(&self) -> (copy: StartShellPayload)
        ensures
            copy@ == self@,
    {
        StartShellPayload { term: self.term.clone(), size: self.size }
    }
}

/// The kind of a client message, without its payload.
#[derive(Clone, Copy, Debug, PartialEq, Eq, Structural)]
pub enum MessageKind {
    Key,
    StartShell,
    Stdin,
    Resize,
    Error,
}

/// A message from the client to the session.
#[derive(Clone, Debug, PartialEq, Eq)]
pub enum ShellClientMessage {
    /// The shared key the client authenticates with.
    Key(String),
    /// The request to start a shell.
    StartShell(StartShellPayload),
    /// Bytes for the shell's input.
    Stdin(Vec<u8>),
    /// A change of the client's window size.
    Resize(WindowSize),
    /// A fault reported by the client.
    Error(String),
}

/// Mathematical view of a [`ShellClientMessage`].
pub enum ClientMessageView {
    Key(Seq<char>),
    StartShell(StartShellPayloadView),
    Stdin(Seq<u8>),
    Resize(WindowSize),
    Error(Seq<char>),
}

impl ClientMessageView {
    /// The kind of the message.
    pub open spec fn kind(self) -> MessageKind {
        match self {
            ClientMessageView::Key(_) => MessageKind::Key,
            ClientMessageView::StartShell(_) => MessageKind::StartShell,
            ClientMessageView::Stdin(_) => MessageKind::Stdin,
            ClientMessageView::Resize(_) => MessageKind::Resize,
            ClientMessageView::Error(_) => MessageKind::Error,
        }
    }
}

impl View for ShellClientMessage {
    type V = ClientMessageView;

    open spec fn view(&self) -> ClientMessageView {
        match self {
            ShellClientMessage::Key(key) => ClientMessageView::Key(key@),
            ShellClientMessage::StartShell(request) => ClientMessageView::StartShell(request@),
            ShellClientMessage::Stdin(payload) => ClientMessageView::Stdin(payload@),
            ShellClientMessage::Resize(size) => ClientMessageView::Resize(*size),
            ShellClientMessage::Error(reason) => ClientMessageView::Error(reason@),
        }
    }
}

impl ShellClientMessage {
    /// The kind of the message.
    pub fn kind(&self) -> (kind: MessageKind)
        ensures
            kind == self@.kind(),
    {
        match self {
            ShellClientMessage::Key(_) => MessageKind::Key,
            ShellClientMessage::StartShell(_) => MessageKind::StartShell,
            ShellClientMessage::Stdin(_) => MessageKind::Stdin,
            ShellClientMessage::Resize(_) => MessageKind::Resize,
            ShellClientMessage::Error(_) => MessageKind::Error,
        }
    }
}

/// A message from the session to the client.
#[derive(Clone, Debug, PartialEq, Eq)]
pub enum ShellServerMessage {
    /// The client's key matched.
    KeyAccepted,
    /// The client's key did not match.
    KeyRejected,
    /// Bytes the shell wrote.
    Stdout(Vec<u8>),
    /// The shell ended with this exit code.
    Exited(i32),
}

/// Mathematical view of a [`ShellServerMessage`].
pub enum ServerMessageView {
    KeyAccepted,
    KeyRejected,
    Stdout(Seq<u8>),
    Exited(i32),
}

impl View for ShellServerMessage {
    type V = ServerMessageView;

    open spec fn view(&self) -> ServerMessageView {
        match self {
            ShellServerMessage::KeyAccepted => ServerMessageView::KeyAccepted,
            ShellServerMessage::KeyRejected => ServerMessageView::KeyRejected,
            ShellServerMessage::Stdout(bytes) => ServerMessageView::Stdout(bytes@),
            ShellServerMessage::Exited(code) => ServerMessageView::Exited(*code),
        }
    }
}

} // verus!
