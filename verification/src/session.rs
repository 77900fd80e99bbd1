//! The session: what it waits for, and what it does when the answer comes.

use crate::error::Phase;
use crate::error::ShellError;
use crate::event::Action;
use crate::event::ActionView;
use crate::event::Event;
use crate::event::EventView;
use crate::event::KEY_TIMEOUT_MS;
use crate::event::LINGER_MS;
use crate::event::READ_CHUNK;
use crate::event::SHELL_REQUEST_TIMEOUT_MS;
use crate::key::ShellKey;
use crate::proto::ClientMessageView;
use crate::proto::ServerMessageView;
use crate::proto::ShellClientMessage;
use crate::proto::ShellServerMessage;
use crate::proto::StartShellPayload;
use crate::proto::StartShellPayloadView;
use vstd::prelude::*;

verus! {

/// The request a session has made and is waiting to see answered.
#[derive(Clone, Debug, PartialEq, Eq)]
pub enum Stage {
    /// Waiting for the client's key.
    AwaitingKey,
    /// Telling the client that its key matched.
    AcceptingKey,
    /// Telling the client that its key did not match.
    RejectingKey,
    /// Waiting for the client's shell request.
    AwaitingShellRequest,
    /// Starting a shell on a pseudo-terminal for this request.
    StartingPty(StartShellPayload),
    /// Starting the built-in shell after the pseudo-terminal failed.
    StartingFallback,
    /// Waiting for output of the shell or a message of the client.
    Relaying,
    /// Sending output of the shell to the client.
    ForwardingOutput,
    /// Writing input of the client to the shell.
    WritingInput,
    /// Resizing the shell's window.
    Resizing,
    /// Asking the ended shell for its exit code.
    FetchingExitCode,
    /// Telling the client the shell's exit code.
    ReportingExit,
    /// Holding the connection open before closing it.
    Lingering,
    /// Ended well.
    Completed,
    /// Ended with this error.
    Failed(ShellError),
}

/// Mathematical view of a [`Stage`].
pub enum StageView {
    AwaitingKey,
    AcceptingKey,
    RejectingKey,
    AwaitingShellRequest,
    StartingPty(StartShellPayloadView),
    StartingFallback,
    Relaying,
    ForwardingOutput,
    WritingInput,
    Resizing,
    FetchingExitCode,
    ReportingExit,
    Lingering,
    Completed,
    Failed(ShellError),
}

impl View for Stage {
    type V = StageView;

    open spec fn view(&self) -> StageView {
        match self {
            Stage::AwaitingKey => StageView::AwaitingKey,
            Stage::AcceptingKey => StageView::AcceptingKey,
            Stage::RejectingKey => StageView::RejectingKey,
            Stage::AwaitingShellRequest => StageView::AwaitingShellRequest,
            Stage::StartingPty(request) => StageView::StartingPty(request@),
            Stage::StartingFallback => StageView::StartingFallback,
            Stage::Relaying => StageView::Relaying,
            Stage::ForwardingOutput => StageView::ForwardingOutput,
            Stage::WritingInput => StageView::WritingInput,
            Stage::Resizing => StageView::Resizing,
            Stage::FetchingExitCode => StageView::FetchingExitCode,
            Stage::ReportingExit => StageView::ReportingExit,
            Stage::Lingering => StageView::Lingering,
            Stage::Completed => StageView::Completed,
            Stage::Failed(error) => StageView::Failed(*error),
        }
    }
}

impl StageView {
    /// The phase the stage belongs to.
    pub open spec fn phase(self) -> Phase {
        match self {
            StageView::AwaitingKey | StageView::AcceptingKey | StageView::RejectingKey =>
                Phase::Authenticating,
            StageView::AwaitingShellRequest | StageView::StartingPty(_)
            | StageView::StartingFallback => Phase::Negotiating,
            StageView::Relaying | StageView::ForwardingOutput | StageView::WritingInput
            | StageView::Resizing | StageView::FetchingExitCode | StageView::ReportingExit =>
                Phase::Streaming,
            StageView::Lingering => Phase::Draining,
            StageView::Completed => Phase::Completed,
            StageView::Failed(_) => Phase::Failed,
        }
    }

    /// Whether a shell is running while the session is at this stage.
    pub open spec fn shell_is_live(self) -> bool {
        self.phase() == Phase::Streaming && !(self is FetchingExitCode) && !(self is ReportingExit)
    }
}

/// Mathematical view of a [`Session`]: the key it expects and the stage
/// it is at.
pub struct SessionView {
    pub key: Seq<char>,
    pub stage: StageView,
}

impl SessionView {
    /// A session that has not seen any event yet.
    pub open spec fn fresh(key: Seq<char>) -> SessionView {
        SessionView { key, stage: StageView::AwaitingKey }
    }

    /// The same session at another stage.
    pub open spec fn at(self, stage: StageView) -> SessionView {
        SessionView { key: self.key, stage }
    }

    /// The phase the session is in.
    pub open spec fn phase(self) -> Phase {
        self.stage.phase()
    }

    /// Waiting for the next client message of the negotiation.
    pub open spec fn negotiate(self) -> (SessionView, ActionView) {
        (
            self.at(StageView::AwaitingShellRequest),
            ActionView::AwaitMessage { timeout_ms: SHELL_REQUEST_TIMEOUT_MS },
        )
    }

    /// Waiting for the shell or the client, whichever is ready first.
    pub open spec fn relay(self) -> (SessionView, ActionView) {
        (self.at(StageView::Relaying), ActionView::Relay { chunk: READ_CHUNK })
    }

    /// Holding the connection open before it is closed.
    pub open spec fn drain(self) -> (SessionView, ActionView) {
        (self.at(StageView::Lingering), ActionView::Linger { millis: LINGER_MS })
    }

    /// Ending with an error.
    pub open spec fn fail(self, error: ShellError) -> (SessionView, ActionView) {
        (self.at(StageView::Failed(error)), ActionView::Abort(error))
    }

    /// Ending because the event answers nothing the session asked for.
    pub open spec fn out_of_turn(self) -> (SessionView, ActionView) {
        self.fail(ShellError::OutOfTurn(self.phase()))
    }

    /// What a session does with the answer to its wait for the key: a
    /// matching key is accepted, any other rejected; everything else
    /// ends the session.
    pub open spec fn wait_for_key(self, event: EventView) -> (SessionView, ActionView) {
        match event {
            EventView::Message(ClientMessageView::Key(candidate)) => if candidate == self.key {
                (
                    self.at(StageView::AcceptingKey),
                    ActionView::Send(ServerMessageView::KeyAccepted),
                )
            } else {
                (
                    self.at(StageView::RejectingKey),
                    ActionView::Send(ServerMessageView::KeyRejected),
                )
            },
            EventView::Message(other) => self.fail(
                ShellError::UnexpectedMessage(Phase::Authenticating, other.kind()),
            ),
            EventView::InvalidMessage => self.fail(
                ShellError::InvalidMessage(Phase::Authenticating),
            ),
            EventView::StreamEnded => self.fail(ShellError::ClientClosed(Phase::Authenticating)),
            EventView::TimedOut => self.fail(ShellError::Timeout(Phase::Authenticating)),
            _ => self.out_of_turn(),
        }
    }

    /// What a session does once its verdict on the key went out, or did
    /// not.
    pub open spec fn answer_key(self, event: EventView) -> (SessionView, ActionView) {
        match event {
            EventView::Sent => if self.stage is AcceptingKey {
                self.negotiate()
            } else {
                self.fail(ShellError::KeyRejected)
            },
            EventView::SendFailed => self.fail(ShellError::SendFailed(Phase::Authenticating)),
            _ => self.out_of_turn(),
        }
    }

    /// What a session does with the answer to its wait for the shell
    /// request: the request starts a shell on a pseudo-terminal;
    /// everything else ends the session.
    pub open spec fn start_shell(self, event: EventView) -> (SessionView, ActionView) {
        match event {
            EventView::Message(ClientMessageView::StartShell(request)) => (
                self.at(StageView::StartingPty(request)),
                ActionView::StartPty(request),
            ),
            EventView::Message(other) => self.fail(
                ShellError::UnexpectedMessage(Phase::Negotiating, other.kind()),
            ),
            EventView::InvalidMessage => self.fail(ShellError::InvalidMessage(Phase::Negotiating)),
            EventView::StreamEnded => self.fail(ShellError::ClientClosed(Phase::Negotiating)),
            EventView::TimedOut => self.fail(ShellError::Timeout(Phase::Negotiating)),
            _ => self.out_of_turn(),
        }
    }

    /// What a session does once the pseudo-terminal started, or did not:
    /// a failure is answered with the built-in shell for the same
    /// request, never with the end of the session.
    pub open spec fn pty_started(self, request: StartShellPayloadView, event: EventView) -> (
        SessionView,
        ActionView,
    ) {
        match event {
            EventView::ShellStarted => self.relay(),
            EventView::ShellStartFailed => (
                self.at(StageView::StartingFallback),
                ActionView::StartFallback(request),
            ),
            _ => self.out_of_turn(),
        }
    }

    /// What a session does once the built-in shell started.
    pub open spec fn fallback_started(self, event: EventView) -> (SessionView, ActionView) {
        match event {
            EventView::ShellStarted => self.relay(),
            _ => self.out_of_turn(),
        }
    }

    /// What a relaying session does with whichever came first: output
    /// of the shell goes to the client, the end of the output leads to
    /// the exit code, input and resizes of the client go to the shell,
    /// the end of the client's stream leads to the linger, and
    /// everything else ends the session.
    pub open spec fn stream_shell_io(self, event: EventView) -> (SessionView, ActionView) {
        match event {
            EventView::ShellRead(bytes) => if bytes.len() == 0 {
                (self.at(StageView::FetchingExitCode), ActionView::QueryExitCode)
            } else {
                (
                    self.at(StageView::ForwardingOutput),
                    ActionView::Send(ServerMessageView::Stdout(bytes)),
                )
            },
            EventView::ShellReadFailed => self.fail(ShellError::ShellRead),
            EventView::Message(ClientMessageView::Stdin(payload)) => (
                self.at(StageView::WritingInput),
                ActionView::WriteShell(payload),
            ),
            EventView::Message(ClientMessageView::Resize(size)) => (
                self.at(StageView::Resizing),
                ActionView::ResizeShell(size),
            ),
            EventView::Message(other) => self.fail(
                ShellError::UnexpectedMessage(Phase::Streaming, other.kind()),
            ),
            EventView::InvalidMessage => self.fail(ShellError::InvalidMessage(Phase::Streaming)),
            EventView::StreamEnded => self.drain(),
            _ => self.out_of_turn(),
        }
    }

    /// What a session does once one step of the relay is done: it goes
    /// back to relaying if the step went well, and ends if not.
    pub open spec fn relay_step_done(self, event: EventView) -> (SessionView, ActionView) {
        match (self.stage, event) {
            (StageView::ForwardingOutput, EventView::Sent) => self.relay(),
            (StageView::ForwardingOutput, EventView::SendFailed) => self.fail(
                ShellError::SendFailed(Phase::Streaming),
            ),
            (StageView::WritingInput, EventView::ShellWritten) => self.relay(),
            (StageView::WritingInput, EventView::ShellWriteFailed) => self.fail(
                ShellError::ShellWrite,
            ),
            (StageView::Resizing, EventView::ShellResized) => self.relay(),
            (StageView::Resizing, EventView::ShellResizeFailed) => self.fail(
                ShellError::ShellResize,
            ),
            _ => self.out_of_turn(),
        }
    }

    /// What a session does about the end of the shell: the exit code is
    /// reported to the client, and the linger follows the report.
    pub open spec fn shell_exited(self, event: EventView) -> (SessionView, ActionView) {
        match (self.stage, event) {
            (StageView::FetchingExitCode, EventView::ExitCode(Some(code))) => (
                self.at(StageView::ReportingExit),
                ActionView::Send(ServerMessageView::Exited(code)),
            ),
            (StageView::FetchingExitCode, EventView::ExitCode(None)) => self.fail(
                ShellError::ExitCodeUnavailable,
            ),
            (StageView::ReportingExit, EventView::Sent) => self.drain(),
            (StageView::ReportingExit, EventView::SendFailed) => self.fail(
                ShellError::SendFailed(Phase::Streaming),
            ),
            _ => self.out_of_turn(),
        }
    }

    /// What a lingering session does: it ends well when the interval is
    /// over.
    pub open spec fn linger(self, event: EventView) -> (SessionView, ActionView) {
        match event {
            EventView::LingerElapsed => (self.at(StageView::Completed), ActionView::Finish),
            _ => self.out_of_turn(),
        }
    }

    /// The session after `event`, and the action it asks for next. A
    /// session that has ended stays as it is and repeats its last word.
    pub open spec fn step(self, event: EventView) -> (SessionView, ActionView) {
        match self.stage {
            StageView::AwaitingKey => self.wait_for_key(event),
            StageView::AcceptingKey | StageView::RejectingKey => self.answer_key(event),
            StageView::AwaitingShellRequest => self.start_shell(event),
            StageView::StartingPty(request) => self.pty_started(request, event),
            StageView::StartingFallback => self.fallback_started(event),
            StageView::Relaying => self.stream_shell_io(event),
            StageView::ForwardingOutput | StageView::WritingInput | StageView::Resizing =>
                self.relay_step_done(event),
            StageView::FetchingExitCode | StageView::ReportingExit => self.shell_exited(event),
            StageView::Lingering => self.linger(event),
            StageView::Completed => (self, ActionView::Finish),
            StageView::Failed(error) => (self, ActionView::Abort(error)),
        }
    }
}

/// One connection's session: it knows the key it expects and the stage
/// it has reached.
#[derive(Clone, Debug, PartialEq, Eq)]
pub struct Session {
    key: ShellKey,
    stage: Stage,
}

impl View for Session {
    type V = SessionView;

    closed spec fn view(&self) -> SessionView {
        SessionView { key: self.key@, stage: self.stage@ }
    }
}

impl Stage {
    /// The phase the stage belongs to.
    pub fn phase(&self) -> (phase: Phase)
        ensures
            phase == self@.phase(),
    {
        match self {
            Stage::AwaitingKey | Stage::AcceptingKey | Stage::RejectingKey => Phase::Authenticating,
            Stage::AwaitingShellRequest | Stage::StartingPty(_) | Stage::StartingFallback =>
                Phase::Negotiating,
            Stage::Relaying | Stage::ForwardingOutput | Stage::WritingInput | Stage::Resizing
            | Stage::FetchingExitCode | Stage::ReportingExit => Phase::Streaming,
            Stage::Lingering => Phase::Draining,
            Stage::Completed => Phase::Completed,
            Stage::Failed(_) => Phase::Failed,
        }
    }
}

impl Session {
    /// A session that expects `key` and has not seen any event yet.
    pub fn new(key: ShellKey) -> (session: Session)
        ensures
            session@ == SessionView::fresh(key@),
    {
        Session { key, stage: Stage::AwaitingKey }
    }

    /// The key the session expects.
    pub fn key(&self) -> (key: &ShellKey)
        ensures
            key@ == self@.key,
    {
        &self.key
    }

    /// The stage the session is at.
    pub fn stage(&self) -> (stage: &Stage)
        ensures
            stage@ == self@.stage,
    {
        &self.stage
    }

    /// The phase the session is in.
    pub fn phase(&self) -> (phase: Phase)
        ensures
            phase == self@.phase(),
    {
        self.stage.phase()
    }

    /// Whether the session has ended, well or not.
    pub fn is_finished(&self) -> (finished: bool)
        ensures
            finished == self@.phase().is_final(),
    {
        match self.stage {
            Stage::Completed => true,
            Stage::Failed(_) => true,
            _ => false,
        }
    }

    /// How the session ended: `None` while it is running, `Some(Ok(()))`
    /// once it has completed, `Some(Err(..))` once it has failed.
    pub fn result(&self) -> (result: Option<Result<(), ShellError>>)
        ensures
            result == match self@.stage {
                StageView::Completed => Some(Ok::<(), ShellError>(())),
                StageView::Failed(error) => Some(Err::<(), ShellError>(error)),
                _ => None,
            },
    {
        match self.stage {
            Stage::Completed => Some(Ok(())),
            Stage::Failed(error) => Some(Err(error)),
            _ => None,
        }
    }

    fn negotiate(self) -> (next: (Session, Action))
        ensures
            (next.0@, next.1@) == self@.negotiate(),
    {
        (
            Session { key: self.key, stage: Stage::AwaitingShellRequest },
            Action::AwaitMessage { timeout_ms: SHELL_REQUEST_TIMEOUT_MS },
        )
    }

    fn relay(self) -> (next: (Session, Action))
        ensures
            (next.0@, next.1@) == self@.relay(),
    {
        (Session { key: self.key, stage: Stage::Relaying }, Action::Relay { chunk: READ_CHUNK })
    }

    fn drain(self) -> (next: (Session, Action))
        ensures
            (next.0@, next.1@) == self@.drain(),
    {
        (Session { key: self.key, stage: Stage::Lingering }, Action::Linger { millis: LINGER_MS })
    }

    fn fail(self, error: ShellError) -> (next: (Session, Action))
        ensures
            (next.0@, next.1@) == self@.fail(error),
    {
        (Session { key: self.key, stage: Stage::Failed(error) }, Action::Abort(error))
    }

    fn out_of_turn(self) -> (next: (Session, Action))
        ensures
            (next.0@, next.1@) == self@.out_of_turn(),
    {
        let phase = self.stage.phase();
        self.fail(ShellError::OutOfTurn(phase))
    }

    fn wait_for_key(self, event: Event) -> (next: (Session, Action))
        ensures
            (next.0@, next.1@) == self@.wait_for_key(event@),
    {
        match event {
            Event::Message(ShellClientMessage::Key(candidate)) => {
                if self.key.matches(candidate.as_str()) {
                    (
                        Session { key: self.key, stage: Stage::AcceptingKey },
                        Action::Send(ShellServerMessage::KeyAccepted),
                    )
                } else {
                    (
                        Session { key: self.key, stage: Stage::RejectingKey },
                        Action::Send(ShellServerMessage::KeyRejected),
                    )
                }
            },
            Event::Message(other) => {
                let kind = other.kind();
                self.fail(ShellError::UnexpectedMessage(Phase::Authenticating, kind))
            },
            Event::InvalidMessage => self.fail(ShellError::InvalidMessage(Phase::Authenticating)),
            Event::StreamEnded => self.fail(ShellError::ClientClosed(Phase::Authenticating)),
            Event::TimedOut => self.fail(ShellError::Timeout(Phase::Authenticating)),
            _ => self.out_of_turn(),
        }
    }

    fn answer_key(self, event: Event) -> (next: (Session, Action))
        ensures
            (next.0@, next.1@) == self@.answer_key(event@),
    {
        match event {
            Event::Sent => {
                let accepted = match self.stage {
                    Stage::AcceptingKey => true,
                    _ => false,
                };
                if accepted {
                    self.negotiate()
                } else {
                    self.fail(ShellError::KeyRejected)
                }
            },
            Event::SendFailed => self.fail(ShellError::SendFailed(Phase::Authenticating)),
            _ => self.out_of_turn(),
        }
    }

    fn start_shell(self, event: Event) -> (next: (Session, Action))
        ensures
            (next.0@, next.1@) == self@.start_shell(event@),
    {
        match event {
            Event::Message(ShellClientMessage::StartShell(request)) => {
                let kept = request.duplicate();
                (Session { key: self.key, stage: Stage::StartingPty(kept) }, Action::StartPty(request))
            },
            Event::Message(other) => {
                let kind = other.kind();
                self.fail(ShellError::UnexpectedMessage(Phase::Negotiating, kind))
            },
            Event::InvalidMessage => self.fail(ShellError::InvalidMessage(Phase::Negotiating)),
            Event::StreamEnded => self.fail(ShellError::ClientClosed(Phase::Negotiating)),
            Event::TimedOut => self.fail(ShellError::Timeout(Phase::Negotiating)),
            _ => self.out_of_turn(),
        }
    }

    fn pty_started(key: ShellKey, request: StartShellPayload, event: Event) -> (next: (
        Session,
        Action,
    ))
        ensures
            (next.0@, next.1@) == (SessionView {
                key: key@,
                stage: StageView::StartingPty(request@),
            }).pty_started(request@, event@),
    {
        match event {
            Event::ShellStarted => Session { key, stage: Stage::StartingPty(request) }.relay(),
            Event::ShellStartFailed => (
                Session { key, stage: Stage::StartingFallback },
                Action::StartFallback(request),
            ),
            _ => Session { key, stage: Stage::StartingPty(request) }.out_of_turn(),
        }
    }

    fn fallback_started(self, event: Event) -> (next: (Session, Action))
        ensures
            (next.0@, next.1@) == self@.fallback_started(event@),
    {
        match event {
            Event::ShellStarted => self.relay(),
            _ => self.out_of_turn(),
        }
    }

    fn stream_shell_io(self, event: Event) -> (next: (Session, Action))
        ensures
            (next.0@, next.1@) == self@.stream_shell_io(event@),
    {
        match event {
            Event::ShellRead(bytes) => {
                if bytes.len() == 0 {
                    (
                        Session { key: self.key, stage: Stage::FetchingExitCode },
                        Action::QueryExitCode,
                    )
                } else {
                    (
                        Session { key: self.key, stage: Stage::ForwardingOutput },
                        Action::Send(ShellServerMessage::Stdout(bytes)),
                    )
                }
            },
            Event::ShellReadFailed => self.fail(ShellError::ShellRead),
            Event::Message(ShellClientMessage::Stdin(payload)) => (
                Session { key: self.key, stage: Stage::WritingInput },
                Action::WriteShell(payload),
            ),
            Event::Message(ShellClientMessage::Resize(size)) => (
                Session { key: self.key, stage: Stage::Resizing },
                Action::ResizeShell(size),
            ),
            Event::Message(other) => {
                let kind = other.kind();
                self.fail(ShellError::UnexpectedMessage(Phase::Streaming, kind))
            },
            Event::InvalidMessage => self.fail(ShellError::InvalidMessage(Phase::Streaming)),
            Event::StreamEnded => self.drain(),
            _ => self.out_of_turn(),
        }
    }

    fn relay_step_done(self, event: Event) -> (next: (Session, Action))
        ensures
            (next.0@, next.1@) == self@.relay_step_done(event@),
    {
        match (&self.stage, event) {
            (Stage::ForwardingOutput, Event::Sent) => self.relay(),
            (Stage::ForwardingOutput, Event::SendFailed) => self.fail(
                ShellError::SendFailed(Phase::Streaming),
            ),
            (Stage::WritingInput, Event::ShellWritten) => self.relay(),
            (Stage::WritingInput, Event::ShellWriteFailed) => self.fail(ShellError::ShellWrite),
            (Stage::Resizing, Event::ShellResized) => self.relay(),
            (Stage::Resizing, Event::ShellResizeFailed) => self.fail(ShellError::ShellResize),
            _ => self.out_of_turn(),
        }
    }

    fn shell_exited(self, event: Event) -> (next: (Session, Action))
        ensures
            (next.0@, next.1@) == self@.shell_exited(event@),
    {
        match (&self.stage, event) {
            (Stage::FetchingExitCode, Event::ExitCode(Some(code))) => (
                Session { key: self.key, stage: Stage::ReportingExit },
                Action::Send(ShellServerMessage::Exited(code)),
            ),
            (Stage::FetchingExitCode, Event::ExitCode(None)) => self.fail(
                ShellError::ExitCodeUnavailable,
            ),
            (Stage::ReportingExit, Event::Sent) => self.drain(),
            (Stage::ReportingExit, Event::SendFailed) => self.fail(
                ShellError::SendFailed(Phase::Streaming),
            ),
            _ => self.out_of_turn(),
        }
    }

    fn linger(self, event: Event) -> (next: (Session, Action))
        ensures
            (next.0@, next.1@) == self@.linger(event@),
    {
        match event {
            Event::LingerElapsed => (
                Session { key: self.key, stage: Stage::Completed },
                Action::Finish,
            ),
            _ => self.out_of_turn(),
        }
    }

    /// Takes the answer to the action the session asked for last, and
    /// returns the session after it together with the action it asks
    /// for next. Every event is accepted at every stage: one that
    /// answers nothing the session asked for ends it, and a session
    /// that has ended stays as it is.
    pub fn step(self, event: Event) -> (next: (Session, Action))
        ensures
            (next.0@, next.1@) == self@.step(event@),
    {
        let Session { key, stage } = self;
        match stage {
            Stage::AwaitingKey => Session { key, stage: Stage::AwaitingKey }.wait_for_key(event),
            Stage::AcceptingKey => Session { key, stage: Stage::AcceptingKey }.answer_key(event),
            Stage::RejectingKey => Session { key, stage: Stage::RejectingKey }.answer_key(event),
            Stage::AwaitingShellRequest => Session {
                key,
                stage: Stage::AwaitingShellRequest,
            }.start_shell(event),
            Stage::StartingPty(request) => Session::pty_started(key, request, event),
            Stage::StartingFallback => Session {
                key,
                stage: Stage::StartingFallback,
            }.fallback_started(event),
            Stage::Relaying => Session { key, stage: Stage::Relaying }.stream_shell_io(event),
            Stage::ForwardingOutput => Session {
                key,
                stage: Stage::ForwardingOutput,
            }.relay_step_done(event),
            Stage::WritingInput => Session { key, stage: Stage::WritingInput }.relay_step_done(
                event,
            ),
            Stage::Resizing => Session { key, stage: Stage::Resizing }.relay_step_done(event),
            Stage::FetchingExitCode => Session {
                key,
                stage: Stage::FetchingExitCode,
            }.shell_exited(event),
            Stage::ReportingExit => Session { key, stage: Stage::ReportingExit }.shell_exited(
                event,
            ),
            Stage::Lingering => Session { key, stage: Stage::Lingering }.linger(event),
            Stage::Completed => (Session { key, stage: Stage::Completed }, Action::Finish),
            Stage::Failed(error) => (
                Session { key, stage: Stage::Failed(error) },
                Action::Abort(error),
            ),
        }
    }
}

/// The entry point of the shell server: it opens one session for each
/// connection it is given a key for.
#[derive(Clone, Copy, Debug, PartialEq, Eq)]
pub struct ShellServer {}

impl ShellServer {
    /// A shell server. It is always there to be had.
    pub fn new() -> (server: Result<ShellServer, ShellError>)
        ensures
            server == Ok::<ShellServer, ShellError>(ShellServer {}),
    {
        Ok(ShellServer {})
    }

    /// Opens the session of one connection: it expects `key`, has seen
    /// no event yet, and asks first for the client's key, to arrive
    /// before the key deadline.
    pub fn run(self, key: ShellKey) -> (opened: (Session, Action))
        ensures
            opened.0@ == SessionView::fresh(key@),
            opened.1@ == (ActionView::AwaitMessage { timeout_ms: KEY_TIMEOUT_MS }),
    {
        (Session::new(key), Action::AwaitMessage { timeout_ms: KEY_TIMEOUT_MS })
    }
}


} // verus!
