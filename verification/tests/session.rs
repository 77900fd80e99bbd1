use tunshell_session::error::{Phase, ShellError};
use tunshell_session::event::{Action, Event};
use tunshell_session::key::ShellKey;
use tunshell_session::proto::{
    MessageKind, ShellClientMessage, ShellServerMessage, StartShellPayload, WindowSize,
};
use tunshell_session::session::{Session, ShellServer, Stage};

/// A shell that understands `echo "<text>"` and `exit`, line by line.
struct ScriptedShell {
    pending_input: Vec<u8>,
    output: Vec<u8>,
    exit_code: Option<i32>,
    size: WindowSize,
    pty: bool,
}

impl ScriptedShell {
    fn write(&mut self, bytes: &[u8]) {
        self.pending_input.extend_from_slice(bytes);
        while let Some(end) = self.pending_input.iter().position(|b| *b == b'\n') {
            let line: Vec<u8> = self.pending_input.drain(..=end).collect();
            let line = String::from_utf8(line).unwrap();
            let line = line.trim();
            if line == "exit" {
                self.exit_code = Some(0);
            } else if let Some(text) = line.strip_prefix("echo ") {
                self.output.extend_from_slice(text.trim_matches('"').as_bytes());
                self.output.push(b'\n');
            }
        }
    }

    fn read(&mut self, chunk: usize) -> Option<Vec<u8>> {
        if !self.output.is_empty() {
            let n = chunk.min(self.output.len());
            Some(self.output.drain(..n).collect())
        } else if self.exit_code.is_some() {
            Some(Vec::new())
        } else {
            None
        }
    }
}

/// What a run of a session against a scripted client and shell gave.
struct Run {
    result: Result<(), ShellError>,
    sent: Vec<ShellServerMessage>,
    shell: Option<ScriptedShell>,
    lingered: Option<u64>,
}

/// Runs a session to its end. The client sends `messages` and then does
/// what `silence` says: `Event::TimedOut` while the session waits with a
/// deadline, `Event::StreamEnded` otherwise.
fn serve(
    key: &str,
    messages: Vec<ShellClientMessage>,
    silence: Event,
    pty_available: bool,
) -> Run {
    let mut incoming = messages.into_iter();
    let mut sent = Vec::new();
    let mut shell: Option<ScriptedShell> = None;
    let mut lingered = None;
    let server = ShellServer::new().unwrap();
    let (mut session, mut action) = server.run(ShellKey::new(key));
    loop {
        let event = match action {
            Action::AwaitMessage { .. } => match incoming.next() {
                Some(message) => Event::Message(message),
                None => silence.clone(),
            },
            Action::Send(message) => {
                sent.push(message);
                Event::Sent
            }
            Action::StartPty(request) => {
                if pty_available {
                    shell = Some(ScriptedShell {
                        pending_input: Vec::new(),
                        output: Vec::new(),
                        exit_code: None,
                        size: request.size,
                        pty: true,
                    });
                    Event::ShellStarted
                } else {
                    Event::ShellStartFailed
                }
            }
            Action::StartFallback(request) => {
                shell = Some(ScriptedShell {
                    pending_input: Vec::new(),
                    output: Vec::new(),
                    exit_code: None,
                    size: request.size,
                    pty: false,
                });
                Event::ShellStarted
            }
            Action::Relay { chunk } => match shell.as_mut().unwrap().read(chunk) {
                Some(bytes) => Event::ShellRead(bytes),
                None => match incoming.next() {
                    Some(message) => Event::Message(message),
                    None => Event::StreamEnded,
                },
            },
            Action::WriteShell(bytes) => {
                shell.as_mut().unwrap().write(&bytes);
                Event::ShellWritten
            }
            Action::ResizeShell(size) => {
                shell.as_mut().unwrap().size = size;
                Event::ShellResized
            }
            Action::QueryExitCode => Event::ExitCode(shell.as_ref().unwrap().exit_code),
            Action::Linger { millis } => {
                lingered = Some(millis);
                Event::LingerElapsed
            }
            Action::Finish => {
                assert_eq!(session.result(), Some(Ok(())));
                return Run { result: Ok(()), sent, shell, lingered };
            }
            Action::Abort(error) => {
                assert_eq!(session.result(), Some(Err(error)));
                return Run { result: Err(error), sent, shell, lingered };
            }
        };
        let next = session.step(event);
        session = next.0;
        action = next.1;
    }
}

fn start_shell(term: &str, columns: u32, rows: u32) -> ShellClientMessage {
    ShellClientMessage::StartShell(StartShellPayload {
        term: term.to_owned(),
        size: WindowSize(columns, rows),
    })
}

#[test]
fn test_new_shell_server() {
    ShellServer::new().unwrap();
}

#[test]
fn test_rejected_key() {
    let run = serve(
        "MyKey",
        vec![ShellClientMessage::Key("Invalid".to_owned())],
        Event::StreamEnded,
        true,
    );
    assert!(run.result.is_err(), "client key should be rejected");
    assert_eq!(run.result, Err(ShellError::KeyRejected));
    assert_eq!(run.sent, vec![ShellServerMessage::KeyRejected]);
}

#[test]
fn test_key_timeout() {
    let run = serve("CorrectKey", Vec::new(), Event::TimedOut, true);
    assert!(run.result.is_err(), "should timeout");
    assert_eq!(run.result, Err(ShellError::Timeout(Phase::Authenticating)));
    assert!(run.sent.is_empty());
}

#[test]
fn test_start_shell_timeout() {
    let run = serve(
        "CorrectKey",
        vec![ShellClientMessage::Key("CorrectKey".to_owned())],
        Event::TimedOut,
        true,
    );
    assert!(run.result.is_err(), "should timeout");
    assert_eq!(run.result, Err(ShellError::Timeout(Phase::Negotiating)));
    assert_eq!(run.sent, vec![ShellServerMessage::KeyAccepted]);
}

#[test]
fn test_start_connect_to_shell() {
    let run = serve(
        "CorrectKey",
        vec![
            ShellClientMessage::Key("CorrectKey".to_owned()),
            start_shell("TERM", 50, 50),
            ShellClientMessage::Stdin("echo \"hello\"\n".as_bytes().to_vec()),
            ShellClientMessage::Resize(WindowSize(100, 80)),
            ShellClientMessage::Stdin("exit\n".as_bytes().to_vec()),
        ],
        Event::StreamEnded,
        true,
    );
    run.result.unwrap();
    assert_eq!(
        run.sent,
        vec![
            ShellServerMessage::KeyAccepted,
            ShellServerMessage::Stdout(b"hello\n".to_vec()),
            ShellServerMessage::Exited(0),
        ]
    );
    let shell = run.shell.unwrap();
    assert!(shell.pty);
    assert_eq!(shell.size, WindowSize(100, 80));
    assert_eq!(run.lingered, Some(500));
}

#[test]
fn test_start_connect_to_shell_then_error() {
    let run = serve(
        "CorrectKey",
        vec![
            ShellClientMessage::Key("CorrectKey".to_owned()),
            start_shell("TERM", 50, 50),
            ShellClientMessage::Error("some error occurred".to_owned()),
        ],
        Event::StreamEnded,
        true,
    );
    assert!(run.result.is_err(), "should return error");
    assert_eq!(
        run.result,
        Err(ShellError::UnexpectedMessage(Phase::Streaming, MessageKind::Error))
    );
    assert_eq!(run.sent, vec![ShellServerMessage::KeyAccepted]);
    assert_eq!(run.lingered, None);
}

#[test]
fn key_stream_end_fails_without_reply() {
    let run = serve("CorrectKey", Vec::new(), Event::StreamEnded, true);
    assert_eq!(run.result, Err(ShellError::ClientClosed(Phase::Authenticating)));
    assert!(run.sent.is_empty());
}

#[test]
fn shell_request_stream_end_fails() {
    let run = serve(
        "k",
        vec![ShellClientMessage::Key("k".to_owned())],
        Event::StreamEnded,
        true,
    );
    assert_eq!(run.result, Err(ShellError::ClientClosed(Phase::Negotiating)));
    assert_eq!(run.sent, vec![ShellServerMessage::KeyAccepted]);
}

#[test]
fn fallback_shell_serves_when_pty_is_missing() {
    let run = serve(
        "CorrectKey",
        vec![
            ShellClientMessage::Key("CorrectKey".to_owned()),
            start_shell("xterm", 80, 24),
            ShellClientMessage::Stdin(b"echo one\n".to_vec()),
            ShellClientMessage::Stdin(b"exit\n".to_vec()),
        ],
        Event::StreamEnded,
        false,
    );
    assert_eq!(run.result, Ok(()));
    let shell = run.shell.unwrap();
    assert!(!shell.pty);
    assert_eq!(shell.size, WindowSize(80, 24));
    assert_eq!(
        run.sent,
        vec![
            ShellServerMessage::KeyAccepted,
            ShellServerMessage::Stdout(b"one\n".to_vec()),
            ShellServerMessage::Exited(0),
        ]
    );
}

#[test]
fn client_disconnect_while_streaming_completes_without_exit() {
    let run = serve(
        "CorrectKey",
        vec![
            ShellClientMessage::Key("CorrectKey".to_owned()),
            start_shell("TERM", 50, 50),
            ShellClientMessage::Stdin(b"echo hi\n".to_vec()),
        ],
        Event::StreamEnded,
        true,
    );
    assert_eq!(run.result, Ok(()));
    assert_eq!(
        run.sent,
        vec![ShellServerMessage::KeyAccepted, ShellServerMessage::Stdout(b"hi\n".to_vec())]
    );
    assert_eq!(run.lingered, Some(500));
}

#[test]
fn first_action_waits_for_key_with_deadline() {
    let (session, action) = ShellServer::new().unwrap().run(ShellKey::new("abc"));
    assert_eq!(action, Action::AwaitMessage { timeout_ms: 3000 });
    assert_eq!(session.stage(), &Stage::AwaitingKey);
    assert_eq!(session.phase(), Phase::Authenticating);
    assert_eq!(session.key().key(), "abc");
    assert!(!session.is_finished());
    assert_eq!(session.result(), None);
}

#[test]
fn session_new_is_what_run_opens() {
    let opened = ShellServer::new().unwrap().run(ShellKey::new("abc")).0;
    assert_eq!(Session::new(ShellKey::new("abc")), opened);
}

#[test]
fn accepted_key_leads_to_negotiation_with_deadline() {
    let session = Session::new(ShellKey::new("secret"));
    let (session, action) = session.step(Event::Message(ShellClientMessage::Key("secret".into())));
    assert_eq!(action, Action::Send(ShellServerMessage::KeyAccepted));
    assert_eq!(session.stage(), &Stage::AcceptingKey);
    assert_eq!(session.phase(), Phase::Authenticating);
    let (session, action) = session.step(Event::Sent);
    assert_eq!(action, Action::AwaitMessage { timeout_ms: 3000 });
    assert_eq!(session.stage(), &Stage::AwaitingShellRequest);
    assert_eq!(session.phase(), Phase::Negotiating);
}

#[test]
fn rejected_key_is_answered_before_failure() {
    let session = Session::new(ShellKey::new("secret"));
    let (session, action) = session.step(Event::Message(ShellClientMessage::Key("secreT".into())));
    assert_eq!(action, Action::Send(ShellServerMessage::KeyRejected));
    assert_eq!(session.stage(), &Stage::RejectingKey);
    assert!(!session.is_finished());
    let (session, action) = session.step(Event::Sent);
    assert_eq!(action, Action::Abort(ShellError::KeyRejected));
    assert_eq!(session.stage(), &Stage::Failed(ShellError::KeyRejected));
    assert_eq!(session.phase(), Phase::Failed);
    assert!(session.is_finished());
}

#[test]
fn verdict_that_cannot_be_sent_fails_the_session() {
    for key in ["secret", "other"] {
        let session = Session::new(ShellKey::new("secret"));
        let (session, _) = session.step(Event::Message(ShellClientMessage::Key(key.into())));
        let (session, action) = session.step(Event::SendFailed);
        assert_eq!(action, Action::Abort(ShellError::SendFailed(Phase::Authenticating)));
        assert_eq!(session.result(), Some(Err(ShellError::SendFailed(Phase::Authenticating))));
    }
}

fn unexpected_in_authentication(message: ShellClientMessage, kind: MessageKind) {
    let (session, action) = Session::new(ShellKey::new("k")).step(Event::Message(message));
    let error = ShellError::UnexpectedMessage(Phase::Authenticating, kind);
    assert_eq!(action, Action::Abort(error));
    assert_eq!(session.stage(), &Stage::Failed(error));
}

#[test]
fn only_a_key_is_accepted_first() {
    unexpected_in_authentication(start_shell("TERM", 1, 1), MessageKind::StartShell);
    unexpected_in_authentication(ShellClientMessage::Stdin(vec![1]), MessageKind::Stdin);
    unexpected_in_authentication(ShellClientMessage::Resize(WindowSize(1, 1)), MessageKind::Resize);
    unexpected_in_authentication(ShellClientMessage::Error("k".into()), MessageKind::Error);
}

#[test]
fn invalid_message_is_fatal_in_every_phase() {
    let (session, action) = Session::new(ShellKey::new("k")).step(Event::InvalidMessage);
    assert_eq!(action, Action::Abort(ShellError::InvalidMessage(Phase::Authenticating)));
    assert!(session.is_finished());

    let (session, _) = negotiating("k").step(Event::InvalidMessage);
    assert_eq!(session.result(), Some(Err(ShellError::InvalidMessage(Phase::Negotiating))));

    let (session, _) = relaying("k").step(Event::InvalidMessage);
    assert_eq!(session.result(), Some(Err(ShellError::InvalidMessage(Phase::Streaming))));
}

fn negotiating(key: &str) -> Session {
    let session = Session::new(ShellKey::new(key));
    let (session, _) = session.step(Event::Message(ShellClientMessage::Key(key.to_owned())));
    let (session, _) = session.step(Event::Sent);
    assert_eq!(session.stage(), &Stage::AwaitingShellRequest);
    session
}

fn relaying(key: &str) -> Session {
    let (session, _) = negotiating(key).step(Event::Message(start_shell("TERM", 50, 50)));
    let (session, action) = session.step(Event::ShellStarted);
    assert_eq!(action, Action::Relay { chunk: 1024 });
    assert_eq!(session.stage(), &Stage::Relaying);
    session
}

#[test]
fn shell_request_starts_pty_with_the_request() {
    let request = StartShellPayload { term: "vt100".to_owned(), size: WindowSize(132, 43) };
    let (session, action) =
        negotiating("k").step(Event::Message(ShellClientMessage::StartShell(request.clone())));
    assert_eq!(action, Action::StartPty(request.clone()));
    assert_eq!(session.stage(), &Stage::StartingPty(request.clone()));
    assert_eq!(session.phase(), Phase::Negotiating);

    let (session, action) = session.step(Event::ShellStartFailed);
    assert_eq!(action, Action::StartFallback(request));
    assert_eq!(session.stage(), &Stage::StartingFallback);
    assert_eq!(session.phase(), Phase::Negotiating);

    let (session, action) = session.step(Event::ShellStarted);
    assert_eq!(action, Action::Relay { chunk: 1024 });
    assert_eq!(session.phase(), Phase::Streaming);
}

#[test]
fn only_a_shell_request_is_accepted_second() {
    let cases = vec![
        (ShellClientMessage::Key("k".into()), MessageKind::Key),
        (ShellClientMessage::Stdin(Vec::new()), MessageKind::Stdin),
        (ShellClientMessage::Resize(WindowSize(2, 3)), MessageKind::Resize),
        (ShellClientMessage::Error("e".into()), MessageKind::Error),
    ];
    for (message, kind) in cases {
        let (session, action) = negotiating("k").step(Event::Message(message));
        let error = ShellError::UnexpectedMessage(Phase::Negotiating, kind);
        assert_eq!(action, Action::Abort(error));
        assert_eq!(session.result(), Some(Err(error)));
    }
}

#[test]
fn relay_forwards_input_resize_and_output() {
    let (session, action) =
        relaying("k").step(Event::Message(ShellClientMessage::Stdin(b"ls\n".to_vec())));
    assert_eq!(action, Action::WriteShell(b"ls\n".to_vec()));
    assert_eq!(session.stage(), &Stage::WritingInput);
    let (session, action) = session.step(Event::ShellWritten);
    assert_eq!(action, Action::Relay { chunk: 1024 });

    let (session, action) =
        session.step(Event::Message(ShellClientMessage::Resize(WindowSize(100, 80))));
    assert_eq!(action, Action::ResizeShell(WindowSize(100, 80)));
    assert_eq!(session.stage(), &Stage::Resizing);
    let (session, action) = session.step(Event::ShellResized);
    assert_eq!(action, Action::Relay { chunk: 1024 });

    let (session, action) = session.step(Event::ShellRead(b"a.txt\n".to_vec()));
    assert_eq!(action, Action::Send(ShellServerMessage::Stdout(b"a.txt\n".to_vec())));
    assert_eq!(session.stage(), &Stage::ForwardingOutput);
    let (session, action) = session.step(Event::Sent);
    assert_eq!(action, Action::Relay { chunk: 1024 });
    assert_eq!(session.stage(), &Stage::Relaying);
}

#[test]
fn empty_input_is_still_written() {
    let (_, action) = relaying("k").step(Event::Message(ShellClientMessage::Stdin(Vec::new())));
    assert_eq!(action, Action::WriteShell(Vec::new()));
}

#[test]
fn end_of_output_reports_exit_code_then_lingers() {
    let (session, action) = relaying("k").step(Event::ShellRead(Vec::new()));
    assert_eq!(action, Action::QueryExitCode);
    assert_eq!(session.stage(), &Stage::FetchingExitCode);
    let (session, action) = session.step(Event::ExitCode(Some(-7)));
    assert_eq!(action, Action::Send(ShellServerMessage::Exited(-7)));
    assert_eq!(session.stage(), &Stage::ReportingExit);
    assert_eq!(session.phase(), Phase::Streaming);
    let (session, action) = session.step(Event::Sent);
    assert_eq!(action, Action::Linger { millis: 500 });
    assert_eq!(session.stage(), &Stage::Lingering);
    assert_eq!(session.phase(), Phase::Draining);
    let (session, action) = session.step(Event::LingerElapsed);
    assert_eq!(action, Action::Finish);
    assert_eq!(session.stage(), &Stage::Completed);
    assert_eq!(session.phase(), Phase::Completed);
    assert_eq!(session.result(), Some(Ok(())));
}

#[test]
fn missing_exit_code_is_fatal() {
    let (session, _) = relaying("k").step(Event::ShellRead(Vec::new()));
    let (session, action) = session.step(Event::ExitCode(None));
    assert_eq!(action, Action::Abort(ShellError::ExitCodeUnavailable));
    assert_eq!(session.result(), Some(Err(ShellError::ExitCodeUnavailable)));
}

#[test]
fn shell_failures_are_fatal() {
    let (session, action) = relaying("k").step(Event::ShellReadFailed);
    assert_eq!(action, Action::Abort(ShellError::ShellRead));
    assert!(session.is_finished());

    let (session, _) = relaying("k").step(Event::Message(ShellClientMessage::Stdin(vec![b'x'])));
    let (session, action) = session.step(Event::ShellWriteFailed);
    assert_eq!(action, Action::Abort(ShellError::ShellWrite));
    assert!(session.is_finished());

    let (session, _) =
        relaying("k").step(Event::Message(ShellClientMessage::Resize(WindowSize(0, 0))));
    let (session, action) = session.step(Event::ShellResizeFailed);
    assert_eq!(action, Action::Abort(ShellError::ShellResize));
    assert!(session.is_finished());
}

#[test]
fn send_failures_while_streaming_are_fatal() {
    let (session, _) = relaying("k").step(Event::ShellRead(vec![1, 2, 3]));
    let (session, action) = session.step(Event::SendFailed);
    assert_eq!(action, Action::Abort(ShellError::SendFailed(Phase::Streaming)));
    assert!(session.is_finished());

    let (session, _) = relaying("k").step(Event::ShellRead(Vec::new()));
    let (session, _) = session.step(Event::ExitCode(Some(0)));
    let (session, action) = session.step(Event::SendFailed);
    assert_eq!(action, Action::Abort(ShellError::SendFailed(Phase::Streaming)));
    assert!(session.is_finished());
}

#[test]
fn repeated_key_or_shell_request_is_fatal_while_streaming() {
    let cases = vec![
        (ShellClientMessage::Key("k".into()), MessageKind::Key),
        (start_shell("TERM", 50, 50), MessageKind::StartShell),
        (ShellClientMessage::Error("boom".into()), MessageKind::Error),
    ];
    for (message, kind) in cases {
        let (session, action) = relaying("k").step(Event::Message(message));
        let error = ShellError::UnexpectedMessage(Phase::Streaming, kind);
        assert_eq!(action, Action::Abort(error));
        assert_eq!(session.result(), Some(Err(error)));
    }
}

#[test]
fn events_out_of_turn_end_the_session() {
    let (session, action) = Session::new(ShellKey::new("k")).step(Event::Sent);
    assert_eq!(action, Action::Abort(ShellError::OutOfTurn(Phase::Authenticating)));
    assert!(session.is_finished());

    let (_, action) = negotiating("k").step(Event::ShellStarted);
    assert_eq!(action, Action::Abort(ShellError::OutOfTurn(Phase::Negotiating)));

    let (_, action) = relaying("k").step(Event::TimedOut);
    assert_eq!(action, Action::Abort(ShellError::OutOfTurn(Phase::Streaming)));

    let (session, _) = relaying("k").step(Event::StreamEnded);
    let (_, action) = session.step(Event::Sent);
    assert_eq!(action, Action::Abort(ShellError::OutOfTurn(Phase::Draining)));

    let (session, _) = negotiating("k").step(Event::Message(start_shell("TERM", 50, 50)));
    let (session, _) = session.step(Event::ShellStartFailed);
    let (_, action) = session.step(Event::ShellStartFailed);
    assert_eq!(action, Action::Abort(ShellError::OutOfTurn(Phase::Negotiating)));
}

#[test]
fn ended_sessions_stay_ended() {
    let (session, _) = relaying("k").step(Event::StreamEnded);
    let (done, _) = session.step(Event::LingerElapsed);
    let (again, action) = done.clone().step(Event::Message(ShellClientMessage::Stdin(vec![1])));
    assert_eq!(action, Action::Finish);
    assert_eq!(again, done);

    let (failed, _) = Session::new(ShellKey::new("k")).step(Event::TimedOut);
    let (again, action) = failed.clone().step(Event::Sent);
    assert_eq!(action, Action::Abort(ShellError::Timeout(Phase::Authenticating)));
    assert_eq!(again, failed);
}

#[test]
fn final_actions_are_finish_and_abort() {
    assert!(Action::Finish.is_final());
    assert!(Action::Abort(ShellError::KeyRejected).is_final());
    assert!(!Action::Linger { millis: 500 }.is_final());
    assert!(!Action::Send(ShellServerMessage::Exited(0)).is_final());
    assert!(!Action::QueryExitCode.is_final());
}

#[test]
fn stage_phases() {
    assert_eq!(Stage::AwaitingKey.phase(), Phase::Authenticating);
    assert_eq!(Stage::RejectingKey.phase(), Phase::Authenticating);
    assert_eq!(Stage::StartingFallback.phase(), Phase::Negotiating);
    assert_eq!(Stage::FetchingExitCode.phase(), Phase::Streaming);
    assert_eq!(Stage::Lingering.phase(), Phase::Draining);
    assert_eq!(Stage::Completed.phase(), Phase::Completed);
    assert_eq!(Stage::Failed(ShellError::ShellRead).phase(), Phase::Failed);
}
