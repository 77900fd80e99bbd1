//! What holds of every session, proved from the definition of its steps.

use crate::error::Phase;
use crate::error::ShellError;
use crate::event::ActionView;
use crate::event::EventView;
use crate::proto::ClientMessageView;
use crate::proto::MessageKind;
use crate::proto::ServerMessageView;
use crate::proto::StartShellPayloadView;
use crate::proto::WindowSize;
use crate::replay::run;
use crate::replay::transcript;
use crate::replay::Outcome;
use crate::replay::TranscriptView;
use crate::session::SessionView;
use crate::session::StageView;
use vstd::prelude::*;

verus! {

/// Running a script and then one more event is running the script and
/// taking one more step.
pub proof fn lemma_run_push(session: SessionView, script: Seq<EventView>, event: EventView)
    ensures
        run(session, script.push(event)) == ({
            let before = run(session, script);
            let (after, action) = before.0.step(event);
            (after, before.1 + action.emitted())
        }),
{
    assert(script.push(event).drop_last() =~= script);
    assert(script.push(event).last() == event);
}

/// Running two scripts one after the other is running the second from
/// where the first one ended; what was sent is what the first sent,
/// then what the second sent.
pub proof fn lemma_run_concat(session: SessionView, first: Seq<EventView>, second: Seq<EventView>)
    ensures
        run(session, first + second) == ({
            let middle = run(session, first);
            let end = run(middle.0, second);
            (end.0, middle.1 + end.1)
        }),
    decreases second.len(),
{
    let middle = run(session, first);
    if second.len() == 0 {
        assert(first + second =~= first);
        assert(middle.1 + Seq::<ServerMessageView>::empty() =~= middle.1);
    } else {
        let shorter = second.drop_last();
        lemma_run_concat(session, first, shorter);
        assert((first + second).drop_last() =~= first + shorter);
        assert((first + second).last() == second.last());
        let before = run(middle.0, shorter);
        let (after, action) = before.0.step(second.last());
        assert((middle.1 + before.1) + action.emitted() =~= middle.1 + (before.1
            + action.emitted()));
    }
}

/// A session never goes back to an earlier phase.
pub proof fn law_phases_never_go_back(session: SessionView, event: EventView)
    ensures
        session.step(event).0.phase().rank() >= session.phase().rank(),
{
}

/// Whatever a session is handed, it never returns to an earlier phase.
pub proof fn law_runs_never_go_back(session: SessionView, script: Seq<EventView>)
    ensures
        run(session, script).0.phase().rank() >= session.phase().rank(),
    decreases script.len(),
{
    if script.len() > 0 {
        law_runs_never_go_back(session, script.drop_last());
        law_phases_never_go_back(run(session, script.drop_last()).0, script.last());
    }
}

/// A session that has ended stays as it is whatever comes, and sends
/// nothing more.
pub proof fn law_ended_sessions_stay_ended(session: SessionView, script: Seq<EventView>)
    requires
        session.phase().is_final(),
    ensures
        run(session, script) == (session, Seq::<ServerMessageView>::empty()),
    decreases script.len(),
{
    if script.len() > 0 {
        law_ended_sessions_stay_ended(session, script.drop_last());
        assert(Seq::<ServerMessageView>::empty() + Seq::<ServerMessageView>::empty()
            =~= Seq::<ServerMessageView>::empty());
    }
}

/// A step keeps the key that the session expects.
pub proof fn law_key_is_kept(session: SessionView, event: EventView)
    ensures
        session.step(event).0.key == session.key,
{
}

/// A session has at most one shell: one is asked for only during the
/// negotiation, while none is running, and a shell runs only once its
/// start was reported. The built-in shell is asked for only after the
/// pseudo-terminal failed to start.
pub proof fn law_one_shell_at_a_time(session: SessionView, event: EventView)
    ensures
        ({
            let (after, action) = session.step(event);
            &&& (action is StartPty || action is StartFallback) ==> {
                &&& session.phase() == Phase::Negotiating
                &&& !session.stage.shell_is_live()
                &&& !after.stage.shell_is_live()
            }
            &&& action is StartFallback ==> session.stage is StartingPty && event
                == EventView::ShellStartFailed
            &&& (after.stage.shell_is_live() && !session.stage.shell_is_live()) ==> event
                == EventView::ShellStarted && session.phase() == Phase::Negotiating
        }),
{
}

/// A failure to start the pseudo-terminal never ends the session: the
/// built-in shell is started for the same request.
pub proof fn law_pty_failure_falls_back(key: Seq<char>, request: StartShellPayloadView)
    ensures
        ({
            let session = SessionView { key, stage: StageView::StartingPty(request) };
            let (after, action) = session.step(EventView::ShellStartFailed);
            &&& action == ActionView::StartFallback(request)
            &&& after.phase() == Phase::Negotiating
            &&& after.step(EventView::ShellStarted).0.stage == StageView::Relaying
        }),
{
}

/// A fault that the client reports ends the session in whatever phase
/// the session awaits a message, and nothing is sent in answer.
pub proof fn law_client_error_is_fatal(session: SessionView, reason: Seq<char>)
    requires
        session.stage is AwaitingKey || session.stage is AwaitingShellRequest
            || session.stage is Relaying,
    ensures
        session.step(EventView::Message(ClientMessageView::Error(reason))) == session.fail(
            ShellError::UnexpectedMessage(session.phase(), MessageKind::Error),
        ),
{
}

/// The key decides the authentication. A key other than the expected
/// one is answered with `KeyRejected`, after which the session has
/// failed; the expected key is answered with `KeyAccepted`, after which
/// the session negotiates.
pub proof fn law_key_decides_authentication(expected: Seq<char>, candidate: Seq<char>)
    ensures
        candidate != expected ==> transcript(
            expected,
            seq![EventView::Message(ClientMessageView::Key(candidate)), EventView::Sent],
        ) == (TranscriptView {
            sent: seq![ServerMessageView::KeyRejected],
            outcome: Outcome::Failed(ShellError::KeyRejected),
        }),
        candidate == expected ==> run(
            SessionView::fresh(expected),
            seq![EventView::Message(ClientMessageView::Key(candidate)), EventView::Sent],
        ) == (
            SessionView { key: expected, stage: StageView::AwaitingShellRequest },
            seq![ServerMessageView::KeyAccepted],
        ),
        run(
            SessionView::fresh(expected),
            seq![EventView::Message(ClientMessageView::Key(candidate)), EventView::Sent],
        ).0.phase() == (if candidate == expected {
            Phase::Negotiating
        } else {
            Phase::Failed
        }),
{
    let fresh = SessionView::fresh(expected);
    let offer = EventView::Message(ClientMessageView::Key(candidate));
    let none = Seq::<EventView>::empty();
    lemma_run_push(fresh, none, offer);
    lemma_run_push(fresh, none.push(offer), EventView::Sent);
    assert(seq![offer, EventView::Sent] =~= none.push(offer).push(EventView::Sent));
    let first = run(fresh, none.push(offer));
    assert(run(fresh, none) == (fresh, Seq::<ServerMessageView>::empty()));
    if candidate == expected {
        assert(first.1 =~= seq![ServerMessageView::KeyAccepted]);
        assert(first.1 + Seq::<ServerMessageView>::empty() =~= seq![
            ServerMessageView::KeyAccepted,
        ]);
    } else {
        assert(first.1 =~= seq![ServerMessageView::KeyRejected]);
        assert(first.1 + Seq::<ServerMessageView>::empty() =~= seq![
            ServerMessageView::KeyRejected,
        ]);
    }
}

/// A client that stays silent until the key deadline makes the session
/// fail with a timeout, and nothing is sent to it.
pub proof fn law_silent_client_times_out(key: Seq<char>)
    ensures
        transcript(key, seq![EventView::TimedOut]) == (TranscriptView {
            sent: Seq::<ServerMessageView>::empty(),
            outcome: Outcome::Failed(ShellError::Timeout(Phase::Authenticating)),
        }),
{
    let fresh = SessionView::fresh(key);
    let none = Seq::<EventView>::empty();
    lemma_run_push(fresh, none, EventView::TimedOut);
    assert(seq![EventView::TimedOut] =~= none.push(EventView::TimedOut));
    assert(Seq::<ServerMessageView>::empty() + Seq::<ServerMessageView>::empty()
        =~= Seq::<ServerMessageView>::empty());
}

/// A client that authenticates and then stays silent until the shell
/// request deadline makes the session fail with a timeout; all it was
/// sent is that its key was accepted.
pub proof fn law_silent_negotiation_times_out(key: Seq<char>)
    ensures
        transcript(
            key,
            seq![
                EventView::Message(ClientMessageView::Key(key)),
                EventView::Sent,
                EventView::TimedOut,
            ],
        ) == (TranscriptView {
            sent: seq![ServerMessageView::KeyAccepted],
            outcome: Outcome::Failed(ShellError::Timeout(Phase::Negotiating)),
        }),
{
    let fresh = SessionView::fresh(key);
    let offer = EventView::Message(ClientMessageView::Key(key));
    let script = seq![offer, EventView::Sent];
    law_key_decides_authentication(key, key);
    lemma_run_push(fresh, script, EventView::TimedOut);
    assert(seq![offer, EventView::Sent, EventView::TimedOut] =~= script.push(
        EventView::TimedOut,
    ));
    assert(seq![ServerMessageView::KeyAccepted] + Seq::<ServerMessageView>::empty() =~= seq![
        ServerMessageView::KeyAccepted,
    ]);
}

/// Two sessions that expect the same key and are at the same stage do
/// the same with the same script: they end at the same stage and send
/// the same messages.
pub proof fn law_replay_is_deterministic(
    one: SessionView,
    other: SessionView,
    script: Seq<EventView>,
)
    requires
        one.key == other.key,
        one.stage == other.stage,
    ensures
        run(one, script) == run(other, script),
{
}

/// One exchange of the relay that goes well.
pub enum RelayRound {
    /// The client sends input and the shell takes it.
    Input(Seq<u8>),
    /// The client resizes its window and the shell follows.
    Resize(WindowSize),
    /// The shell writes output and the client is sent it.
    Output(Seq<u8>),
}

impl RelayRound {
    /// Whether the round can happen: output is at least one byte.
    pub open spec fn is_possible(self) -> bool {
        self matches RelayRound::Output(bytes) ==> bytes.len() > 0
    }

    /// The events of the round.
    pub open spec fn events(self) -> Seq<EventView> {
        match self {
            RelayRound::Input(payload) => seq![
                EventView::Message(ClientMessageView::Stdin(payload)),
                EventView::ShellWritten,
            ],
            RelayRound::Resize(size) => seq![
                EventView::Message(ClientMessageView::Resize(size)),
                EventView::ShellResized,
            ],
            RelayRound::Output(bytes) => seq![EventView::ShellRead(bytes), EventView::Sent],
        }
    }

    /// What the client is sent in the round.
    pub open spec fn output(self) -> Seq<ServerMessageView> {
        match self {
            RelayRound::Output(bytes) => seq![ServerMessageView::Stdout(bytes)],
            _ => Seq::empty(),
        }
    }
}

/// The events of some rounds, one round after the other.
pub open spec fn rounds_events(rounds: Seq<RelayRound>) -> Seq<EventView>
    decreases rounds.len(),
{
    if rounds.len() == 0 {
        Seq::empty()
    } else {
        rounds_events(rounds.drop_last()) + rounds.last().events()
    }
}

/// What the client is sent in some rounds.
pub open spec fn rounds_output(rounds: Seq<RelayRound>) -> Seq<ServerMessageView>
    decreases rounds.len(),
{
    if rounds.len() == 0 {
        Seq::empty()
    } else {
        rounds_output(rounds.drop_last()) + rounds.last().output()
    }
}

/// The events that bring a new session to relaying: the right key, the
/// shell request, and the start of a shell, on a pseudo-terminal or,
/// where that fails, of the built-in one.
pub open spec fn opening(key: Seq<char>, request: StartShellPayloadView, pty: bool) -> Seq<
    EventView,
> {
    seq![
        EventView::Message(ClientMessageView::Key(key)),
        EventView::Sent,
        EventView::Message(ClientMessageView::StartShell(request)),
    ] + if pty {
        seq![EventView::ShellStarted]
    } else {
        seq![EventView::ShellStartFailed, EventView::ShellStarted]
    }
}

/// The events of a shell that ends with `code`, up to the end of the
/// session.
pub open spec fn closing(code: i32) -> Seq<EventView> {
    seq![
        EventView::ShellRead(Seq::empty()),
        EventView::ExitCode(Some(code)),
        EventView::Sent,
        EventView::LingerElapsed,
    ]
}

/// The opening brings a new session to relaying, and all that the
/// client is sent on the way is that its key was accepted.
pub proof fn lemma_opening_leads_to_relay(
    key: Seq<char>,
    request: StartShellPayloadView,
    pty: bool,
)
    ensures
        run(SessionView::fresh(key), opening(key, request, pty)) == (
            SessionView { key, stage: StageView::Relaying },
            seq![ServerMessageView::KeyAccepted],
        ),
{
    let fresh = SessionView::fresh(key);
    let accepted = seq![ServerMessageView::KeyAccepted];
    let nothing = Seq::<ServerMessageView>::empty();
    let offer = EventView::Message(ClientMessageView::Key(key));
    let ask = EventView::Message(ClientMessageView::StartShell(request));
    let authenticated = seq![offer, EventView::Sent];
    law_key_decides_authentication(key, key);
    lemma_run_push(fresh, authenticated, ask);
    let asked = authenticated.push(ask);
    assert(accepted + nothing =~= accepted);
    assert(run(fresh, asked) == (
        SessionView { key, stage: StageView::StartingPty(request) },
        accepted,
    ));
    if pty {
        lemma_run_push(fresh, asked, EventView::ShellStarted);
        assert(opening(key, request, pty) =~= asked.push(EventView::ShellStarted));
    } else {
        lemma_run_push(fresh, asked, EventView::ShellStartFailed);
        let failed = asked.push(EventView::ShellStartFailed);
        lemma_run_push(fresh, failed, EventView::ShellStarted);
        assert(opening(key, request, pty) =~= failed.push(EventView::ShellStarted));
    }
}

/// A round leaves a relaying session relaying, and the client is sent
/// the round's output.
pub proof fn lemma_round_keeps_relaying(key: Seq<char>, round: RelayRound)
    requires
        round.is_possible(),
    ensures
        run(SessionView { key, stage: StageView::Relaying }, round.events()) == (
            SessionView { key, stage: StageView::Relaying },
            round.output(),
        ),
{
    let relaying = SessionView { key, stage: StageView::Relaying };
    let none = Seq::<EventView>::empty();
    let nothing = Seq::<ServerMessageView>::empty();
    let events = round.events();
    assert(events =~= none.push(events[0]).push(events[1]));
    lemma_run_push(relaying, none, events[0]);
    lemma_run_push(relaying, none.push(events[0]), events[1]);
    assert(run(relaying, none) == (relaying, nothing));
    assert(nothing + nothing =~= nothing);
    match round {
        RelayRound::Output(bytes) => {
            let out = seq![ServerMessageView::Stdout(bytes)];
            assert(nothing + out =~= out);
            assert(out + nothing =~= out);
        },
        _ => {},
    }
}

/// Any number of rounds leave a relaying session relaying, and the
/// client is sent the output of the rounds in order.
pub proof fn lemma_rounds_keep_relaying(key: Seq<char>, rounds: Seq<RelayRound>)
    requires
        forall|i: int| 0 <= i < rounds.len() ==> (#[trigger] rounds[i]).is_possible(),
    ensures
        run(SessionView { key, stage: StageView::Relaying }, rounds_events(rounds)) == (
            SessionView { key, stage: StageView::Relaying },
            rounds_output(rounds),
        ),
    decreases rounds.len(),
{
    let relaying = SessionView { key, stage: StageView::Relaying };
    if rounds.len() > 0 {
        let earlier = rounds.drop_last();
        assert forall|i: int| 0 <= i < earlier.len() implies (#[trigger] earlier[i]).is_possible() by {
            assert(earlier[i] == rounds[i]);
        }
        lemma_rounds_keep_relaying(key, earlier);
        lemma_round_keeps_relaying(key, rounds.last());
        lemma_run_concat(relaying, rounds_events(earlier), rounds.last().events());
    }
}

/// The rounds of a relay send the client nothing but output of the shell.
pub proof fn lemma_rounds_send_only_output(rounds: Seq<RelayRound>)
    ensures
        forall|i: int|
            0 <= i < rounds_output(rounds).len() ==> (#[trigger] rounds_output(rounds)[i]) is Stdout,
    decreases rounds.len(),
{
    if rounds.len() > 0 {
        lemma_rounds_send_only_output(rounds.drop_last());
    }
}

/// A session that is given the right key and a shell request, relays
/// any number of rounds and then sees its shell end with `code`,
/// completes. The client is sent that its key was accepted, then the
/// output of the rounds in order, then `Exited(code)`: that message
/// comes last, and it is the only one of its kind.
pub proof fn law_shell_exit_is_reported_once(
    key: Seq<char>,
    request: StartShellPayloadView,
    pty: bool,
    rounds: Seq<RelayRound>,
    code: i32,
)
    requires
        forall|i: int| 0 <= i < rounds.len() ==> (#[trigger] rounds[i]).is_possible(),
    ensures
        ({
            let record = transcript(
                key,
                opening(key, request, pty) + rounds_events(rounds) + closing(code),
            );
            &&& record.outcome == Outcome::Completed
            &&& record.sent == seq![ServerMessageView::KeyAccepted] + rounds_output(rounds) + seq![
                ServerMessageView::Exited(code),
            ]
            &&& record.sent.last() == ServerMessageView::Exited(code)
            &&& forall|i: int|
                0 <= i < record.sent.len() ==> ((#[trigger] record.sent[i]) is Exited <==> i
                    == record.sent.len() - 1)
        }),
{
    let fresh = SessionView::fresh(key);
    let relaying = SessionView { key, stage: StageView::Relaying };
    let nothing = Seq::<ServerMessageView>::empty();
    let accepted = seq![ServerMessageView::KeyAccepted];
    let exited = seq![ServerMessageView::Exited(code)];
    lemma_opening_leads_to_relay(key, request, pty);
    lemma_rounds_keep_relaying(key, rounds);
    lemma_run_concat(fresh, opening(key, request, pty), rounds_events(rounds));
    lemma_run_concat(fresh, opening(key, request, pty) + rounds_events(rounds), closing(code));
    let none = Seq::<EventView>::empty();
    let end = closing(code);
    assert(end =~= none.push(end[0]).push(end[1]).push(end[2]).push(end[3]));
    lemma_run_push(relaying, none, end[0]);
    lemma_run_push(relaying, none.push(end[0]), end[1]);
    lemma_run_push(relaying, none.push(end[0]).push(end[1]), end[2]);
    lemma_run_push(relaying, none.push(end[0]).push(end[1]).push(end[2]), end[3]);
    assert(run(relaying, none) == (relaying, nothing));
    assert(nothing + nothing =~= nothing);
    assert(nothing + exited =~= exited);
    assert(exited + nothing =~= exited);
    assert(run(relaying, end) == (SessionView { key, stage: StageView::Completed }, exited));
    let record = transcript(key, opening(key, request, pty) + rounds_events(rounds) + end);
    assert(record.sent == accepted + rounds_output(rounds) + exited);
    lemma_rounds_send_only_output(rounds);
    assert forall|i: int| 0 <= i < record.sent.len() implies ((#[trigger] record.sent[i]) is Exited
        <==> i == record.sent.len() - 1) by {
        if 1 <= i < record.sent.len() - 1 {
            assert(record.sent[i] == rounds_output(rounds)[i - 1]);
        }
    }
}

/// A session that is given the right key and a shell request, relays
/// any number of rounds and is then told of a fault by the client,
/// fails. The client was sent no `Exited`.
pub proof fn law_client_error_ends_relay(
    key: Seq<char>,
    request: StartShellPayloadView,
    pty: bool,
    rounds: Seq<RelayRound>,
    reason: Seq<char>,
)
    requires
        forall|i: int| 0 <= i < rounds.len() ==> (#[trigger] rounds[i]).is_possible(),
    ensures
        ({
            let record = transcript(
                key,
                opening(key, request, pty) + rounds_events(rounds) + seq![
                    EventView::Message(ClientMessageView::Error(reason)),
                ],
            );
            &&& record.outcome == Outcome::Failed(
                ShellError::UnexpectedMessage(Phase::Streaming, MessageKind::Error),
            )
            &&& record.sent == seq![ServerMessageView::KeyAccepted] + rounds_output(rounds)
            &&& forall|i: int| 0 <= i < record.sent.len() ==> !((#[trigger] record.sent[i]) is Exited)
        }),
{
    let fresh = SessionView::fresh(key);
    let relaying = SessionView { key, stage: StageView::Relaying };
    let nothing = Seq::<ServerMessageView>::empty();
    let accepted = seq![ServerMessageView::KeyAccepted];
    let fault = EventView::Message(ClientMessageView::Error(reason));
    let start = opening(key, request, pty) + rounds_events(rounds);
    lemma_opening_leads_to_relay(key, request, pty);
    lemma_rounds_keep_relaying(key, rounds);
    lemma_run_concat(fresh, opening(key, request, pty), rounds_events(rounds));
    lemma_run_push(fresh, start, fault);
    assert(start + seq![fault] =~= start.push(fault));
    assert((accepted + rounds_output(rounds)) + nothing =~= accepted + rounds_output(rounds));
    let record = transcript(key, start + seq![fault]);
    lemma_rounds_send_only_output(rounds);
    assert forall|i: int| 0 <= i < record.sent.len() implies !((#[trigger] record.sent[i]) is Exited) by {
        if 1 <= i {
            assert(record.sent[i] == rounds_output(rounds)[i - 1]);
        }
    }
}

/// Whether a session at `stage` will never send anything again.
spec fn is_silent(stage: StageView) -> bool {
    stage is RejectingKey || stage is ReportingExit || stage is Lingering || stage is Completed
        || stage is Failed
}

/// The order of what a session sends: a verdict on the key comes
/// first and nowhere else, nothing follows `KeyRejected`, and nothing
/// follows `Exited`.
pub open spec fn is_ordered(sent: Seq<ServerMessageView>) -> bool {
    forall|i: int|
        0 <= i < sent.len() ==> {
            &&& ((#[trigger] sent[i]) is KeyAccepted || sent[i] is KeyRejected) <==> i == 0
            &&& sent[i] is KeyRejected ==> sent.len() == 1
            &&& sent[i] is Exited ==> i == sent.len() - 1
        }
}

/// What goes with the order of the messages at every point of a
/// session: nothing was sent before the key was seen, something was
/// sent once a session is past that unless it failed, and a session is
/// silent after `KeyRejected` and after `Exited`.
spec fn is_consistent(session: SessionView, sent: Seq<ServerMessageView>) -> bool {
    &&& is_ordered(sent)
    &&& session.stage is AwaitingKey ==> sent.len() == 0
    &&& sent.len() == 0 ==> session.stage is AwaitingKey || session.stage is Failed
    &&& sent.len() > 0 && (sent.last() is KeyRejected || sent.last() is Exited) ==> is_silent(
        session.stage,
    )
}

proof fn lemma_run_is_consistent(key: Seq<char>, script: Seq<EventView>)
    ensures
        is_consistent(run(SessionView::fresh(key), script).0, run(SessionView::fresh(key), script).1),
    decreases script.len(),
{
    let fresh = SessionView::fresh(key);
    if script.len() > 0 {
        lemma_run_is_consistent(key, script.drop_last());
        let before = run(fresh, script.drop_last());
        let (after, action) = before.0.step(script.last());
        let sent = before.1 + action.emitted();
        if action is Send {
            assert(sent =~= before.1.push(action->Send_0));
            assert forall|i: int| 0 <= i < sent.len() implies {
                &&& ((#[trigger] sent[i]) is KeyAccepted || sent[i] is KeyRejected) <==> i == 0
                &&& sent[i] is KeyRejected ==> sent.len() == 1
                &&& sent[i] is Exited ==> i == sent.len() - 1
            } by {
                if i < before.1.len() {
                    assert(sent[i] == before.1[i]);
                }
                if before.1.len() > 0 {
                    assert(before.1.last() == before.1[before.1.len() - 1]);
                }
            }
        } else {
            assert(sent =~= before.1);
        }
    }
}

/// Whatever a new session is handed, the messages it sends are in
/// order: a verdict on the key comes first and nowhere else, nothing
/// follows `KeyRejected`, and nothing follows `Exited`, which is
/// therefore sent at most once.
pub proof fn law_messages_are_ordered(key: Seq<char>, script: Seq<EventView>)
    ensures
        is_ordered(transcript(key, script).sent),
{
    lemma_run_is_consistent(key, script);
}

} // verus!
