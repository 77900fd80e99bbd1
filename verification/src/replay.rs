//! Running a session against a recorded sequence of events.

use crate::error::ShellError;
use crate::event::Action;
use crate::event::Event;
use crate::event::EventView;
use crate::key::ShellKey;
use crate::proto::ServerMessageView;
use crate::proto::ShellServerMessage;
use crate::session::Session;
use crate::session::SessionView;
use crate::session::StageView;
use vstd::prelude::*;

verus! {

/// How far a session got.
#[derive(Clone, Copy, Debug, PartialEq, Eq, Structural)]
pub enum Outcome {
    /// The session ended well.
    Completed,
    /// The session ended with this error.
    Failed(ShellError),
    /// The session has not ended.
    Unfinished,
}

/// What a session did with a sequence of events: the messages it
/// handed out for the client, in order, and how far it got.
#[derive(Clone, Debug, PartialEq, Eq)]
pub struct Transcript {
    pub sent: Vec<ShellServerMessage>,
    pub outcome: Outcome,
}

/// Mathematical view of a [`Transcript`].
pub struct TranscriptView {
    pub sent: Seq<ServerMessageView>,
    pub outcome: Outcome,
}

/// The views of a sequence of messages.
pub open spec fn messages_view(messages: Seq<ShellServerMessage>) -> Seq<ServerMessageView> {
    messages.map_values(|message: ShellServerMessage| message@)
}

/// The views of a sequence of events.
pub open spec fn events_view(events: Seq<Event>) -> Seq<EventView> {
    events.map_values(|event: Event| event@)
}

impl View for Transcript {
    type V = TranscriptView;

    open spec fn view(&self) -> TranscriptView {
        TranscriptView { sent: messages_view(self.sent@), outcome: self.outcome }
    }
}

/// How far a session at `stage` got.
pub open spec fn outcome_of(stage: StageView) -> Outcome {
    match stage {
        StageView::Completed => Outcome::Completed,
        StageView::Failed(error) => Outcome::Failed(error),
        _ => Outcome::Unfinished,
    }
}

/// The session after the events of `script`, one after the other, and
/// the messages it handed out for the client on the way.
pub open spec fn run(session: SessionView, script: Seq<EventView>) -> (
    SessionView,
    Seq<ServerMessageView>,
)
    decreases script.len(),
{
    if script.len() == 0 {
        (session, Seq::empty())
    } else {
        let before = run(session, script.drop_last());
        let (after, action) = before.0.step(script.last());
        (after, before.1 + action.emitted())
    }
}

/// What a session that expects `key` and has seen nothing yet does
/// with `script`.
pub open spec fn transcript(key: Seq<char>, script: Seq<EventView>) -> TranscriptView {
    let (session, sent) = run(SessionView::fresh(key), script);
    TranscriptView { sent, outcome: outcome_of(session.stage) }
}

/// Runs a new session that expects `key` against `script` and reports
/// what it handed out for the client and how far it got. Events that
/// come after the end of the session change nothing.
pub fn replay(key: ShellKey, script: Vec<Event>) -> (record: Transcript)
    ensures
        record@ == transcript(key@, events_view(script@)),
{
    let ghost events = events_view(script@);
    let mut session = Session::new(key);
    let mut sent: Vec<ShellServerMessage> = Vec::new();
    assert(events.take(0) =~= Seq::<EventView>::empty());
    assert(messages_view(sent@) =~= Seq::<ServerMessageView>::empty());
    for event in it: script
        invariant
            events == events_view(it.seq()),
            (session@, messages_view(sent@)) == run(
                SessionView::fresh(key@),
                events.take(it.index() as int),
            ),
    {
        let ghost done = it.index() as int;
        let ghost earlier = sent@;
        proof {
            assert(events.take(done + 1).drop_last() =~= events.take(done));
            assert(events.take(done + 1).last() == event@);
        }
        let (next, action) = session.step(event);
        session = next;
        match action {
            Action::Send(message) => {
                sent.push(message);
                assert(messages_view(sent@) =~= messages_view(earlier) + seq![message@]);
            },
            _ => {
                assert(messages_view(sent@) =~= messages_view(earlier) + Seq::empty());
            },
        }
    }
    proof {
        assert(events.take(events.len() as int) =~= events);
    }
    let outcome = match session.result() {
        Some(Ok(())) => Outcome::Completed,
        Some(Err(error)) => Outcome::Failed(error),
        None => Outcome::Unfinished,
    };
    Transcript { sent, outcome }
}

} // verus!
