//! The decisions of a monitor session: which rule a line of the settings
//! stream selects, and how the session moves from state to state.
//!
//! A session watches one setting through an external process that prints
//! a line whenever the setting changes. The caller runs the process and
//! the device; it hands each outcome to the session as an event and carries
//! out the action that comes back.
use vstd::prelude::*;
use crate::frame::{build_control_buffer, frame};
use crate::params::Parameters;

verus! {

/// Whether `pat` occurs in `line` as a run of consecutive characters.
pub open spec fn occurs_in(pat: Seq<char>, line: Seq<char>) -> bool {
    exists|i: int| 0 <= i && i + pat.len() <= line.len() && #[trigger] line.subrange(i, i + pat.len()) == pat
}

/// Relies on std's `str::contains`: true when the pattern matches a run of
/// the string.
#[verifier::external_body]
fn line_contains(line: &str, pat: &str) -> (r: bool)
    ensures
        r == occurs_in(pat@, line@),
{
    line.contains(pat)
}

/// The position of the first matcher whose text occurs in `line`.
pub open spec fn first_match(matchers: Seq<(String, Parameters)>, line: Seq<char>) -> Option<int>
    decreases matchers.len(),
{
    if matchers.len() == 0 {
        None
    } else if occurs_in(matchers[0].0@, line) {
        Some(0)
    } else {
        match first_match(matchers.drop_first(), line) {
            Some(k) => Some(k + 1),
            None => None,
        }
    }
}

/// `first_match` gives the smallest position whose text occurs, and none
/// exactly when no text occurs.
pub proof fn lemma_first_match_wins(matchers: Seq<(String, Parameters)>, line: Seq<char>)
    ensures
        match first_match(matchers, line) {
            Some(k) => 0 <= k < matchers.len() && occurs_in(matchers[k].0@, line) && forall|j: int|
                0 <= j < k ==> !occurs_in(#[trigger] matchers[j].0@, line),
            None => forall|j: int|
                0 <= j < matchers.len() ==> !occurs_in(#[trigger] matchers[j].0@, line),
        },
    decreases matchers.len(),
{
    if matchers.len() > 0 && !occurs_in(matchers[0].0@, line) {
        let rest = matchers.drop_first();
        lemma_first_match_wins(rest, line);
        assert forall|j: int| 1 <= j < matchers.len() implies matchers[j] == rest[j - 1] by {}
    }
}

/// Picks the matcher for `line`: the first, in the order given, whose text
/// occurs in it.
pub fn select_matcher(matchers: &Vec<(String, Parameters)>, line: &str) -> (r: Option<usize>)
    ensures
        match first_match(matchers@, line@) {
            Some(k) => r is Some && r->Some_0 == k,
            None => r is None,
        },
{
    proof { lemma_first_match_wins(matchers@, line@); }
    let mut i: usize = 0;
    while i < matchers.len()
        invariant
            i <= matchers@.len(),
            forall|j: int| 0 <= j < i ==> !occurs_in(#[trigger] matchers@[j].0@, line@),
        decreases matchers@.len() - i,
    {
        if line_contains(line, matchers[i].0.as_str()) {
            proof {
                lemma_first_match_wins(matchers@, line@);
                assert(occurs_in(matchers@[i as int].0@, line@));
                assert(first_match(matchers@, line@) is Some);
                let k = first_match(matchers@, line@)->Some_0;
                if k < i {
                    assert(!occurs_in(matchers@[k].0@, line@));
                }
                if k > i {
                    assert(!occurs_in(matchers@[i as int].0@, line@));
                }
            }
            return Some(i);
        }
        i = i + 1;
    }
    None
}

/// Where a session stands in its life.
#[derive(Clone, Copy, Debug, PartialEq, Eq, Structural)]
pub enum SessionState {
    /// The watching process is being started.
    Starting,
    /// The process runs and its lines are read.
    Running,
    /// The process ended on its own.
    Exited,
    /// The session was ended on request.
    Terminated,
}

/// What happened to a session.
#[derive(Debug)]
pub enum SessionEvent {
    /// The watching process started.
    Spawned,
    /// The process printed a line.
    Line(String),
    /// The process printed a line that is not valid UTF-8.
    Unreadable,
    /// Writing the frame that a line selected to the device failed.
    SendFailed,
    /// The process's output ended.
    EndOfStream,
    /// The owner asked for the session to end.
    TerminateRequested,
}

/// What the caller does next.
#[derive(Debug)]
pub enum SessionAction {
    /// Nothing.
    Idle,
    /// Write this frame to the device.
    Send(Vec<u8>),
    /// Report that a write failed, and go on watching.
    ReportSendFailure,
    /// Kill the watching process.
    Kill,
}

/// The state that `event` moves a session in `state` to.
pub open spec fn next_state(state: SessionState, event: SessionEvent) -> SessionState {
    match event {
        SessionEvent::Spawned => if state is Starting {
            SessionState::Running
        } else {
            state
        },
        SessionEvent::EndOfStream => if state is Running {
            SessionState::Exited
        } else {
            state
        },
        SessionEvent::TerminateRequested => if state is Starting || state is Running {
            SessionState::Terminated
        } else {
            state
        },
        _ => state,
    }
}

/// One watched setting: its state and its ordered list of matchers, each a
/// text to look for in a line and the configuration it selects.
pub struct Session {
    pub state: SessionState,
    pub matchers: Vec<(String, Parameters)>,
}

impl Session {
    /// Every configuration has one colour for each of the four zones.
    pub open spec fn wf(&self) -> bool {
        forall|k: int| 0 <= k < self.matchers@.len() ==> (#[trigger] self.matchers@[k]).1.colors@.len() == 4
    }

    /// The action that `event` calls for in this session.
    pub open spec fn action_is(&self, event: SessionEvent, action: SessionAction) -> bool {
        match event {
            SessionEvent::Line(line) => if self.state is Running {
                match first_match(self.matchers@, line@) {
                    Some(k) => action is Send && action->Send_0@ == frame(self.matchers@[k].1@),
                    None => action is Idle,
                }
            } else {
                action is Idle
            },
            SessionEvent::SendFailed => if self.state is Running {
                action is ReportSendFailure
            } else {
                action is Idle
            },
            SessionEvent::TerminateRequested => if self.state is Running {
                action is Kill
            } else {
                action is Idle
            },
            _ => action is Idle,
        }
    }

    /// A session that has not started its process yet.
    pub fn new(matchers: Vec<(String, Parameters)>) -> (r: Session)
        requires
            forall|k: int| 0 <= k < matchers@.len() ==> (#[trigger] matchers@[k]).1.colors@.len() == 4,
        ensures
            r.state == SessionState::Starting,
            r.matchers == matchers,
            r.wf(),
    {
        Session { state: SessionState::Starting, matchers }
    }

    /// Moves the session on by one event and says what to do.
    ///
    /// A line read while running selects the first matcher whose text it
    /// holds and asks for that configuration's frame to be written. A failed
    /// write is reported and the session keeps running; unreadable lines are
    /// skipped. Only a running session has a process to kill.
    pub fn handle(&mut self, event: SessionEvent) -> (r: SessionAction)
        requires
            old(self).wf(),
        ensures
            final(self).matchers == old(self).matchers,
            final(self).state == next_state(old(self).state, event),
            (*old(self)).action_is(event, r),
            final(self).wf(),
    {
        match event {
            SessionEvent::Spawned => {
                if let SessionState::Starting = self.state {
                    self.state = SessionState::Running;
                }
                SessionAction::Idle
            },
            SessionEvent::Line(line) => {
                if let SessionState::Running = self.state {
                    proof { lemma_first_match_wins(self.matchers@, line@); }
                    match select_matcher(&self.matchers, line.as_str()) {
                        Some(k) => SessionAction::Send(build_control_buffer(&self.matchers[k].1)),
                        None => SessionAction::Idle,
                    }
                } else {
                    SessionAction::Idle
                }
            },
            SessionEvent::Unreadable => SessionAction::Idle,
            SessionEvent::SendFailed => {
                if let SessionState::Running = self.state {
                    SessionAction::ReportSendFailure
                } else {
                    SessionAction::Idle
                }
            },
            SessionEvent::EndOfStream => {
                if let SessionState::Running = self.state {
                    self.state = SessionState::Exited;
                }
                SessionAction::Idle
            },
            SessionEvent::TerminateRequested => {
                match self.state {
                    SessionState::Running => {
                        self.state = SessionState::Terminated;
                        SessionAction::Kill
                    },
                    SessionState::Starting => {
                        self.state = SessionState::Terminated;
                        SessionAction::Idle
                    },
                    _ => SessionAction::Idle,
                }
            },
        }
    }
}

/// A running session whose process ends on its own is `Exited`, and asking
/// an exited session to terminate changes nothing and asks for no kill.
pub proof fn lemma_exit_then_terminate(s: Session)
    requires
        s.state is Running,
    ensures
        next_state(s.state, SessionEvent::EndOfStream) == SessionState::Exited,
        next_state(SessionState::Exited, SessionEvent::TerminateRequested)
            == SessionState::Exited,
        forall|a: SessionAction|
            (Session { state: SessionState::Exited, matchers: s.matchers }).action_is(
                SessionEvent::TerminateRequested,
                a,
            ) <==> a is Idle,
{
}

/// A failed write leaves a running session running, with its matchers, so
/// the next line that matches asks again for a frame to be written.
pub proof fn lemma_send_failure_keeps_watching(s: Session, next_line: String)
    requires
        s.state is Running,
        first_match(s.matchers@, next_line@) is Some,
    ensures
        next_state(s.state, SessionEvent::SendFailed) == SessionState::Running,
        forall|a: SessionAction| s.action_is(SessionEvent::SendFailed, a) <==> a is ReportSendFailure,
        forall|a: SessionAction|
            (Session {
                state: next_state(s.state, SessionEvent::SendFailed),
                matchers: s.matchers,
            }).action_is(SessionEvent::Line(next_line), a) <==> (a is Send && a->Send_0@ == frame(
                s.matchers@[first_match(s.matchers@, next_line@)->Some_0].1@,
            )),
{
}

/// A line leaves the state of a session as it was, whether it matches or
/// not.
pub proof fn lemma_lines_keep_state(state: SessionState, line: String)
    ensures
        next_state(state, SessionEvent::Line(line)) == state,
        next_state(state, SessionEvent::Unreadable) == state,
{
}

} // verus!
