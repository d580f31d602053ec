//! The review session: its phases, and how events and commands move it.

use vstd::prelude::*;
use crate::diagnostic::{
    filtered, views_of, with_severity, BuildCounts, Diagnostic, DiagnosticView, Severity,
};
use crate::parser::line_fields;
use crate::store::MessageStore;
use crate::stream::{DiagnosticStream, MessageEvent, MessageEventView};
use crate::ui::{Command, Step};

verus! {

/// The mode a session is in.
#[derive(Clone, Copy, Debug, PartialEq, Eq, Structural)]
pub enum Phase {
    Building,
    Reviewing,
    Empty,
    Terminated,
}

/// Where the user stands: the phase, the position in the filtered view, and
/// whether warnings are hidden.
#[derive(Clone, Copy, Debug, PartialEq, Eq, Structural)]
pub struct ReviewState {
    pub phase: Phase,
    pub cursor: usize,
    pub ignore_warnings: bool,
}

/// What the driver does after the session took an event or a command.
#[derive(Clone, Copy, Debug, PartialEq, Eq, Structural)]
pub enum Action {
    /// Go on with the next tick.
    Continue,
    /// Wait for the running build to end, then start a new one whose stream
    /// carries this number.
    Restart(u64),
    /// Leave the loop.
    Stop,
}

/// What the driver shows.
#[derive(Clone, Copy, Debug, PartialEq, Eq, Structural)]
pub enum Screen {
    Building,
    NoMessages,
    Message { index: usize, total: usize },
    Closed,
}

/// A session as mathematical values.
pub struct SessionView {
    pub store: Seq<DiagnosticView>,
    pub state: ReviewState,
    pub stream: u64,
    pub failure: Option<Seq<char>>,
}

impl SessionView {
    /// The diagnostics that can be paged through.
    pub open spec fn visible(self) -> Seq<DiagnosticView> {
        filtered(self.store, self.state.ignore_warnings)
    }

    /// The phase of a session whose build is over: `Reviewing` when there is
    /// something to show, `Empty` when there is not.
    pub open spec fn settled_phase(self) -> Phase {
        if self.visible().len() > 0 {
            Phase::Reviewing
        } else {
            Phase::Empty
        }
    }

    /// While reviewing, the cursor points into the filtered view; `Empty`
    /// means that the filtered view is empty.
    pub open spec fn wf(self) -> bool {
        &&& self.state.phase == Phase::Reviewing ==> self.state.cursor < self.visible().len()
        &&& self.state.phase == Phase::Empty ==> self.visible().len() == 0
    }

    /// The cursor one step further, kept inside the filtered view.
    pub open spec fn moved_cursor(self, step: Step) -> usize {
        match step {
            Step::Next => if self.state.cursor + 1 < self.visible().len() {
                (self.state.cursor + 1) as usize
            } else {
                self.state.cursor
            },
            Step::Previous => if self.state.cursor > 0 {
                (self.state.cursor - 1) as usize
            } else {
                self.state.cursor
            },
        }
    }

    /// The session after the event `event` of the stream numbered `source`.
    /// A finished session, and an event of a stream that is not the current
    /// one, change nothing. A diagnostic is stored while building; the end of
    /// the build settles the phase; a failure ends the session.
    pub open spec fn after_event(self, source: u64, event: MessageEventView) -> SessionView {
        if source != self.stream || self.state.phase == Phase::Terminated {
            self
        } else {
            match event {
                MessageEventView::Diagnostic(diagnostic) => if self.state.phase
                    == Phase::Building {
                    SessionView { store: self.store.push(diagnostic), ..self }
                } else {
                    self
                },
                MessageEventView::Finished => if self.state.phase == Phase::Building {
                    SessionView {
                        state: ReviewState {
                            phase: self.settled_phase(),
                            cursor: 0,
                            ignore_warnings: self.state.ignore_warnings,
                        },
                        ..self
                    }
                } else {
                    self
                },
                MessageEventView::Failed(error) => SessionView {
                    state: ReviewState { phase: Phase::Terminated, ..self.state },
                    failure: Some(error),
                    ..self
                },
            }
        }
    }

    /// The session with the warning filter switched over, the cursor at the
    /// start and the phase settled anew.
    pub open spec fn toggled(self) -> SessionView {
        let flipped = SessionView {
            state: ReviewState {
                phase: self.state.phase,
                cursor: 0,
                ignore_warnings: !self.state.ignore_warnings,
            },
            ..self
        };
        SessionView {
            state: ReviewState { phase: flipped.settled_phase(), ..flipped.state },
            ..flipped
        }
    }

    /// The session at the start of a new build: nothing stored, the cursor at
    /// the start, and the next stream's number.
    pub open spec fn rebuilt(self) -> SessionView {
        SessionView {
            store: Seq::empty(),
            state: ReviewState {
                phase: Phase::Building,
                cursor: 0,
                ignore_warnings: self.state.ignore_warnings,
            },
            stream: if self.stream == u64::MAX {
                0
            } else {
                (self.stream + 1) as u64
            },
            failure: self.failure,
        }
    }

    /// The session after the command `command`. A finished session stays as
    /// it is. Moving is for `Reviewing` only, and switching the filter for
    /// `Reviewing` and `Empty`.
    pub open spec fn after_command(self, command: Command) -> SessionView {
        if self.state.phase == Phase::Terminated {
            self
        } else {
            match command {
                Command::Navigate(step) => if self.state.phase == Phase::Reviewing {
                    SessionView {
                        state: ReviewState { cursor: self.moved_cursor(step), ..self.state },
                        ..self
                    }
                } else {
                    self
                },
                Command::ToggleFilter => if self.state.phase == Phase::Reviewing
                    || self.state.phase == Phase::Empty {
                    self.toggled()
                } else {
                    self
                },
                Command::Rebuild => self.rebuilt(),
                Command::Quit => SessionView {
                    state: ReviewState { phase: Phase::Terminated, ..self.state },
                    ..self
                },
                Command::NoOp => self,
            }
        }
    }

    /// What the driver does once the session took `command`.
    pub open spec fn command_action(self, command: Command) -> Action {
        if self.after_command(command).state.phase == Phase::Terminated {
            Action::Stop
        } else if command == Command::Rebuild {
            Action::Restart(self.after_command(command).stream)
        } else {
            Action::Continue
        }
    }

    /// What the driver does once the session took an event.
    pub open spec fn event_action(self, source: u64, event: MessageEventView) -> Action {
        if self.after_event(source, event).state.phase == Phase::Terminated {
            Action::Stop
        } else {
            Action::Continue
        }
    }

    /// The session after the events `events` of the stream numbered `source`,
    /// taken in order.
    pub open spec fn after_events(self, source: u64, events: Seq<MessageEventView>) -> SessionView
        decreases events.len(),
    {
        if events.len() == 0 {
            self
        } else {
            self.after_events(source, events.drop_last()).after_event(source, events.last())
        }
    }

    /// What the driver shows of the session.
    pub open spec fn screen(self) -> Screen {
        match self.state.phase {
            Phase::Building => Screen::Building,
            Phase::Empty => Screen::NoMessages,
            Phase::Reviewing => Screen::Message {
                index: self.state.cursor,
                total: self.visible().len() as usize,
            },
            Phase::Terminated => Screen::Closed,
        }
    }
}

/// The views of a run of events, in the same order.
pub open spec fn event_views(events: Seq<MessageEvent>) -> Seq<MessageEventView> {
    events.map_values(|event: MessageEvent| event@)
}

/// The text of an optional string.
pub open spec fn text_view(text: Option<String>) -> Option<Seq<char>> {
    match text {
        Some(s) => Some(s@),
        None => None,
    }
}

/// One review session: the store, the state, the number of the stream whose
/// events count, and the error that ended the session, if one did.
pub struct Session {
    store: MessageStore,
    state: ReviewState,
    stream: u64,
    failure: Option<String>,
}

impl View for Session {
    type V = SessionView;

    closed spec fn view(&self) -> SessionView {
        SessionView {
            store: self.store@,
            state: self.state,
            stream: self.stream,
            failure: text_view(self.failure),
        }
    }
}

impl Session {
    /// The totals agree with the store, and the state with the filtered view.
    pub closed spec fn wf(&self) -> bool {
        self.store.wf() && self@.wf()
    }

    /// A well-formed session has a well-formed view.
    pub proof fn lemma_wf_view(&self)
        requires
            self.wf(),
        ensures
            self@.wf(),
    {
    }

    /// A session whose first build is about to start. Its stream has the
    /// number zero.
    pub fn new(ignore_warnings: bool) -> (session: Self)
        ensures
            session.wf(),
            session@ == (SessionView {
                store: Seq::empty(),
                state: ReviewState { phase: Phase::Building, cursor: 0, ignore_warnings },
                stream: 0,
                failure: None,
            }),
    {
        Session {
            store: MessageStore::new(),
            state: ReviewState { phase: Phase::Building, cursor: 0, ignore_warnings },
            stream: 0,
            failure: None,
        }
    }

    pub fn state(&self) -> (state: ReviewState)
        ensures
            state == self@.state,
    {
        self.state
    }

    pub fn phase(&self) -> (phase: Phase)
        ensures
            phase == self@.state.phase,
    {
        self.state.phase
    }

    pub fn cursor(&self) -> (cursor: usize)
        ensures
            cursor == self@.state.cursor,
    {
        self.state.cursor
    }

    pub fn ignore_warnings(&self) -> (flag: bool)
        ensures
            flag == self@.state.ignore_warnings,
    {
        self.state.ignore_warnings
    }

    /// The number of the stream whose events the session takes.
    pub fn stream(&self) -> (stream: u64)
        ensures
            stream == self@.stream,
    {
        self.stream
    }

    /// The error that ended the session, if one did.
    pub fn failure(&self) -> (failure: Option<&String>)
        ensures
            match failure {
                Some(error) => self@.failure == Some(error@),
                None => self@.failure is None,
            },
    {
        self.failure.as_ref()
    }

    /// The process's exit code: zero unless a failure ended the session.
    pub fn exit_code(&self) -> (code: u8)
        ensures
            code == if self@.failure is None { 0u8 } else { 1u8 },
    {
        if self.failure.is_none() {
            0
        } else {
            1
        }
    }

    /// How many diagnostics the store holds.
    pub fn len(&self) -> (n: usize)
        ensures
            n == self@.store.len(),
    {
        self.store.len()
    }

    /// The number of stored diagnostics of each severity.
    pub fn counts(&self) -> (counts: BuildCounts)
        requires
            self.wf(),
        ensures
            counts.warnings == with_severity(self@.store, Severity::Warning).len(),
            counts.errors == with_severity(self@.store, Severity::Error).len(),
            counts.others == with_severity(self@.store, Severity::Other).len(),
            counts.total() == self@.store.len(),
    {
        self.store.counts()
    }

    /// Copies of the diagnostics that can be paged through, in insertion
    /// order.
    pub fn filtered_view(&self) -> (shown: Vec<Diagnostic>)
        ensures
            views_of(shown@) == self@.visible(),
    {
        self.store.filtered_view(self.state.ignore_warnings)
    }

    /// How many diagnostics can be paged through.
    pub fn visible_len(&self) -> (n: usize)
        requires
            self.wf(),
        ensures
            n == self@.visible().len(),
    {
        self.store.filtered_len(self.state.ignore_warnings)
    }

    /// The diagnostic under the cursor, while reviewing.
    pub fn current(&self) -> (shown: Option<&Diagnostic>)
        requires
            self.wf(),
        ensures
            match shown {
                Some(diagnostic) => self@.state.phase == Phase::Reviewing && diagnostic@
                    == self@.visible()[self@.state.cursor as int],
                None => self@.state.phase != Phase::Reviewing,
            },
    {
        match self.state.phase {
            Phase::Reviewing => self.store.nth_filtered(
                self.state.ignore_warnings,
                self.state.cursor,
            ),
            _ => None,
        }
    }

    /// What the driver shows.
    pub fn screen(&self) -> (screen: Screen)
        requires
            self.wf(),
        ensures
            screen == self@.screen(),
    {
        match self.state.phase {
            Phase::Building => Screen::Building,
            Phase::Empty => Screen::NoMessages,
            Phase::Reviewing => Screen::Message {
                index: self.state.cursor,
                total: self.store.filtered_len(self.state.ignore_warnings),
            },
            Phase::Terminated => Screen::Closed,
        }
    }

    /// `Reviewing` when there is something to show, `Empty` when not.
    fn settled(&self) -> (phase: Phase)
        requires
            self.store.wf(),
        ensures
            phase == self@.settled_phase(),
    {
        if self.store.filtered_len(self.state.ignore_warnings) > 0 {
            Phase::Reviewing
        } else {
            Phase::Empty
        }
    }

    /// Takes one event of the stream numbered `source`.
    pub fn apply_event(&mut self, source: u64, event: MessageEvent) -> (action: Action)
        requires
            old(self).wf(),
        ensures
            final(self).wf(),
            final(self)@ == old(self)@.after_event(source, event@),
            action == old(self)@.event_action(source, event@),
    {
        if source != self.stream || self.state.phase == Phase::Terminated {
            return if self.state.phase == Phase::Terminated {
                Action::Stop
            } else {
                Action::Continue
            };
        }
        match event {
            MessageEvent::Diagnostic(diagnostic) => {
                if self.state.phase == Phase::Building {
                    self.store.append(diagnostic);
                }
                Action::Continue
            },
            MessageEvent::Finished => {
                if self.state.phase == Phase::Building {
                    self.state.cursor = 0;
                    self.state.phase = self.settled();
                }
                Action::Continue
            },
            MessageEvent::Failed(error) => {
                self.state.phase = Phase::Terminated;
                self.failure = Some(error);
                Action::Stop
            },
        }
    }

    /// Takes, in order, the events that the stream numbered `source` has
    /// queued. The driver stops if the session has ended by then.
    pub fn apply_events(&mut self, source: u64, events: Vec<MessageEvent>) -> (action: Action)
        requires
            old(self).wf(),
        ensures
            final(self).wf(),
            final(self)@ == old(self)@.after_events(source, event_views(events@)),
            action == if final(self)@.state.phase == Phase::Terminated {
                Action::Stop
            } else {
                Action::Continue
            },
    {
        let ghost all = event_views(events@);
        let ghost start = self@;
        let mut pending = events;
        let mut done: usize = 0;
        let total = pending.len();
        proof {
            assert(all.take(0) =~= Seq::<MessageEventView>::empty());
        }
        while pending.len() > 0
            invariant
                self.wf(),
                done + pending@.len() == total == all.len(),
                event_views(pending@) == all.skip(done as int),
                self@ == start.after_events(source, all.take(done as int)),
            decreases pending@.len(),
        {
            let ghost before = pending@;
            let event = pending.remove(0);
            proof {
                assert(event_views(before)[0] == all.skip(done as int)[0]);
                assert(event@ == all[done as int]);
                assert(all.take(done + 1).drop_last() =~= all.take(done as int));
                assert forall|i: int| 0 <= i < pending@.len() implies event_views(pending@)[i]
                    == all.skip(done + 1)[i] by {
                    assert(pending@[i] == before[i + 1]);
                    assert(event_views(before)[i + 1] == all.skip(done as int)[i + 1]);
                }
                assert(event_views(pending@) =~= all.skip(done + 1));
            }
            self.apply_event(source, event);
            done = done + 1;
        }
        proof {
            assert(all.take(done as int) =~= all);
        }
        if self.state.phase == Phase::Terminated {
            Action::Stop
        } else {
            Action::Continue
        }
    }

    /// Takes one line of the output of the build behind `stream`: a line that
    /// carries a diagnostic is taken as that stream's next event, and any
    /// other line leaves the session and the stream as they were.
    pub fn feed_line(&mut self, stream: &mut DiagnosticStream, line: &str)
        requires
            old(self).wf(),
            old(stream).spec_emitted() < u64::MAX,
        ensures
            final(self).wf(),
            final(stream).spec_id() == old(stream).spec_id(),
            final(stream).spec_live() == old(stream).spec_live(),
            match old(stream).next_diagnostic(line@) {
                Some(diagnostic) => {
                    &&& final(self)@ == old(self)@.after_event(
                        old(stream).spec_id(),
                        MessageEventView::Diagnostic(diagnostic),
                    )
                    &&& final(stream).spec_emitted() == old(stream).spec_emitted() + 1
                },
                None => {
                    &&& final(self)@ == old(self)@
                    &&& final(stream).spec_emitted() == old(stream).spec_emitted()
                },
            },
            line_fields(line@) is None ==> final(self)@ == old(self)@,
    {
        let source = stream.id();
        match stream.emit(line) {
            Some(event) => {
                self.apply_event(source, event);
            },
            None => {},
        }
    }

    /// Takes one command of the user.
    pub fn apply_command(&mut self, command: Command) -> (action: Action)
        requires
            old(self).wf(),
        ensures
            final(self).wf(),
            final(self)@ == old(self)@.after_command(command),
            action == old(self)@.command_action(command),
    {
        if self.state.phase == Phase::Terminated {
            return Action::Stop;
        }
        match command {
            Command::Navigate(step) => {
                if self.state.phase == Phase::Reviewing {
                    let total = self.store.filtered_len(self.state.ignore_warnings);
                    match step {
                        Step::Next => {
                            if self.state.cursor + 1 < total {
                                self.state.cursor = self.state.cursor + 1;
                            }
                        },
                        Step::Previous => {
                            if self.state.cursor > 0 {
                                self.state.cursor = self.state.cursor - 1;
                            }
                        },
                    }
                }
                Action::Continue
            },
            Command::ToggleFilter => {
                if self.state.phase == Phase::Reviewing || self.state.phase == Phase::Empty {
                    self.state.ignore_warnings = !self.state.ignore_warnings;
                    self.state.cursor = 0;
                    self.state.phase = self.settled();
                }
                Action::Continue
            },
            Command::Rebuild => {
                self.store.reset();
                self.state.cursor = 0;
                self.state.phase = Phase::Building;
                self.stream = if self.stream == u64::MAX {
                    0
                } else {
                    self.stream + 1
                };
                Action::Restart(self.stream)
            },
            Command::Quit => {
                self.state.phase = Phase::Terminated;
                Action::Stop
            },
            Command::NoOp => Action::Continue,
        }
    }
}

/// Every event leaves a well-formed session well-formed.
pub proof fn lemma_event_keeps_wf(session: SessionView, source: u64, event: MessageEventView)
    requires
        session.wf(),
    ensures
        session.after_event(source, event).wf(),
{
}

/// Every command leaves a well-formed session well-formed.
pub proof fn lemma_command_keeps_wf(session: SessionView, command: Command)
    requires
        session.wf(),
    ensures
        session.after_command(command).wf(),
{
    reveal(Seq::filter);
}

/// Moving never takes the cursor out of the filtered view, and changes
/// nothing but the cursor; a step forward from the last entry, like a step
/// back from the first, changes nothing at all.
pub proof fn lemma_navigate_stays_inside(session: SessionView, step: Step)
    requires
        session.wf(),
        session.state.phase == Phase::Reviewing,
    ensures
        session.after_command(Command::Navigate(step)).visible() == session.visible(),
        session.after_command(Command::Navigate(step)).state.phase == Phase::Reviewing,
        0 <= session.after_command(Command::Navigate(step)).state.cursor
            <= session.visible().len() - 1,
        session.state.cursor == session.visible().len() - 1 ==> session.after_command(
            Command::Navigate(Step::Next),
        ) == session,
        session.state.cursor == 0 ==> session.after_command(Command::Navigate(Step::Previous))
            == session,
        0 <= session.state.cursor + step.delta() < session.visible().len() <= usize::MAX
            ==> session.after_command(Command::Navigate(step)).state.cursor
            == session.state.cursor + step.delta(),
{
}

/// Switching the filter, once the build is over, flips the flag, puts the
/// cursor at the start, keeps the store, and gives `Reviewing` exactly when
/// the new filtered view holds something, `Empty` when it does not.
pub proof fn lemma_toggle_resets(session: SessionView)
    requires
        session.state.phase == Phase::Reviewing || session.state.phase == Phase::Empty,
    ensures
        ({
            let next = session.after_command(Command::ToggleFilter);
            &&& next.state.cursor == 0
            &&& next.state.ignore_warnings == !session.state.ignore_warnings
            &&& next.store == session.store
            &&& next.visible() == filtered(session.store, !session.state.ignore_warnings)
            &&& next.visible().len() > 0 ==> next.state.phase == Phase::Reviewing
            &&& next.visible().len() == 0 ==> next.state.phase == Phase::Empty
        }),
{
}

/// A rebuild, in a session that has not ended, leaves nothing stored, every
/// total at zero, the cursor at the start and the phase `Building`, whatever
/// the session held before.
pub proof fn lemma_rebuild_clears(session: SessionView)
    requires
        session.state.phase != Phase::Terminated,
    ensures
        ({
            let next = session.after_command(Command::Rebuild);
            &&& next.store.len() == 0
            &&& with_severity(next.store, Severity::Warning).len() == 0
            &&& with_severity(next.store, Severity::Error).len() == 0
            &&& with_severity(next.store, Severity::Other).len() == 0
            &&& next.state.cursor == 0
            &&& next.state.phase == Phase::Building
            &&& next.state.ignore_warnings == session.state.ignore_warnings
            &&& session.command_action(Command::Rebuild) == Action::Restart(next.stream)
        }),
{
    reveal(Seq::filter);
}

/// After a rebuild, whatever the stream of the build before it still sends
/// is ignored.
pub proof fn lemma_superseded_stream_is_ignored(session: SessionView, event: MessageEventView)
    requires
        session.state.phase != Phase::Terminated,
    ensures
        session.after_command(Command::Rebuild).stream != session.stream,
        session.after_command(Command::Rebuild).after_event(session.stream, event)
            == session.after_command(Command::Rebuild),
{
}

/// A session that has ended stays as it is, whatever comes.
pub proof fn lemma_terminated_is_final(
    session: SessionView,
    command: Command,
    source: u64,
    event: MessageEventView,
)
    requires
        session.state.phase == Phase::Terminated,
    ensures
        session.after_command(command) == session,
        session.after_event(source, event) == session,
{
}

/// A diagnostic is stored only while building: in every other phase the
/// store stays as it is, whatever event comes.
pub proof fn lemma_store_grows_only_while_building(
    session: SessionView,
    source: u64,
    event: MessageEventView,
)
    requires
        session.state.phase != Phase::Building,
    ensures
        session.after_event(source, event).store == session.store,
{
}

} // verus!
