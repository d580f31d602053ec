//! The producer's side of a build: lines in, events out.

use vstd::prelude::*;
use crate::diagnostic::{severity_of, Diagnostic, DiagnosticView};
use crate::parser::{classify, line_fields, parse_line};

verus! {

/// What a stream tells the session.
#[derive(Debug)]
pub enum MessageEvent {
    Diagnostic(Diagnostic),
    Finished,
    Failed(String),
}

/// What a `MessageEvent` holds, as mathematical values.
pub enum MessageEventView {
    Diagnostic(DiagnosticView),
    Finished,
    Failed(Seq<char>),
}

impl View for MessageEvent {
    type V = MessageEventView;

    open spec fn view(&self) -> MessageEventView {
        match self {
            MessageEvent::Diagnostic(d) => MessageEventView::Diagnostic(d@),
            MessageEvent::Finished => MessageEventView::Finished,
            MessageEvent::Failed(error) => MessageEventView::Failed(error@),
        }
    }
}

/// The diagnostic that a line carries when it is the one numbered
/// `sequence` of its stream.
pub open spec fn line_diagnostic(line: Seq<char>, sequence: nat) -> Option<DiagnosticView> {
    match line_fields(line) {
        Some(fields) => Some(
            DiagnosticView { severity: severity_of(fields.0), text: fields.1, sequence },
        ),
        None => None,
    }
}

/// One run of the build, seen from the lines it prints. It numbers the
/// diagnostics it emits from zero, and emits nothing more once it has been
/// told that nobody listens.
#[derive(Debug)]
pub struct DiagnosticStream {
    id: u64,
    emitted: u64,
    live: bool,
}

impl DiagnosticStream {
    /// The number that tells this stream from the others of the session.
    pub closed spec fn spec_id(&self) -> u64 {
        self.id
    }

    /// How many diagnostics the stream has emitted.
    pub closed spec fn spec_emitted(&self) -> u64 {
        self.emitted
    }

    /// Whether the stream still emits.
    pub closed spec fn spec_live(&self) -> bool {
        self.live
    }

    /// The diagnostic that the stream emits for `line`, if it emits one: the
    /// one that the line carries, under the next sequence number, as long as
    /// the stream is live.
    pub open spec fn next_diagnostic(&self, line: Seq<char>) -> Option<DiagnosticView> {
        if self.spec_live() {
            line_diagnostic(line, self.spec_emitted() as nat)
        } else {
            None
        }
    }

    /// A live stream that has emitted nothing yet.
    pub fn new(id: u64) -> (stream: Self)
        ensures
            stream.spec_id() == id,
            stream.spec_emitted() == 0,
            stream.spec_live(),
    {
        DiagnosticStream { id, emitted: 0, live: true }
    }

    pub fn is_live(&self) -> (live: bool)
        ensures
            live == self.spec_live(),
    {
        self.live
    }

    /// Tells the stream that its listener is gone. It emits nothing from now
    /// on.
    pub fn cancel(&mut self)
        ensures
            !final(self).spec_live(),
            final(self).spec_id() == old(self).spec_id(),
            final(self).spec_emitted() == old(self).spec_emitted(),
    {
        self.live = false;
    }

    pub fn id(&self) -> (id: u64)
        ensures
            id == self.spec_id(),
    {
        self.id
    }

    pub fn emitted(&self) -> (emitted: u64)
        ensures
            emitted == self.spec_emitted(),
    {
        self.emitted
    }

    /// Whether the stream can still number another diagnostic.
    pub fn can_emit(&self) -> (room: bool)
        ensures
            room == (self.spec_emitted() < u64::MAX),
    {
        self.emitted < u64::MAX
    }

    /// Takes one line of the build's output. On a live stream, a line that
    /// carries a diagnostic gives an event with the next sequence number. Any
    /// other line, and any line on a cancelled stream, gives nothing and
    /// leaves the stream as it was.
    pub fn emit(&mut self, line: &str) -> (event: Option<MessageEvent>)
        requires
            old(self).spec_emitted() < u64::MAX,
        ensures
            final(self).spec_id() == old(self).spec_id(),
            final(self).spec_live() == old(self).spec_live(),
            match old(self).next_diagnostic(line@) {
                Some(diagnostic) => {
                    &&& event is Some
                    &&& event->0@ == MessageEventView::Diagnostic(diagnostic)
                    &&& final(self).spec_emitted() == old(self).spec_emitted() + 1
                },
                None => event is None && final(self).spec_emitted() == old(self).spec_emitted(),
            },
    {
        if !self.live {
            return None;
        }
        match parse_line(line) {
            Some(fields) => {
                let severity = classify(fields.0.as_str());
                let diagnostic = Diagnostic::new(severity, fields.1, self.emitted);
                self.emitted = self.emitted + 1;
                Some(MessageEvent::Diagnostic(diagnostic))
            },
            None => None,
        }
    }

    /// The event that ends a live stream: `Finished` when the wait for the
    /// build succeeded, `Failed` with the error's text when starting the build
    /// or waiting for it did not. A cancelled stream ends without an event.
    pub fn complete(&self, wait: Result<(), String>) -> (event: Option<MessageEvent>)
        ensures
            self.spec_live() ==> event is Some && event->0@ == match wait {
                Ok(_) => MessageEventView::Finished,
                Err(error) => MessageEventView::Failed(error@),
            },
            !self.spec_live() ==> event is None,
    {
        if !self.live {
            return None;
        }
        match wait {
            Ok(_) => Some(MessageEvent::Finished),
            Err(error) => Some(MessageEvent::Failed(error)),
        }
    }
}

} // verus!
