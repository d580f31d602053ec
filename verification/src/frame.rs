//! What each screen shows, as plain values for a renderer to draw.

use vstd::prelude::*;
use vstd::string::StringExecFns;
use crate::diagnostic::{BuildCounts, Diagnostic, Severity};

verus! {

/// The colour of a border or of a piece of text.
#[derive(Clone, Copy, Debug, PartialEq, Eq, Structural)]
pub enum Tint {
    Plain,
    Yellow,
    Red,
    Blue,
}

/// A piece of text in one colour.
#[derive(Debug)]
pub struct Label {
    pub text: String,
    pub tint: Tint,
}

/// What a `Label` holds, as mathematical values.
pub struct LabelView {
    pub text: Seq<char>,
    pub tint: Tint,
}

impl View for Label {
    type V = LabelView;

    open spec fn view(&self) -> LabelView {
        LabelView { text: self.text@, tint: self.tint }
    }
}

/// One screen: a bordered block with a title, a body, and a line of labels
/// along the bottom. `highlight` says whether the body is source text to be
/// shown with syntax colours.
#[derive(Debug)]
pub struct Frame {
    pub title: String,
    pub border: Tint,
    pub body: String,
    pub highlight: bool,
    pub footer: Vec<Label>,
}

/// What a `Frame` holds, as mathematical values.
pub struct FrameView {
    pub title: Seq<char>,
    pub border: Tint,
    pub body: Seq<char>,
    pub highlight: bool,
    pub footer: Seq<LabelView>,
}

impl View for Frame {
    type V = FrameView;

    open spec fn view(&self) -> FrameView {
        FrameView {
            title: self.title@,
            border: self.border,
            body: self.body@,
            highlight: self.highlight,
            footer: self.footer@.map_values(|label: Label| label@),
        }
    }
}

/// The numeral of one decimal digit.
pub open spec fn digit_text(digit: nat) -> Seq<char> {
    if digit == 0 {
        "0"@
    } else if digit == 1 {
        "1"@
    } else if digit == 2 {
        "2"@
    } else if digit == 3 {
        "3"@
    } else if digit == 4 {
        "4"@
    } else if digit == 5 {
        "5"@
    } else if digit == 6 {
        "6"@
    } else if digit == 7 {
        "7"@
    } else if digit == 8 {
        "8"@
    } else {
        "9"@
    }
}

/// A number in decimal, without leading zeros.
pub open spec fn decimal_text(n: nat) -> Seq<char>
    decreases n,
{
    if n < 10 {
        digit_text(n)
    } else {
        decimal_text(n / 10) + digit_text(n % 10)
    }
}

/// The numeral of one decimal digit.
fn numeral(value: usize) -> (text: &'static str)
    requires
        value < 10,
    ensures
        text@ == digit_text(value as nat),
{
    if value == 0 {
        "0"
    } else if value == 1 {
        "1"
    } else if value == 2 {
        "2"
    } else if value == 3 {
        "3"
    } else if value == 4 {
        "4"
    } else if value == 5 {
        "5"
    } else if value == 6 {
        "6"
    } else if value == 7 {
        "7"
    } else if value == 8 {
        "8"
    } else {
        "9"
    }
}

/// Writes a number in decimal.
pub fn decimal(n: usize) -> (text: String)
    ensures
        text@ == decimal_text(n as nat),
    decreases n,
{
    if n < 10 {
        String::from_str(numeral(n))
    } else {
        decimal(n / 10).concat(numeral(n % 10))
    }
}

/// The border colour of a diagnostic of the given severity.
pub open spec fn severity_tint(severity: Severity) -> Tint {
    match severity {
        Severity::Warning => Tint::Yellow,
        Severity::Error => Tint::Red,
        Severity::Other => Tint::Blue,
    }
}

/// The name of a severity in a title, seven characters wide.
pub open spec fn severity_title(severity: Severity) -> Seq<char> {
    match severity {
        Severity::Warning => "WARNING"@,
        Severity::Error => "  ERROR"@,
        Severity::Other => "  OTHER"@,
    }
}

/// The title of the diagnostic at position `index` of `total`: the
/// severity's name, then the position counted from one and the total.
pub open spec fn message_title(severity: Severity, index: nat, total: nat) -> Seq<char> {
    severity_title(severity) + " ["@ + decimal_text(index + 1) + "/"@ + decimal_text(total) + "]"@
}

/// How the bottom line shows the state of the warning filter.
pub open spec fn filter_text(ignore_warnings: bool) -> Seq<char> {
    " Ignore warnings: "@ + (if ignore_warnings {
        "ON "@
    } else {
        "OFF"@
    }) + " "@
}

/// The key bindings, as the bottom line shows them.
pub open spec fn help_text() -> Seq<char> {
    "| h/← l/→ : navigate | i : toggle warnings | r : rebuild | q : quit"@
}

/// A total under its tag, as the bottom line shows it.
pub open spec fn count_text(tag: Seq<char>, count: nat) -> Seq<char> {
    tag + " "@ + decimal_text(count) + " "@
}

/// The bottom line of a diagnostic's screen: the three totals in their
/// colours, the state of the warning filter, and the key bindings.
pub open spec fn status_line(counts: BuildCounts, ignore_warnings: bool) -> Seq<LabelView> {
    seq![
        LabelView { text: count_text("WARN"@, counts.warnings as nat), tint: Tint::Yellow },
        LabelView { text: count_text("ERR"@, counts.errors as nat), tint: Tint::Red },
        LabelView { text: count_text("OTH"@, counts.others as nat), tint: Tint::Blue },
        LabelView { text: filter_text(ignore_warnings), tint: Tint::Plain },
        LabelView { text: help_text(), tint: Tint::Plain },
    ]
}

fn count_label(tag: &str, count: usize, tint: Tint) -> (label: Label)
    ensures
        label@ == (LabelView { text: count_text(tag@, count as nat), tint }),
{
    let number = decimal(count);
    let text = String::from_str(tag).concat(" ").concat(number.as_str()).concat(" ");
    Label { text, tint }
}

fn filter_label(ignore_warnings: bool) -> (label: Label)
    ensures
        label@ == (LabelView { text: filter_text(ignore_warnings), tint: Tint::Plain }),
{
    let state = if ignore_warnings {
        "ON "
    } else {
        "OFF"
    };
    let text = String::from_str(" Ignore warnings: ").concat(state).concat(" ");
    Label { text, tint: Tint::Plain }
}

/// The screen that is shown while the build runs.
pub fn render_building_screen() -> (frame: Frame)
    ensures
        frame@ == (FrameView {
            title: "fixie"@,
            border: Tint::Plain,
            body: "Waiting for cargo build..."@,
            highlight: false,
            footer: Seq::empty(),
        }),
{
    let frame = Frame {
        title: String::from_str("fixie"),
        border: Tint::Plain,
        body: String::from_str("Waiting for cargo build..."),
        highlight: false,
        footer: Vec::new(),
    };
    assert(frame@.footer =~= Seq::empty());
    frame
}

/// The screen that is shown when the build left nothing to review.
pub fn render_no_messages_screen() -> (frame: Frame)
    ensures
        frame@ == (FrameView {
            title: "fixie"@,
            border: Tint::Plain,
            body: "Build finished with no warnings or errors"@,
            highlight: false,
            footer: Seq::empty(),
        }),
{
    let frame = Frame {
        title: String::from_str("fixie"),
        border: Tint::Plain,
        body: String::from_str("Build finished with no warnings or errors"),
        highlight: false,
        footer: Vec::new(),
    };
    assert(frame@.footer =~= Seq::empty());
    frame
}

/// The screen of the diagnostic at position `index` of a filtered view of
/// `total` entries: titled and bordered by its severity, with its text as
/// the body to highlight and the status line at the bottom.
pub fn render_message(
    message: &Diagnostic,
    index: usize,
    total: usize,
    counts: BuildCounts,
    ignore_warnings: bool,
) -> (frame: Frame)
    requires
        index < usize::MAX,
    ensures
        frame@ == (FrameView {
            title: message_title(message.severity, index as nat, total as nat),
            border: severity_tint(message.severity),
            body: message.text@,
            highlight: true,
            footer: status_line(counts, ignore_warnings),
        }),
{
    let (border, name) = match message.severity {
        Severity::Warning => (Tint::Yellow, "WARNING"),
        Severity::Error => (Tint::Red, "  ERROR"),
        Severity::Other => (Tint::Blue, "  OTHER"),
    };
    let place = decimal(index + 1);
    let of = decimal(total);
    let title = String::from_str(name).concat(" [").concat(place.as_str()).concat("/").concat(
        of.as_str(),
    ).concat("]");
    let mut footer: Vec<Label> = Vec::new();
    footer.push(count_label("WARN", counts.warnings, Tint::Yellow));
    footer.push(count_label("ERR", counts.errors, Tint::Red));
    footer.push(count_label("OTH", counts.others, Tint::Blue));
    footer.push(filter_label(ignore_warnings));
    footer.push(
        Label {
            text: String::from_str(
                "| h/← l/→ : navigate | i : toggle warnings | r : rebuild | q : quit",
            ),
            tint: Tint::Plain,
        },
    );
    let frame = Frame { title, border, body: message.text.clone(), highlight: true, footer };
    assert(frame@.footer =~= status_line(counts, ignore_warnings));
    frame
}

/// The body that is shown in place of a diagnostic whose highlighting
/// failed with `error`.
pub fn highlight_fallback(error: &str) -> (text: String)
    ensures
        text@ == "Error generating highlighted text:\n"@ + error@,
{
    String::from_str("Error generating highlighted text:\n").concat(error)
}

} // verus!
