//! Review session core for compiler diagnostics streamed by a build tool.
//!
//! The crate classifies the build tool's line-oriented records, keeps them in
//! an append-only store with running severity counts, projects the store
//! through the warning filter, and drives the review session's state machine.

pub mod cli;
pub mod diagnostic;
pub mod frame;
pub mod parser;
pub mod review;
pub mod store;
pub mod stream;
pub mod ui;

pub use cli::{Cli, FixieArgs};
pub use diagnostic::{BuildCounts, Diagnostic, Severity};
pub use frame::{
    decimal, highlight_fallback, render_building_screen, render_message,
    render_no_messages_screen, Frame, Label, Tint,
};
pub use parser::{check_messages, classify, filter_messages, parse_build_output, parse_line, read_record};
pub use review::{Action, Phase, ReviewState, Screen, Session};
pub use store::MessageStore;
pub use stream::{DiagnosticStream, MessageEvent};
pub use ui::{control_tui, Command, Key, Step};
