//! Keys and the commands they stand for.

use vstd::prelude::*;

verus! {

/// One position forward or one position back.
#[derive(Clone, Copy, Debug, PartialEq, Eq, Structural)]
pub enum Step {
    Next,
    Previous,
}

impl Step {
    /// The signed distance of the step.
    pub open spec fn delta(self) -> int {
        match self {
            Step::Next => 1,
            Step::Previous => -1,
        }
    }
}

/// What the user asks of the session.
#[derive(Clone, Copy, Debug, PartialEq, Eq, Structural)]
pub enum Command {
    Navigate(Step),
    ToggleFilter,
    Rebuild,
    Quit,
    NoOp,
}

/// A key press, reduced to what the session tells apart.
#[derive(Clone, Copy, Debug, PartialEq, Eq, Structural)]
pub enum Key {
    Char(char),
    Up,
    Down,
    Left,
    Right,
    Other,
}

/// The command bound to a key; `None` is a poll that timed out.
pub open spec fn command_for(key: Option<Key>) -> Command {
    match key {
        Some(Key::Char(c)) => if c == 'i' {
            Command::ToggleFilter
        } else if c == 'r' {
            Command::Rebuild
        } else if c == 'q' {
            Command::Quit
        } else if c == 'j' || c == 'l' {
            Command::Navigate(Step::Next)
        } else if c == 'k' || c == 'h' {
            Command::Navigate(Step::Previous)
        } else {
            Command::NoOp
        },
        Some(Key::Down) | Some(Key::Right) => Command::Navigate(Step::Next),
        Some(Key::Up) | Some(Key::Left) => Command::Navigate(Step::Previous),
        Some(Key::Other) | None => Command::NoOp,
    }
}

/// Maps the outcome of one poll of the keyboard to a command.
pub fn control_tui(key: Option<Key>) -> (command: Command)
    ensures
        command == command_for(key),
{
    match key {
        Some(Key::Char('i')) => Command::ToggleFilter,
        Some(Key::Char('r')) => Command::Rebuild,
        Some(Key::Char('q')) => Command::Quit,
        Some(Key::Char('j')) | Some(Key::Down) | Some(Key::Char('l')) | Some(Key::Right) => {
            Command::Navigate(Step::Next)
        },
        Some(Key::Char('k')) | Some(Key::Up) | Some(Key::Char('h')) | Some(Key::Left) => {
            Command::Navigate(Step::Previous)
        },
        _ => Command::NoOp,
    }
}

} // verus!
