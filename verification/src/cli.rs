//! What the command line hands to a session.

use vstd::prelude::*;

verus! {

/// The options of the `fixie` subcommand.
#[derive(Debug)]
pub struct FixieArgs {
    /// Whether warnings are hidden when the session starts.
    pub ignore_warnings: bool,
    /// The name of the syntax highlighting theme.
    pub theme: String,
}

/// The subcommands.
#[derive(Debug)]
pub enum Cli {
    Fixie(FixieArgs),
}

/// The theme's name where the command line gives none.
pub open spec fn default_theme() -> Seq<char> {
    "base16-ocean.dark"@
}

impl FixieArgs {
    /// The options with the given values.
    pub fn new(ignore_warnings: bool, theme: String) -> (args: Self)
        ensures
            args.ignore_warnings == ignore_warnings,
            args.theme == theme,
    {
        FixieArgs { ignore_warnings, theme }
    }
}

impl FixieArgs {
    /// The theme to highlight with: the one asked for where the theme set
    /// knows it, and the default one where it does not.
    pub fn effective_theme(&self, known: bool) -> (theme: &str)
        ensures
            theme@ == if known {
                self.theme@
            } else {
                default_theme()
            },
    {
        if known {
            self.theme.as_str()
        } else {
            "base16-ocean.dark"
        }
    }
}

impl Default for FixieArgs {
    /// The options of a command line that sets none: warnings are shown, and
    /// the theme is the default one.
    fn default() -> (args: Self)
        ensures
            !args.ignore_warnings,
            args.theme@ == default_theme(),
    {
        FixieArgs { ignore_warnings: false, theme: "base16-ocean.dark".to_owned() }
    }
}

impl Cli {
    /// The options of the subcommand that was given.
    pub fn args(&self) -> (args: &FixieArgs)
        ensures
            *self == Cli::Fixie(*args),
    {
        match self {
            Cli::Fixie(args) => args,
        }
    }
}

} // verus!
