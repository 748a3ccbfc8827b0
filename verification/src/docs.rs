//! What the documentation pages show of the commands: a plain model of the command
//! tree, filled in from the command-line parser.
use vstd::prelude::*;

verus! {

/// An argument of a command.
pub struct ArgDoc {
    /// The name of the argument.
    pub id: String,
    pub short: Option<char>,
    pub long: Option<String>,
    pub help: Option<String>,
    pub long_help: Option<String>,
    pub required: bool,
    pub hidden: bool,
    /// Given by position rather than by a flag.
    pub positional: bool,
    /// The names of the values the flag takes, if it lists them.
    pub value_names: Option<Vec<String>>,
    pub default_values: Vec<String>,
    /// The environment variable that also sets the argument, when it is shown.
    pub env: Option<String>,
}

/// A subcommand as its parent's pages list it.
pub struct SubcommandDoc {
    pub name: String,
    pub about: Option<String>,
    pub long_about: Option<String>,
    pub hidden: bool,
}

/// A command.
pub struct CommandDoc {
    pub name: String,
    pub about: Option<String>,
    pub long_about: Option<String>,
    /// The long version, else the version.
    pub version: Option<String>,
    pub author: Option<String>,
    /// The long text after the help, else the text after the help.
    pub after_help: Option<String>,
    pub subcommands: Vec<SubcommandDoc>,
    pub subcommand_heading: Option<String>,
    pub subcommand_value_name: Option<String>,
    /// A subcommand must be given (or the help is shown without one).
    pub subcommand_required: bool,
    pub args: Vec<ArgDoc>,
}

/// The names of the subcommands.
pub open spec fn subcommand_names(subs: Seq<SubcommandDoc>) -> Seq<Seq<char>> {
    subs.map_values(|s: SubcommandDoc| s.name@)
}

} // verus!
