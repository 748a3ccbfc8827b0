//! The command line as a whole: what runs for a given argument list, and how the
//! error of a command is reported.
use vstd::prelude::*;

use crate::colors::{AnsiStyle, ColorScheme};
use crate::config::{Config, strings_view};
use crate::config_alias::push_str;
use crate::error::{ConfigErr, ConfigError};
use crate::text::{concat2, concat3, owned};

verus! {

/// What `shlex::join` gives for `words`: the words, quoted where the shell needs
/// it, separated by single spaces.
pub uninterp spec fn shlex_joined(words: Seq<Seq<char>>) -> Seq<char>;

/// `shlex::join` of the words `v[from..]`.
#[verifier::external_body]
#[allow(deprecated)]
fn shlex_join(v: &Vec<String>, from: usize) -> (r: String)
    requires
        from <= v@.len(),
    ensures
        r@ == shlex_joined(strings_view(v@).skip(from as int)),
{
    shlex::join(v[from..].iter().map(|s| s.as_str()))
}

/// The command line after the program name, as one string (the text that is
/// checked against the known commands).
pub fn command_line(args: &Vec<String>) -> (r: String)
    requires
        args@.len() >= 1,
    ensures
        r@ == shlex_joined(strings_view(args@).skip(1)),
{
    shlex_join(args, 1)
}

/// What the command line runs.
pub enum Dispatch {
    /// Run `sh` with these arguments (a shell alias).
    Shell(Vec<String>),
    /// Parse these arguments (program name first) as an oxide command.
    Parse(Vec<String>),
}

/// What runs for the arguments `args` (program name first): the arguments
/// themselves when they make a command; else the expansion of the alias they
/// start with, run by `sh` for a shell alias, else parsed after the program name.
pub fn dispatch<C: Config>(args: Vec<String>, is_command: bool, config: &C) -> (r: Result<Dispatch, ConfigError>)
    requires
        config.valid(),
        args@.len() >= 1,
    ensures
        is_command ==> (r matches Ok(Dispatch::Parse(v)) && strings_view(v@) == strings_view(args@)),
        !is_command ==> match config.spec_expand_alias(strings_view(args@)) {
            Err(e) => r matches Err(x) && x@ == e,
            Ok((ex, shell)) => if shell {
                ex.len() >= 1 && (r matches Ok(Dispatch::Shell(v)) && strings_view(v@) == ex.skip(1))
            } else {
                r matches Ok(Dispatch::Parse(v)) && strings_view(v@) == seq![args@[0]@] + ex
            },
        },
{
    if is_command {
        return Ok(Dispatch::Parse(args));
    }
    let program = owned(args[0].as_str());
    let ghost a = strings_view(args@);
    let (expanded, is_shell) = config.expand_alias(args)?;
    if is_shell {
        let mut rest: Vec<String> = Vec::new();
        let mut i: usize = 1;
        while i < expanded.len()
            invariant
                1 <= i <= expanded@.len(),
                strings_view(rest@) == strings_view(expanded@).subrange(1, i as int),
            decreases expanded@.len() - i,
        {
            push_str(&mut rest, expanded[i].as_str());
            assert(strings_view(rest@) =~= strings_view(expanded@).subrange(1, i + 1));
            i = i + 1;
        }
        assert(strings_view(expanded@).subrange(1, expanded@.len() as int) =~= strings_view(expanded@).skip(1));
        return Ok(Dispatch::Shell(rest));
    }
    let mut v: Vec<String> = Vec::new();
    push_str(&mut v, program.as_str());
    assert(strings_view(v@) =~= seq![a[0]] + strings_view(expanded@).take(0));
    let mut i: usize = 0;
    while i < expanded.len()
        invariant
            i <= expanded@.len(),
            strings_view(v@) == seq![a[0]] + strings_view(expanded@).take(i as int),
        decreases expanded@.len() - i,
    {
        push_str(&mut v, expanded[i].as_str());
        assert(strings_view(v@) =~= seq![a[0]] + strings_view(expanded@).take(i + 1));
        i = i + 1;
    }
    assert(strings_view(expanded@).take(expanded@.len() as int) =~= strings_view(expanded@));
    Ok(Dispatch::Parse(v))
}


/// The error a command failed with: one of the API's errors, or any other error
/// with its message.
pub enum CommandError {
    ObjectNotFound(String),
    ObjectAlreadyExists(String),
    InvalidRequest(String),
    Unauthenticated(String),
    InvalidValue(String),
    Forbidden,
    InternalError(String),
    ServiceUnavailable(String),
    MethodNotAllowed(String),
    Other(String),
}

/// The lines that report the error `e` on standard error.
pub open spec fn error_lines(e: CommandError, cs: ColorScheme) -> Seq<Seq<char>> {
    let icon = cs.styled(AnsiStyle::Red, "✘"@);
    match e {
        CommandError::ObjectNotFound(m) => seq![icon + " Object not found: "@ + m@],
        CommandError::ObjectAlreadyExists(m) => seq![icon + " Object already exists: "@ + m@],
        CommandError::InvalidRequest(m) => seq![icon + " Invalid request: "@ + m@],
        CommandError::Unauthenticated(m) => seq![
            icon + " You are not authenticated: "@ + m@,
            "Try authenticating with: `oxide auth login`"@,
        ],
        CommandError::InvalidValue(m) => seq![icon + " Invalid value: "@ + m@],
        CommandError::Forbidden => seq![icon + " You are not authorized to perform this action"@],
        CommandError::InternalError(m) => seq![icon + " Oxide API internal error: "@ + m@],
        CommandError::ServiceUnavailable(m) => seq![icon + " Oxide API service unavailable: "@ + m@],
        CommandError::MethodNotAllowed(m) => seq![icon + " Oxide API method not allowed: "@ + m@],
        CommandError::Other(m) => seq![m@],
    }
}

fn one_line(s: String) -> (r: Vec<String>)
    ensures
        strings_view(r@) == seq![s@],
{
    let mut v: Vec<String> = Vec::new();
    v.push(s);
    assert(strings_view(v@) =~= seq![s@]);
    v
}

/// How a failed command is reported: the lines for standard error; the process
/// then exits with code 1.
pub fn error_report(e: &CommandError, cs: &ColorScheme) -> (r: Vec<String>)
    ensures
        strings_view(r@) == error_lines(*e, *cs),
{
    let icon = cs.failure_icon();
    let i = icon.as_str();
    match e {
        CommandError::ObjectNotFound(m) => one_line(concat3(i, " Object not found: ", m.as_str())),
        CommandError::ObjectAlreadyExists(m) => one_line(concat3(i, " Object already exists: ", m.as_str())),
        CommandError::InvalidRequest(m) => one_line(concat3(i, " Invalid request: ", m.as_str())),
        CommandError::Unauthenticated(m) => {
            let mut v = one_line(concat3(i, " You are not authenticated: ", m.as_str()));
            push_str(&mut v, "Try authenticating with: `oxide auth login`");
            v
        },
        CommandError::InvalidValue(m) => one_line(concat3(i, " Invalid value: ", m.as_str())),
        CommandError::Forbidden => one_line(concat2(i, " You are not authorized to perform this action")),
        CommandError::InternalError(m) => one_line(concat3(i, " Oxide API internal error: ", m.as_str())),
        CommandError::ServiceUnavailable(m) => one_line(concat3(i, " Oxide API service unavailable: ", m.as_str())),
        CommandError::MethodNotAllowed(m) => one_line(concat3(i, " Oxide API method not allowed: ", m.as_str())),
        CommandError::Other(m) => one_line(owned(m.as_str())),
    }
}

} // verus!
