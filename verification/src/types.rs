//! The output formats of the command line.
use vstd::prelude::*;

use crate::text::{owned, str_equal};

verus! {

/// How a command prints its results.
#[derive(Debug, Clone, Copy, PartialEq, Eq, Structural)]
pub enum FormatOutput {
    Json,
    Yaml,
    Table,
}

/// The name of a format (kebab case).
pub open spec fn format_name(f: FormatOutput) -> Seq<char> {
    match f {
        FormatOutput::Json => "json"@,
        FormatOutput::Yaml => "yaml"@,
        FormatOutput::Table => "table"@,
    }
}

/// A text that names no format.
#[derive(Debug)]
pub struct FormatParseError;

impl Default for FormatOutput {
    /// Tables are the default.
    fn default() -> (f: FormatOutput)
        ensures
            f == FormatOutput::Table,
    {
        FormatOutput::Table
    }
}

impl FormatOutput {
    /// The names of the formats, in the order the command line lists them.
    pub fn variants() -> (r: Vec<String>)
        ensures
            r@.len() == 3,
            r@[0]@ == "table"@,
            r@[1]@ == "json"@,
            r@[2]@ == "yaml"@,
    {
        let mut r: Vec<String> = Vec::new();
        r.push(owned("table"));
        r.push(owned("json"));
        r.push(owned("yaml"));
        r
    }

    /// The format named `s`.
    pub fn from_str(s: &str) -> (r: Result<FormatOutput, FormatParseError>)
        ensures
            match r {
                Ok(f) => format_name(f) == s@,
                Err(_) => forall|f: FormatOutput| format_name(f) != s@,
            },
    {
        if str_equal(s, "json") {
            Ok(FormatOutput::Json)
        } else if str_equal(s, "yaml") {
            Ok(FormatOutput::Yaml)
        } else if str_equal(s, "table") {
            Ok(FormatOutput::Table)
        } else {
            Err(FormatParseError)
        }
    }

    /// The name of the format.
    pub fn to_string(&self) -> (r: String)
        ensures
            r@ == format_name(*self),
    {
        match self {
            FormatOutput::Json => owned("json"),
            FormatOutput::Yaml => owned("yaml"),
            FormatOutput::Table => owned("table"),
        }
    }
}

} // verus!
