//! The `version` command.
use vstd::prelude::*;

use crate::text::{concat2, concat3, owned};

verus! {

/// Prints the version of the program.
pub struct CmdVersion {}

impl CmdVersion {
    /// The lines that the command prints for `version` built from the git revision
    /// `git_hash`, if known: the version line, then the release notes address.
    pub fn output(&self, version: &str, git_hash: Option<&str>) -> (r: (String, String))
        ensures
            r.0@ == match git_hash {
                Some(gh) => "oxide "@ + version@ + " ("@ + gh@ + ")"@,
                None => "oxide "@ + version@,
            },
            r.1@ == "https://github.com/oxidecomputer/cli/releases/tag/v"@ + version@,
    {
        let line = match git_hash {
            Some(gh) => {
                let mut l = concat3("oxide ", version, " (");
                l.append(gh);
                l.append(")");
                l
            },
            None => concat2("oxide ", version),
        };
        (line, changelog_url(version))
    }
}

/// The address of the release notes of `version`.
pub fn changelog_url(version: &str) -> (r: String)
    ensures
        r@ == "https://github.com/oxidecomputer/cli/releases/tag/v"@ + version@,
{
    concat2("https://github.com/oxidecomputer/cli/releases/tag/v", version)
}

} // verus!
