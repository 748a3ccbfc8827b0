//! `oxide update`: whether to replace the running binary, and what is printed.
use vstd::prelude::*;

use crate::colors::{AnsiStyle, ColorScheme};
use crate::text::{concat2, concat3};
use crate::update::{VersionCmp, version_cmp, version_greater_then};

verus! {

/// Update the current running binary to the latest version.
pub struct CmdUpdate {}

impl CmdUpdate {
    /// Whether to update from `current` to the release `latest`: not under Homebrew,
    /// and only to a newer version. Gives the line printed before the download.
    pub fn plan(&self, is_homebrew: bool, latest: &str, current: &str) -> (r: Result<String, String>)
        ensures
            if is_homebrew {
                r matches Err(m) && m@ == "You are running under Homebrew. Please run `brew upgrade oxide` instead."@
            } else {
                match version_cmp(latest@, current@) {
                    None => r matches Err(m) && m@ == "failed to compare versions: "@ + latest@ + " "@ + current@,
                    Some(c) => if c == VersionCmp::Gt {
                        r matches Ok(line) && line@ == "Updating from v"@ + current@ + " to "@ + latest@ + "..."@
                    } else {
                        r matches Err(m) && m@ == "You are already running the latest version ("@ + current@
                            + ") of `oxide`."@
                    },
                }
            },
    {
        if is_homebrew {
            return Err(crate::text::owned("You are running under Homebrew. Please run `brew upgrade oxide` instead."));
        }
        match version_greater_then(latest, current) {
            Err(e) => Err(e.to_string()),
            Ok(false) => Err(concat3("You are already running the latest version (", current, ") of `oxide`.")),
            Ok(true) => {
                let a = concat3("Updating from v", current, " to ");
                Ok(concat3(a.as_str(), latest, "..."))
            },
        }
    }

    /// The line printed once the binary is replaced.
    pub fn updated_message(&self, cs: &ColorScheme, latest: &str) -> (r: String)
        ensures
            r@ == cs.styled(AnsiStyle::Green, "✔"@) + " Updated to v"@ + latest@ + "!"@,
    {
        let icon = cs.success_icon();
        let a = concat3(icon.as_str(), " Updated to v", latest);
        concat2(a.as_str(), "!")
    }
}

} // verus!
