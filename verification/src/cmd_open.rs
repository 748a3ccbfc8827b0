//! The `open` command: shortcuts to the documentation and the console.
use vstd::prelude::*;

use crate::config::Config;
use crate::error::{ConfigErr, ConfigError};
use crate::text::{concat2, has_prefix, owned, starts_with, str_equal};

verus! {

/// What `open` opens.
#[derive(Debug, Clone, Copy, PartialEq, Eq, Structural)]
pub enum OpenShortcut {
    /// The Oxide documentation.
    Docs,
    /// The Oxide API reference.
    ApiRef,
    /// The Oxide CLI reference.
    CliRef,
    /// The Oxide Console.
    Console,
}

/// The address of a shortcut; the console has none of its own.
pub open spec fn shortcut_url(s: OpenShortcut) -> Seq<char> {
    match s {
        OpenShortcut::Docs => "https://docs.oxide.computer"@,
        OpenShortcut::ApiRef => "https://docs.oxide.computer/api"@,
        OpenShortcut::CliRef => "https://docs.oxide.computer/cli"@,
        OpenShortcut::Console => ""@,
    }
}

/// The command-line name of a shortcut.
pub open spec fn shortcut_name(s: OpenShortcut) -> Seq<char> {
    match s {
        OpenShortcut::Docs => "docs"@,
        OpenShortcut::ApiRef => "api-ref"@,
        OpenShortcut::CliRef => "cli-ref"@,
        OpenShortcut::Console => "console"@,
    }
}

impl Default for OpenShortcut {
    /// The documentation is the default.
    fn default() -> (s: OpenShortcut)
        ensures
            s == OpenShortcut::Docs,
    {
        OpenShortcut::Docs
    }
}

impl OpenShortcut {
    /// The address of the shortcut.
    pub fn to_string(&self) -> (r: String)
        ensures
            r@ == shortcut_url(*self),
    {
        match self {
            OpenShortcut::Docs => owned("https://docs.oxide.computer"),
            OpenShortcut::ApiRef => owned("https://docs.oxide.computer/api"),
            OpenShortcut::CliRef => owned("https://docs.oxide.computer/cli"),
            OpenShortcut::Console => owned(""),
        }
    }

    /// The shortcut named `s`; an error message names the invalid value.
    pub fn from_str(s: &str) -> (r: Result<OpenShortcut, String>)
        ensures
            match r {
                Ok(sc) => shortcut_name(sc) == s@,
                Err(msg) => (forall|sc: OpenShortcut| shortcut_name(sc) != s@) && msg@ == "Invalid value for [shortcut]: "@ + s@,
            },
    {
        if str_equal(s, "docs") {
            Ok(OpenShortcut::Docs)
        } else if str_equal(s, "api-ref") {
            Ok(OpenShortcut::ApiRef)
        } else if str_equal(s, "cli-ref") {
            Ok(OpenShortcut::CliRef)
        } else if str_equal(s, "console") {
            Ok(OpenShortcut::Console)
        } else {
            Err(concat2("Invalid value for [shortcut]: ", s))
        }
    }
}

/// Shortcut to open the Oxide documentation or Console in your browser.
pub struct CmdOpen {
    pub shortcut: OpenShortcut,
}

/// The address of the console for the default host: the host, with `https://` in
/// front unless it already starts with `http`.
pub open spec fn console_url(host: Seq<char>) -> Seq<char> {
    if has_prefix(host, "http"@) {
        host
    } else {
        "https://"@ + host
    }
}

impl CmdOpen {
    /// The address that the command opens in the browser.
    pub fn target_url<C: Config>(&self, config: &C) -> (r: Result<String, ConfigError>)
        requires
            config.valid(),
        ensures
            self.shortcut != OpenShortcut::Console ==> (r matches Ok(u) && u@ == shortcut_url(self.shortcut)),
            self.shortcut == OpenShortcut::Console ==> match config.spec_default_host() {
                Ok(h) => (r matches Ok(u) && u@ == console_url(h)),
                Err(e) => (r matches Err(x) && x@ == e),
            },
    {
        if self.shortcut != OpenShortcut::Console {
            return Ok(self.shortcut.to_string());
        }
        let host = config.default_host()?;
        if !starts_with(host.as_str(), "http") {
            return Ok(concat2("https://", host.as_str()));
        }
        Ok(host)
    }
}

/// The address of the release notes of `version`.
pub fn changelog_url(version: &str) -> (r: String)
    ensures
        r@ == "https://github.com/oxidecomputer/cli/releases/tag/v"@ + version@,
{
    concat2("https://github.com/oxidecomputer/cli/releases/tag/v", version)
}

} // verus!
