//! Checking for new releases of the command line.
use vstd::prelude::*;

use crate::colors::{AnsiStyle, ColorScheme};
use crate::env::EnvVars;
use crate::text::{owned, str_equal};

verus! {

/// The outcome of comparing two version numbers, as `version_compare::Cmp` states it.
#[derive(Debug, Clone, Copy, PartialEq, Eq, Structural)]
pub enum VersionCmp {
    Eq,
    Ne,
    Lt,
    Le,
    Ge,
    Gt,
}

/// `version_compare::compare(a, b)`: how `a` compares to `b`; `None` when either is
/// not a version number.
pub uninterp spec fn version_cmp(a: Seq<char>, b: Seq<char>) -> Option<VersionCmp>;

/// `version_compare::compare`.
#[verifier::external_body]
fn compare_versions(a: &str, b: &str) -> (r: Option<VersionCmp>)
    ensures
        r == version_cmp(a@, b@),
{
    match version_compare::compare(a, b) {
        Ok(version_compare::Cmp::Eq) => Some(VersionCmp::Eq),
        Ok(version_compare::Cmp::Ne) => Some(VersionCmp::Ne),
        Ok(version_compare::Cmp::Lt) => Some(VersionCmp::Lt),
        Ok(version_compare::Cmp::Le) => Some(VersionCmp::Le),
        Ok(version_compare::Cmp::Ge) => Some(VersionCmp::Ge),
        Ok(version_compare::Cmp::Gt) => Some(VersionCmp::Gt),
        Err(_) => None,
    }
}

/// Two version numbers that cannot be compared.
#[derive(Debug)]
pub struct VersionCompareError {
    pub v: String,
    pub w: String,
}

impl VersionCompareError {
    /// "failed to compare versions: V W".
    pub fn to_string(&self) -> (r: String)
        ensures
            r@ == "failed to compare versions: "@ + self.v@ + " "@ + self.w@,
    {
        let mut r = owned("failed to compare versions: ");
        r.append(self.v.as_str());
        r.append(" ");
        r.append(self.w.as_str());
        r
    }
}

/// Whether version `v` is greater than version `w`.
pub fn version_greater_then(v: &str, w: &str) -> (r: Result<bool, VersionCompareError>)
    ensures
        match version_cmp(v@, w@) {
            Some(c) => r == Ok::<bool, VersionCompareError>(c == VersionCmp::Gt),
            None => r matches Err(e) && e.v@ == v@ && e.w@ == w@,
        },
{
    match compare_versions(v, w) {
        Some(c) => Ok(c == VersionCmp::Gt),
        None => Err(VersionCompareError { v: owned(v), w: owned(w) }),
    }
}

/// The environment names a continuous-integration run.
pub open spec fn ci_env(env: EnvVars) -> bool {
    env.value("CI"@).len() > 0 || env.value("BUILD_NUMBER"@).len() > 0 || env.value("RUN_ID"@).len() > 0
}

/// Whether we are running in a continuous-integration environment (GitHub Actions,
/// Travis, CircleCI, Jenkins, TeamCity, TaskCluster and the like).
pub fn is_ci(env: &EnvVars) -> (r: bool)
    ensures
        r == ci_env(*env),
{
    env.get_env_var("CI").unicode_len() > 0 || env.get_env_var("BUILD_NUMBER").unicode_len() > 0
        || env.get_env_var("RUN_ID").unicode_len() > 0
}

/// Whether to look for a new release: not when `OXIDE_NO_UPDATE_NOTIFIER` is set,
/// not in CI, and only when both standard output and standard error are terminals.
pub fn should_check_for_update(env: &EnvVars, stdout_is_tty: bool, stderr_is_tty: bool) -> (r: bool)
    ensures
        r == (env.value("OXIDE_NO_UPDATE_NOTIFIER"@).len() == 0 && !ci_env(*env) && stdout_is_tty && stderr_is_tty),
{
    if env.get_env_var("OXIDE_NO_UPDATE_NOTIFIER").unicode_len() > 0 {
        return false;
    }
    !is_ci(env) && stdout_is_tty && stderr_is_tty
}

/// The number of seconds in a day.
pub const SECONDS_PER_DAY: i64 = 86400;

/// Whether to ask for the latest release now (times in seconds since the epoch):
/// when checking is wanted and the last check, if any, is a day old or older.
pub fn should_fetch_latest(should_check: bool, last_checked_at: Option<i64>, now: i64) -> (r: bool)
    ensures
        r == (should_check && match last_checked_at {
            Some(t) => now - t >= SECONDS_PER_DAY,
            None => true,
        }),
{
    if !should_check {
        return false;
    }
    match last_checked_at {
        Some(t) => (now as i128) - (t as i128) >= SECONDS_PER_DAY as i128,
        None => true,
    }
}

/// A release of the command line.
pub struct ReleaseInfo {
    pub version: String,
    pub url: String,
    /// Seconds since the epoch.
    pub published_at: i64,
}

/// The latest release when it is newer than `current_version`.
pub fn newer_release(latest: ReleaseInfo, current_version: &str) -> (r: Result<Option<ReleaseInfo>, VersionCompareError>)
    ensures
        match version_cmp(latest.version@, current_version@) {
            Some(c) => r matches Ok(o) && (if c == VersionCmp::Gt { o == Some(latest) } else { o is None }),
            None => r is Err,
        },
{
    if version_greater_then(latest.version.as_str(), current_version)? {
        return Ok(Some(latest));
    }
    Ok(None)
}

/// Whether a release published at `published_at` came out less than a day before `now`.
pub fn is_recent_release(published_at: i64, now: i64) -> (r: bool)
    ensures
        r == (now - published_at < SECONDS_PER_DAY),
{
    (now as i128) - (published_at as i128) < SECONDS_PER_DAY as i128
}

/// The notice printed (on standard error) about a new release, if any: none for a
/// Homebrew install of a release less than a day old.
pub fn handle_update(
    cs: &ColorScheme,
    update: Option<&ReleaseInfo>,
    build_version: &str,
    is_homebrew: bool,
    now: i64,
) -> (r: Option<String>)
    ensures
        match update {
            None => r is None,
            Some(latest) => if is_homebrew && now - latest.published_at < SECONDS_PER_DAY {
                r is None
            } else {
                r matches Some(text) && text@ == "\n\n"@ + cs.styled(AnsiStyle::Yellow, "A new release of oxide is available:"@)
                    + " "@ + cs.styled(AnsiStyle::Cyan, build_version@) + " → "@ + cs.styled(
                    AnsiStyle::Purple,
                    latest.version@,
                ) + "\n\n"@ + (if is_homebrew {
                    "To upgrade, run: `brew update && brew upgrade oxide`\n"@
                } else {
                    "To upgrade, run: `oxide update`\n"@
                }) + cs.styled(AnsiStyle::Yellow, latest.url@) + "\n\n\n"@
            },
        },
{
    match update {
        None => None,
        Some(latest) => {
            if is_homebrew && is_recent_release(latest.published_at, now) {
                return None;
            }
            let mut text = owned("\n\n");
            text.append(cs.yellow("A new release of oxide is available:").as_str());
            text.append(" ");
            text.append(cs.cyan(build_version).as_str());
            text.append(" → ");
            text.append(cs.purple(latest.version.as_str()).as_str());
            text.append("\n\n");
            if is_homebrew {
                text.append("To upgrade, run: `brew update && brew upgrade oxide`\n");
            } else {
                text.append("To upgrade, run: `oxide update`\n");
            }
            text.append(cs.yellow(latest.url.as_str()).as_str());
            text.append("\n\n\n");
            Some(text)
        },
    }
}

} // verus!
