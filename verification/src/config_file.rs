//! Where the configuration, state and data files live.
use vstd::prelude::*;

use crate::env::EnvVars;
use crate::text::owned;

verus! {

/// `Path::new(base).join(name)` as text; `None` when the result is not valid UTF-8.
pub uninterp spec fn path_joined(base: Seq<char>, name: Seq<char>) -> Option<Seq<char>>;

/// `std::path::Path::join`, converted back to text with `Path::to_str`.
#[verifier::external_body]
fn path_join(base: &str, name: &str) -> (r: Option<String>)
    ensures
        match r {
            Some(p) => path_joined(base@, name@) == Some(p@),
            None => path_joined(base@, name@) is None,
        },
{
    std::path::Path::new(base).join(name).to_str().map(|s| s.to_string())
}

/// What the platform tells about where files go: the environment, whether it is
/// Windows, and the home directory if one is known.
pub struct Platform {
    pub env: EnvVars,
    pub is_windows: bool,
    pub home_dir: Option<String>,
}

/// Failures to find a directory.
#[derive(Debug)]
pub enum PathError {
    /// "could not find home directory"
    NoHome,
    /// "path is not a valid UTF-8 sequence"
    NotUtf8,
}

/// The model of a path that was built: the path, or the failure.
pub enum PathResult {
    Path(Seq<char>),
    NoHome,
    NotUtf8,
}

pub open spec fn joined(base: Seq<char>, name: Seq<char>) -> PathResult {
    match path_joined(base, name) {
        Some(p) => PathResult::Path(p),
        None => PathResult::NotUtf8,
    }
}

pub open spec fn joined2(base: Seq<char>, a: Seq<char>, b: Seq<char>) -> PathResult {
    match path_joined(base, a) {
        Some(p) => joined(p, b),
        None => PathResult::NotUtf8,
    }
}

pub open spec fn joined3(base: Seq<char>, a: Seq<char>, b: Seq<char>, c: Seq<char>) -> PathResult {
    match path_joined(base, a) {
        Some(p) => joined2(p, b, c),
        None => PathResult::NotUtf8,
    }
}

pub open spec fn path_result(r: Result<String, PathError>) -> PathResult {
    match r {
        Ok(p) => PathResult::Path(p@),
        Err(PathError::NoHome) => PathResult::NoHome,
        Err(PathError::NotUtf8) => PathResult::NotUtf8,
    }
}

/// The configuration directory: `OXIDE_CONFIG_DIR`, else `$XDG_CONFIG_HOME/oxide`,
/// else (on Windows) `%AppData%/Oxide CLI`, else `~/.config/oxide`.
pub open spec fn spec_config_dir(p: Platform) -> PathResult {
    let oxide = p.env.value("OXIDE_CONFIG_DIR"@);
    let xdg = p.env.value("XDG_CONFIG_HOME"@);
    let app_data = p.env.value("AppData"@);
    if oxide.len() > 0 {
        PathResult::Path(oxide)
    } else if xdg.len() > 0 {
        joined(xdg, "oxide"@)
    } else if app_data.len() > 0 && p.is_windows {
        joined(app_data, "Oxide CLI"@)
    } else {
        match p.home_dir {
            Some(h) => joined2(h@, ".config"@, "oxide"@),
            None => PathResult::NoHome,
        }
    }
}

/// The directory of `base` under the XDG variable `xdg_var`, else (on Windows) under
/// `LocalAppData`, else `~/.local/<local>/oxide`.
pub open spec fn spec_local_dir(p: Platform, xdg_var: Seq<char>, local: Seq<char>) -> PathResult {
    let xdg = p.env.value(xdg_var);
    let local_app_data = p.env.value("LocalAppData"@);
    if xdg.len() > 0 {
        joined(xdg, "oxide"@)
    } else if local_app_data.len() > 0 && p.is_windows {
        joined(local_app_data, "Oxide CLI"@)
    } else {
        match p.home_dir {
            Some(h) => joined3(h@, ".local"@, local, "oxide"@),
            None => PathResult::NoHome,
        }
    }
}

fn join_or(base: &str, name: &str) -> (r: Result<String, PathError>)
    ensures
        path_result(r) == joined(base@, name@),
{
    match path_join(base, name) {
        Some(p) => Ok(p),
        None => Err(PathError::NotUtf8),
    }
}

fn join_home(home: &Option<String>, parts: &Vec<&str>) -> (r: Result<String, PathError>)
    requires
        parts@.len() == 2 || parts@.len() == 3,
    ensures
        path_result(r) == match home {
            None => PathResult::NoHome,
            Some(h) => if parts@.len() == 2 {
                joined2(h@, parts@[0]@, parts@[1]@)
            } else {
                joined3(h@, parts@[0]@, parts@[1]@, parts@[2]@)
            },
        },
{
    match home {
        None => Err(PathError::NoHome),
        Some(h) => {
            let p = match path_join(h.as_str(), parts[0]) {
                Some(p) => p,
                None => return Err(PathError::NotUtf8),
            };
            if parts.len() == 2 {
                join_or(p.as_str(), parts[1])
            } else {
                let q = match path_join(p.as_str(), parts[1]) {
                    Some(q) => q,
                    None => return Err(PathError::NotUtf8),
                };
                join_or(q.as_str(), parts[2])
            }
        },
    }
}

/// The directory of the configuration files.
pub fn config_dir(p: &Platform) -> (r: Result<String, PathError>)
    ensures
        path_result(r) == spec_config_dir(*p),
{
    let oxide_config_dir = p.env.get_env_var("OXIDE_CONFIG_DIR");
    let xdg_config_home = p.env.get_env_var("XDG_CONFIG_HOME");
    let app_data = p.env.get_env_var("AppData");
    if oxide_config_dir.unicode_len() > 0 {
        Ok(oxide_config_dir)
    } else if xdg_config_home.unicode_len() > 0 {
        join_or(xdg_config_home.as_str(), "oxide")
    } else if app_data.unicode_len() > 0 && p.is_windows {
        join_or(app_data.as_str(), "Oxide CLI")
    } else {
        join_home(&p.home_dir, &vec![".config", "oxide"])
    }
}

fn local_dir(p: &Platform, xdg_var: &str, local: &str) -> (r: Result<String, PathError>)
    ensures
        path_result(r) == spec_local_dir(*p, xdg_var@, local@),
{
    let xdg = p.env.get_env_var(xdg_var);
    let local_app_data = p.env.get_env_var("LocalAppData");
    if xdg.unicode_len() > 0 {
        join_or(xdg.as_str(), "oxide")
    } else if local_app_data.unicode_len() > 0 && p.is_windows {
        join_or(local_app_data.as_str(), "Oxide CLI")
    } else {
        join_home(&p.home_dir, &vec![".local", local, "oxide"])
    }
}

/// The directory of the state files: `$XDG_STATE_HOME/oxide`, else (on Windows)
/// `%LocalAppData%/Oxide CLI`, else `~/.local/state/oxide`.
pub fn state_dir(p: &Platform) -> (r: Result<String, PathError>)
    ensures
        path_result(r) == spec_local_dir(*p, "XDG_STATE_HOME"@, "state"@),
{
    local_dir(p, "XDG_STATE_HOME", "state")
}

/// The directory of the data files: `$XDG_DATA_HOME/oxide`, else (on Windows)
/// `%LocalAppData%/Oxide CLI`, else `~/.local/share/oxide`.
pub fn data_dir(p: &Platform) -> (r: Result<String, PathError>)
    ensures
        path_result(r) == spec_local_dir(*p, "XDG_DATA_HOME"@, "share"@),
{
    local_dir(p, "XDG_DATA_HOME", "share")
}

fn file_in(dir: Result<String, PathError>, name: &str) -> (r: Result<String, PathError>)
    ensures
        path_result(r) == match path_result(dir) {
            PathResult::Path(d) => joined(d, name@),
            other => other,
        },
{
    match dir {
        Ok(d) => join_or(d.as_str(), name),
        Err(e) => Err(e),
    }
}

/// The config file: `config.toml` in the configuration directory.
pub fn config_file(p: &Platform) -> (r: Result<String, PathError>)
    ensures
        path_result(r) == match spec_config_dir(*p) {
            PathResult::Path(d) => joined(d, "config.toml"@),
            other => other,
        },
{
    file_in(config_dir(p), "config.toml")
}

/// The hosts file: `hosts.toml` in the configuration directory.
pub fn hosts_file(p: &Platform) -> (r: Result<String, PathError>)
    ensures
        path_result(r) == match spec_config_dir(*p) {
            PathResult::Path(d) => joined(d, "hosts.toml"@),
            other => other,
        },
{
    file_in(config_dir(p), "hosts.toml")
}

/// The state file: `state.toml` in the state directory.
pub fn state_file(p: &Platform) -> (r: Result<String, PathError>)
    ensures
        path_result(r) == match spec_local_dir(*p, "XDG_STATE_HOME"@, "state"@) {
            PathResult::Path(d) => joined(d, "state.toml"@),
            other => other,
        },
{
    file_in(state_dir(p), "state.toml")
}

impl PathError {
    pub fn to_string(&self) -> (r: String)
        ensures
            r@ == match self {
                PathError::NoHome => "could not find home directory"@,
                PathError::NotUtf8 => "path is not a valid UTF-8 sequence"@,
            },
    {
        match self {
            PathError::NoHome => owned("could not find home directory"),
            PathError::NotUtf8 => owned("path is not a valid UTF-8 sequence"),
        }
    }
}

} // verus!
