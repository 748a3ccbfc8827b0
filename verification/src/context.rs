//! The context of a command: its configuration and its terminal settings.
use vstd::prelude::*;

use crate::config::Config;
use crate::config_from_file::ConfigSource;
use crate::env::{EnvVars, env_has};
use crate::error::{ConfigErr, ConfigError};
use crate::iostreams::TerminalState;
use crate::text::{concat2, has_prefix, owned, starts_with, str_equal};
use crate::types::{FormatOutput, format_name};

verus! {

/// The format named by a configured value; tables when it names none.
pub open spec fn format_from_text(v: Seq<char>) -> FormatOutput {
    if v == "json"@ {
        FormatOutput::Json
    } else if v == "yaml"@ {
        FormatOutput::Yaml
    } else {
        FormatOutput::Table
    }
}

/// The base address of the API of `host`: the host itself when it names a scheme,
/// else `http://` for `localhost...` and `https://` for others.
pub open spec fn base_url(host: Seq<char>) -> Seq<char> {
    if has_prefix(host, "http://"@) || has_prefix(host, "https://"@) {
        host
    } else if has_prefix(host, "localhost"@) {
        "http://"@ + host
    } else {
        "https://"@ + host
    }
}

/// A host that names no scheme and does not start with `localhost` is reached over
/// `https://`: its base address is `https://` followed by the host, unchanged.
pub proof fn law_remote_host_uses_https(host: Seq<char>)
    requires
        !has_prefix(host, "http://"@),
        !has_prefix(host, "https://"@),
        !has_prefix(host, "localhost"@),
    ensures
        base_url(host) == "https://"@ + host,
        !has_prefix(base_url(host), "http://"@),
{
    reveal_strlit("http://");
    reveal_strlit("https://");
    let u = base_url(host);
    assert(u[4] == 's');
    assert("http://"@[4] == ':');
    assert(u.take(7)[4] == u[4]);
}

/// Plain `http://` is chosen only by the host itself: every base address starts with
/// `http://` or `https://`, and one that starts with `http://` belongs to a host that
/// starts with `http://` or `localhost`. A host that names its scheme is used as it
/// is, and a `localhost...` host without one gets `http://` in front.
pub proof fn law_plain_http_only_when_asked(host: Seq<char>)
    ensures
        has_prefix(host, "http://"@) || has_prefix(host, "https://"@) ==> base_url(host) == host,
        !has_prefix(host, "http://"@) && !has_prefix(host, "https://"@) && has_prefix(host, "localhost"@) ==> base_url(host)
            == "http://"@ + host,
        has_prefix(base_url(host), "http://"@) || has_prefix(base_url(host), "https://"@),
        has_prefix(base_url(host), "http://"@) ==> has_prefix(host, "http://"@) || has_prefix(host, "localhost"@),
{
    reveal_strlit("http://");
    reveal_strlit("https://");
    if has_prefix(host, "http://"@) || has_prefix(host, "https://"@) {
    } else if has_prefix(host, "localhost"@) {
        assert(("http://"@ + host).take(7) =~= "http://"@);
    } else {
        assert(("https://"@ + host).take(8) =~= "https://"@);
        law_remote_host_uses_https(host);
    }
}

/// Where the browser command comes from.
pub enum BrowserSource {
    /// The environment variable of that name.
    EnvVar(String),
    /// The configuration.
    Config,
}

/// The context of a command.
pub struct Context<C: Config> {
    pub config: C,
    pub io: TerminalState,
    pub debug: bool,
}

impl<C: Config> Context<C> {
    /// The context of a process: the terminal settings of `io`, with prompting off
    /// when the configuration disables it, the pager from `OXIDE_PAGER` (when set) or
    /// else the configured pager (when not empty), and terminal output forced when
    /// `OXIDE_FORCE_TTY` is set to something. Also returns the percentage that
    /// `OXIDE_FORCE_TTY` asks to apply to the measured width, if any.
    pub fn new(config: C, io: TerminalState, env: &EnvVars, measured_width: Option<i32>) -> (r: (Context<C>, Option<String>))
        requires
            config.valid(),
            config.spec_get(""@, "prompt"@) is Ok,
        ensures
            r.0.config == config,
            !r.0.debug,
            r.0.io.never_prompt == (io.never_prompt || config.spec_get(""@, "prompt"@) == Ok::<Seq<char>, ConfigErr>(
                "disabled"@,
            )),
            r.0.io.pager_command@ == if env_has(env.vars@, "OXIDE_PAGER"@) {
                env.value("OXIDE_PAGER"@)
            } else {
                match config.spec_get(""@, "pager"@) {
                    Ok(p) => if p.len() > 0 {
                        p
                    } else {
                        io.pager_command@
                    },
                    Err(_) => io.pager_command@,
                }
            },
            env.value("OXIDE_FORCE_TTY"@).len() == 0 ==> r.0.io.terminal_width_override == io.terminal_width_override
                && r.1 is None,
    {
        let mut io = io;
        let prompt = match config.get("", "prompt") {
            Ok(p) => p,
            Err(_) => String::new(),
        };
        if str_equal(prompt.as_str(), "disabled") {
            io.set_never_prompt(true);
        }
        if env.is_set("OXIDE_PAGER") {
            io.set_pager(env.get_env_var("OXIDE_PAGER"));
        } else if let Ok(pager) = config.get("", "pager") {
            if pager.unicode_len() > 0 {
                io.set_pager(pager);
            }
        }
        let force = env.get_env_var("OXIDE_FORCE_TTY");
        let mut percent: Option<String> = None;
        if force.unicode_len() > 0 {
            percent = io.force_terminal(force.as_str(), env, measured_width);
        }
        (Context { config, io, debug: false }, percent)
    }

    /// The output format: the one asked for, else the configured `format` (tables
    /// when it names no format).
    pub fn format(&self, wanted: &Option<FormatOutput>) -> (r: Result<FormatOutput, ConfigError>)
        requires
            self.config.valid(),
        ensures
            match *wanted {
                Some(f) => (r matches Ok(x) && x == f),
                None => match self.config.spec_get(""@, "format"@) {
                    Ok(v) => (r matches Ok(x) && x == format_from_text(v)),
                    Err(e) => r matches Err(x) && x@ == e,
                },
            },
    {
        match *wanted {
            Some(f) => {
                return Ok(f);
            },
            None => {},
        }
        let value = match self.config.get("", "format") {
            Ok(v) => v,
            Err(e) => {
                return Err(e);
            },
        };
        proof {
            reveal_strlit("json");
            reveal_strlit("yaml");
            reveal_strlit("table");
        }
        match FormatOutput::from_str(value.as_str()) {
            Ok(f) => {
                assert(format_name(f) == value@);
                assert("yaml"@ != "json"@) by {
                    assert("yaml"@[0] != "json"@[0]);
                }
                assert("table"@ != "json"@) by {
                    assert("table"@[0] != "json"@[0]);
                }
                assert("table"@ != "yaml"@) by {
                    assert("table"@[0] != "yaml"@[0]);
                }
                assert(format_from_text(value@) == f);
                Ok(f)
            },
            Err(_) => {
                assert(format_name(FormatOutput::Json) != value@);
                assert(format_name(FormatOutput::Yaml) != value@);
                Ok(FormatOutput::Table)
            },
        }
    }

    /// The API address and token for `hostname` (the default host when empty).
    pub fn api_endpoint(&self, hostname: &str) -> (r: Result<(String, String), ConfigError>)
        requires
            self.config.valid(),
        ensures
            ({
                let host = if hostname@.len() == 0 { self.config.spec_default_host() } else { Ok::<Seq<char>, ConfigErr>(hostname@) };
                match host {
                    Err(e) => r matches Err(x) && x@ == e,
                    Ok(h) => match self.config.spec_get(h, "token"@) {
                        Err(e) => r matches Err(x) && x@ == e,
                        Ok(t) => r matches Ok((u, tok)) && u@ == base_url(h) && tok@ == t,
                    },
                }
            }),
    {
        let host = if hostname.unicode_len() == 0 {
            self.config.default_host()?
        } else {
            owned(hostname)
        };
        let baseurl = if !starts_with(host.as_str(), "http://") && !starts_with(host.as_str(), "https://") {
            if starts_with(host.as_str(), "localhost") {
                concat2("http://", host.as_str())
            } else {
                concat2("https://", host.as_str())
            }
        } else {
            owned(host.as_str())
        };
        let token = self.config.get(host.as_str(), "token")?;
        Ok((baseurl, token))
    }

    /// The browser to open addresses with, and where it comes from: `OXIDE_BROWSER`,
    /// else `BROWSER`, else the configured `browser` (empty: the system's default).
    pub fn browser(&self, env: &EnvVars, hostname: &str) -> (r: Result<(String, BrowserSource), ConfigError>)
        requires
            self.config.valid(),
        ensures
            if env.value("OXIDE_BROWSER"@).len() > 0 {
                r matches Ok((b, BrowserSource::EnvVar(n))) && b@ == env.value("OXIDE_BROWSER"@) && n@ == "OXIDE_BROWSER"@
            } else if env.value("BROWSER"@).len() > 0 {
                r matches Ok((b, BrowserSource::EnvVar(n))) && b@ == env.value("BROWSER"@) && n@ == "BROWSER"@
            } else {
                match self.config.spec_get(hostname@, "browser"@) {
                    Ok(v) => r matches Ok((b, BrowserSource::Config)) && b@ == v,
                    Err(e) => r matches Err(x) && x@ == e,
                }
            },
    {
        let oxide_browser = env.get_env_var("OXIDE_BROWSER");
        if oxide_browser.unicode_len() > 0 {
            return Ok((oxide_browser, BrowserSource::EnvVar(owned("OXIDE_BROWSER"))));
        }
        let browser = env.get_env_var("BROWSER");
        if browser.unicode_len() > 0 {
            return Ok((browser, BrowserSource::EnvVar(owned("BROWSER"))));
        }
        let b = self.config.get(hostname, "browser")?;
        Ok((b, BrowserSource::Config))
    }
}

} // verus!
