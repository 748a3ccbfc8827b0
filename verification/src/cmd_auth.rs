//! `oxide auth login|logout|status`. Logging in and out alternate questions to the
//! user with decisions; the decisions are the steps below, and the caller asks the
//! questions and hands the answers to the next step.
use vstd::prelude::*;

use crate::colors::{AnsiStyle, ColorScheme};
use crate::config::{Config, hosts_after_unset, set_keeps_others, strings_view, unset_leaves};
use crate::context::Context;
use crate::error::{ConfigErr, ConfigError, ReadOnlyEnvVarError, config_err_message};
use crate::text::{concat2, concat3, owned, str_equal, strip_all_prefix, trim_start_matches};

verus! {

/// `host` without a leading `https://` and then `http://`.
pub open spec fn clean_host(host: Seq<char>) -> Seq<char> {
    strip_all_prefix(strip_all_prefix(host, "https://"@), "http://"@)
}

/// A hostname as given, without its scheme.
pub fn clean_hostname(host: &str) -> (r: String)
    ensures
        r@ == clean_host(host@),
{
    proof {
        reveal_strlit("https://");
        reveal_strlit("http://");
    }
    let h = trim_start_matches(host, "https://");
    trim_start_matches(h.as_str(), "http://")
}

/// The lines printed when an environment variable provides the token.
pub open spec fn env_token_lines(var: Seq<char>, advice: Seq<char>) -> Seq<Seq<char>> {
    seq!["The value of the "@ + var + " environment variable is being used for authentication."@, advice]
}

/// What a refused check for writing the token makes the command do: an
/// environment variable that provides the token is explained on standard error and
/// the command fails with an empty message; other errors are the failure.
pub open spec fn refused_write(r: Seq<Seq<char>>, msg: Seq<char>, e: ConfigErr, advice: Seq<char>) -> bool {
    match e {
        ConfigErr::ReadOnly(var) => r == env_token_lines(var, advice) && msg.len() == 0,
        _ => r.len() == 0 && (!(e is Parse) ==> msg == config_err_message(e)),
    }
}

/// The views of a list of lines.
pub open spec fn lines_view(v: Seq<String>) -> Seq<Seq<char>> {
    v.map_values(|s: String| s@)
}

fn refused_write_step(e: ConfigError, advice: &str) -> (r: (Vec<String>, String))
    ensures
        refused_write(lines_view(r.0@), r.1@, e@, advice@),
{
    match e {
        ConfigError::ReadOnly(ReadOnlyEnvVarError::Variable(var)) => {
            let mut lines: Vec<String> = Vec::new();
            lines.push(concat3("The value of the ", var.as_str(), " environment variable is being used for authentication."));
            lines.push(owned(advice));
            proof {
                assert(lines_view(lines@) =~= env_token_lines(var@, advice@));
                reveal_strlit("");
            }
            (lines, owned(""))
        },
        _ => {
            let lines: Vec<String> = Vec::new();
            proof {
                assert(lines_view(lines@) =~= Seq::<Seq<char>>::empty());
            }
            (lines, e.to_string())
        },
    }
}

/// Authenticate with an Oxide host.
pub struct CmdAuthLogin {
    /// Read token from standard input.
    pub with_token: bool,
    /// The hostname of the Oxide instance to authenticate with.
    pub host: String,
}

/// What logging in does next.
pub enum LoginStep {
    /// Read the token from standard input and hand it to `with_token`.
    ReadToken,
    /// Ask "Oxide instance hostname:" and hand the answer to `with_host`.
    PromptHost,
    /// Ask this yes/no question and hand the answer to `after_confirm`.
    Confirm(String),
    /// Print this tip on standard error, ask "Paste your authentication token:" and
    /// hand the answer to `with_new_token`.
    PromptToken(String),
    /// The token of this host is stored: fetch the session of the host and hand the
    /// user's email to `logged_in`.
    FetchUser(String),
    /// Finished: write the configuration, then print this line on standard output.
    LoggedIn(String),
    /// Finished; `true` when the configuration must be written.
    Done(bool),
    /// Print these lines on standard error and fail with the message.
    Fail(Vec<String>, String),
}

/// The question asked before logging in again to `host`.
pub open spec fn reauth_question(host: Seq<char>) -> Seq<char> {
    "You're already logged into "@ + host + ". Do you want to re-authenticate?"@
}

/// The tip printed before asking for a token for `host`.
pub open spec fn token_tip(host: Seq<char>) -> Seq<char> {
    "Tip: you can generate an API Token here https://"@ + host + "/account"@
}

/// The advice printed when the token comes from the environment, at login.
pub open spec fn login_advice() -> Seq<char> {
    "To have Oxide CLI store credentials instead, first clear the value from the environment."@
}

/// The value of the token after setting it to `token`.
pub open spec fn token_after_set<C: Config>(c: C, token: Seq<char>) -> Seq<char> {
    if c.spec_override("token"@).len() > 0 {
        c.spec_override("token"@)
    } else {
        token
    }
}

/// The step of logging in to `host` once the token (possibly empty) is known:
/// a given token is stored; else a token already stored makes an interactive login
/// ask before going on, and the token is asked for.
pub open spec fn login_host_step<C: Config>(
    c: C,
    c2: C,
    host: Seq<char>,
    token: Seq<char>,
    interactive: bool,
    r: LoginStep,
) -> bool {
    match c.spec_check_writable(host, "token"@) {
        Err(e) => c2 == c && (r matches LoginStep::Fail(lines, msg) && refused_write(
            lines_view(lines@),
            msg@,
            e,
            login_advice(),
        )),
        Ok(_) => if token.len() > 0 {
            match c.spec_set(host, "token"@, token) {
                Ok(_) => (r matches LoginStep::FetchUser(h) && h@ == host) && set_keeps_others(c, c2, host, "token"@)
                    && c2.spec_get(host, "token"@) == Ok::<Seq<char>, ConfigErr>(
                    token_after_set(c, token),
                ),
                Err(e) => r matches LoginStep::Fail(lines, msg) && lines@.len() == 0 && (!(e is Parse) ==> msg@
                    == config_err_message(e)),
            }
        } else {
            &&& c2 == c
            &&& match c.spec_get(host, "token"@) {
                Err(e) => r matches LoginStep::Fail(lines, msg) && lines@.len() == 0 && (!(e is Parse) ==> msg@
                    == config_err_message(e)),
                Ok(v) => if v.len() > 0 && interactive {
                    r matches LoginStep::Confirm(q) && q@ == reauth_question(host)
                } else {
                    r matches LoginStep::PromptToken(t) && t@ == token_tip(host)
                },
            }
        },
    }
}

impl CmdAuthLogin {
    /// The first step: without a prompt the token must come from standard input;
    /// with `--with-token` it is read first.
    pub fn begin<C: Config>(&self, config: &mut C, can_prompt: bool) -> (r: LoginStep)
        requires
            old(config).valid(),
        ensures
            final(config).valid(),
            if !can_prompt && !self.with_token {
                *final(config) == *old(config) && (r matches LoginStep::Fail(lines, msg) && lines@.len() == 0 && msg@
                    == "--with-token required when not running interactively"@)
            } else if self.with_token {
                *final(config) == *old(config) && r == LoginStep::ReadToken
            } else {
                self.token_step(*old(config), *final(config), can_prompt, Seq::empty(), r)
            },
    {
        if !can_prompt && !self.with_token {
            return LoginStep::Fail(Vec::new(), owned("--with-token required when not running interactively"));
        }
        if self.with_token {
            return LoginStep::ReadToken;
        }
        proof {
            reveal_strlit("");
        }
        self.with_token(config, can_prompt, "")
    }

    /// What happens once the token (possibly empty) is known.
    pub open spec fn token_step<C: Config>(&self, c: C, c2: C, can_prompt: bool, token: Seq<char>, r: LoginStep) -> bool {
        let interactive = can_prompt && token.len() == 0;
        let host = clean_host(self.host@);
        if host.len() == 0 {
            c2 == c && (if interactive {
                r == LoginStep::PromptHost
            } else {
                r matches LoginStep::Fail(lines, msg) && lines@.len() == 0 && msg@
                    == "--host required when not running interactively"@
            })
        } else {
            login_host_step(c, c2, host, token, interactive, r)
        }
    }

    /// The step after the token was read (empty when none was).
    pub fn with_token<C: Config>(&self, config: &mut C, can_prompt: bool, token: &str) -> (r: LoginStep)
        requires
            old(config).valid(),
        ensures
            final(config).valid(),
            self.token_step(*old(config), *final(config), can_prompt, token@, r),
    {
        let interactive = can_prompt && token.unicode_len() == 0;
        let host = clean_hostname(self.host.as_str());
        if host.unicode_len() == 0 {
            if interactive {
                return LoginStep::PromptHost;
            }
            return LoginStep::Fail(Vec::new(), owned("--host required when not running interactively"));
        }
        login_with_host(config, host.as_str(), token, interactive)
    }

    /// The step after the user named the host (the login was interactive, without
    /// a token).
    pub fn with_host<C: Config>(&self, config: &mut C, input: &str) -> (r: LoginStep)
        requires
            old(config).valid(),
        ensures
            final(config).valid(),
            login_host_step(*old(config), *final(config), clean_host(input@), Seq::empty(), true, r),
    {
        let host = clean_hostname(input);
        proof {
            reveal_strlit("");
        }
        login_with_host(config, host.as_str(), "", true)
    }
}

/// Logging in to `host` with `token` (empty when none was given).
fn login_with_host<C: Config>(config: &mut C, host: &str, token: &str, interactive: bool) -> (r: LoginStep)
    requires
        old(config).valid(),
    ensures
        final(config).valid(),
        login_host_step(*old(config), *final(config), host@, token@, interactive, r),
{
    match config.check_writable(host, "token") {
        Err(e) => {
            let (lines, msg) = refused_write_step(
                e,
                "To have Oxide CLI store credentials instead, first clear the value from the environment.",
            );
            return LoginStep::Fail(lines, msg);
        },
        Ok(()) => {},
    }
    if token.unicode_len() > 0 {
        return match config.set(host, "token", token) {
            Ok(()) => LoginStep::FetchUser(owned(host)),
            Err(e) => LoginStep::Fail(Vec::new(), e.to_string()),
        };
    }
    match config.get(host, "token") {
        Err(e) => LoginStep::Fail(Vec::new(), e.to_string()),
        Ok(existing) => {
            if existing.unicode_len() > 0 && interactive {
                let q = concat3("You're already logged into ", host, ". Do you want to re-authenticate?");
                LoginStep::Confirm(q)
            } else {
                LoginStep::PromptToken(concat3("Tip: you can generate an API Token here https://", host, "/account"))
            }
        },
    }
}

impl CmdAuthLogin {
    /// The step after the question whether to log in again to `host`.
    pub fn after_confirm(&self, host: &str, yes: bool) -> (r: LoginStep)
        ensures
            if yes {
                r matches LoginStep::PromptToken(t) && t@ == token_tip(host@)
            } else {
                r == LoginStep::Done(false)
            },
    {
        if yes {
            LoginStep::PromptToken(concat3("Tip: you can generate an API Token here https://", host, "/account"))
        } else {
            LoginStep::Done(false)
        }
    }

    /// The step after the user pasted a token for `host`: it is stored.
    pub fn with_new_token<C: Config>(&self, config: &mut C, host: &str, token: &str) -> (r: LoginStep)
        requires
            old(config).valid(),
        ensures
            final(config).valid(),
            match old(config).spec_set(host@, "token"@, token@) {
                Ok(_) => (r matches LoginStep::FetchUser(h) && h@ == host@) && set_keeps_others(
                    *old(config),
                    *final(config),
                    host@,
                    "token"@,
                ) && final(config).spec_get(host@, "token"@) == Ok::<
                    Seq<char>,
                    ConfigErr,
                >(token_after_set(*old(config), token@)),
                Err(e) => r matches LoginStep::Fail(lines, msg) && lines@.len() == 0 && (!(e is Parse) ==> msg@
                    == config_err_message(e)),
            },
    {
        match config.set(host, "token", token) {
            Ok(()) => LoginStep::FetchUser(owned(host)),
            Err(e) => LoginStep::Fail(Vec::new(), e.to_string()),
        }
    }

    /// The step once the session of `host` names the user `email`: the user is
    /// stored for the host, and the login is reported.
    pub fn logged_in<C: Config>(&self, config: &mut C, host: &str, email: &str, cs: &ColorScheme) -> (r: LoginStep)
        requires
            old(config).valid(),
        ensures
            final(config).valid(),
            match old(config).spec_set(host@, "user"@, email@) {
                Ok(_) => (r matches LoginStep::LoggedIn(line) && line@ == cs.styled(AnsiStyle::Green, "✔"@)
                    + " Logged in as "@ + cs.styled(AnsiStyle::Bold, email@)) && set_keeps_others(
                    *old(config),
                    *final(config),
                    host@,
                    "user"@,
                ) && final(config).spec_get(host@, "user"@)
                    == Ok::<Seq<char>, ConfigErr>(
                    if old(config).spec_override("user"@).len() > 0 {
                        old(config).spec_override("user"@)
                    } else {
                        email@
                    },
                ),
                Err(e) => r matches LoginStep::Fail(lines, msg) && lines@.len() == 0 && (!(e is Parse) ==> msg@
                    == config_err_message(e)),
            },
    {
        match config.set(host, "user", email) {
            Ok(()) => {
                let icon = cs.success_icon();
                let name = cs.bold(email);
                LoginStep::LoggedIn(concat3(icon.as_str(), " Logged in as ", name.as_str()))
            },
            Err(e) => LoginStep::Fail(Vec::new(), e.to_string()),
        }
    }
}


/// Whether the API client for `hostname` (the default host when empty) can be
/// made: the host must be known and have a token.
pub open spec fn client_check<C: Config>(c: C, hostname: Seq<char>) -> Result<(), ConfigErr> {
    let host = if hostname.len() == 0 { c.spec_default_host() } else { Ok::<Seq<char>, ConfigErr>(hostname) };
    match host {
        Err(e) => Err(e),
        Ok(h) => match c.spec_get(h, "token"@) {
            Err(e) => Err(e),
            Ok(_) => Ok(()),
        },
    }
}

fn check_client<C: Config>(ctx: &Context<C>, hostname: &str) -> (r: Result<(), ConfigError>)
    requires
        ctx.config.valid(),
    ensures
        match r {
            Ok(_) => client_check(ctx.config, hostname@) is Ok,
            Err(e) => client_check(ctx.config, hostname@) == Err::<(), ConfigErr>(e@),
        },
{
    let _ = ctx.api_endpoint(hostname)?;
    Ok(())
}

/// Log out of an Oxide host.
pub struct CmdAuthLogout {
    /// The hostname of the Oxide instance to log out of.
    pub host: String,
}

/// What logging out does next.
pub enum LogoutStep {
    /// Ask "What account do you want to log out of?" among these hosts (the first
    /// one by default) and hand the chosen one to `with_host`.
    Select(Vec<String>),
    /// Ask this yes/no question and hand the answer to `after_confirm`.
    Confirm(String),
    /// Finished: whether the configuration must be written, and the line for
    /// standard output (empty for none).
    Done(bool, String),
    /// Print these lines on standard error and fail with the message.
    Fail(Vec<String>, String),
}

/// The advice printed when the token comes from the environment, at logout.
pub open spec fn logout_advice() -> Seq<char> {
    "To erase credentials stored in Oxide CLI, first clear the value from the environment."@
}

/// The outcome of removing `host` from the configuration: on success the other
/// hosts stay in their order and every other setting stays.
pub open spec fn unset_step<C: Config>(c: C, c2: C, host: Seq<char>, cs: ColorScheme, r: LogoutStep) -> bool {
    match c.spec_unset_host(host) {
        Ok(_) => hosts_after_unset(c.spec_hosts(), c2.spec_hosts(), host) && (forall|h: Seq<char>, k: Seq<char>|
            #![trigger c2.spec_get(h, k)]
            unset_leaves(host, h, k) ==> c2.spec_get(h, k) == c.spec_get(h, k)) && (r matches LogoutStep::Done(w, out) && w
            && out@ == cs.styled(AnsiStyle::Green, "✔"@) + " Logged out of "@ + cs.styled(AnsiStyle::Bold, host)),
        Err(e) => c2 == c && (r matches LogoutStep::Fail(lines, msg) && lines@.len() == 0 && (!(e is Parse) ==> msg@
            == config_err_message(e))),
    }
}

/// The step of logging out of `host`: the token must be writable and the host
/// must have a client; on a terminal the user confirms first.
pub open spec fn logout_host_step<C: Config>(
    c: C,
    c2: C,
    host: Seq<char>,
    can_prompt: bool,
    cs: ColorScheme,
    r: LogoutStep,
) -> bool {
    match c.spec_check_writable(host, "token"@) {
        Err(e) => c2 == c && (r matches LogoutStep::Fail(lines, msg) && refused_write(
            lines_view(lines@),
            msg@,
            e,
            logout_advice(),
        )),
        Ok(_) => match client_check(c, host) {
            Err(e) => c2 == c && (r matches LogoutStep::Fail(lines, msg) && lines@.len() == 0 && (!(e is Parse) ==> msg@
                == config_err_message(e))),
            Ok(_) => if can_prompt {
                c2 == c && (r matches LogoutStep::Confirm(q) && q@ == "Are you sure you want to log out of "@ + host
                    + "?"@)
            } else {
                unset_step(c, c2, host, cs, r)
            },
        },
    }
}

fn unset_host_step<C: Config>(ctx: &mut Context<C>, host: &str, cs: &ColorScheme) -> (r: LogoutStep)
    requires
        old(ctx).config.valid(),
    ensures
        final(ctx).config.valid(),
        final(ctx).io == old(ctx).io,
        unset_step(old(ctx).config, final(ctx).config, host@, *cs, r),
{
    match ctx.config.unset_host(host) {
        Ok(()) => {
            let icon = cs.success_icon();
            let h = cs.bold(host);
            let out = concat3(icon.as_str(), " Logged out of ", h.as_str());
            LogoutStep::Done(true, out)
        },
        Err(e) => LogoutStep::Fail(Vec::new(), e.to_string()),
    }
}

impl CmdAuthLogout {
    /// The first step: the host must be given when there is no prompt, and the
    /// user must be logged in; without a host, the only one is taken, or the user
    /// picks one.
    pub fn begin<C: Config>(&self, ctx: &mut Context<C>, can_prompt: bool, cs: &ColorScheme) -> (r: LogoutStep)
        requires
            old(ctx).config.valid(),
        ensures
            final(ctx).config.valid(),
            final(ctx).io == old(ctx).io,
            ({
                let c = old(ctx).config;
                let c2 = final(ctx).config;
                let host = self.host@;
                if host.len() == 0 && !can_prompt {
                    c2 == c && (r matches LogoutStep::Fail(lines, msg) && lines@.len() == 0 && msg@
                        == "--host required when not running interactively"@)
                } else {
                    match c.spec_hosts() {
                        Err(e) => c2 == c && (r matches LogoutStep::Fail(lines, msg) && lines@.len() == 0 && (!(
                        e is Parse) ==> msg@ == config_err_message(e))),
                        Ok(hs) => if hs.len() == 0 {
                            c2 == c && (r matches LogoutStep::Fail(lines, msg) && lines@.len() == 0 && msg@
                                == "not logged in to any hosts"@)
                        } else if host.len() == 0 {
                            if hs.len() == 1 {
                                logout_host_step(c, c2, hs[0], can_prompt, *cs, r)
                            } else {
                                c2 == c && (r matches LogoutStep::Select(v) && strings_view(v@) == hs)
                            }
                        } else if hs.contains(host) {
                            logout_host_step(c, c2, host, can_prompt, *cs, r)
                        } else {
                            c2 == c && (r matches LogoutStep::Fail(lines, msg) && lines@.len() == 0 && msg@
                                == "not logged into "@ + host)
                        },
                    }
                }
            }),
    {
        if self.host.unicode_len() == 0 && !can_prompt {
            return LogoutStep::Fail(Vec::new(), owned("--host required when not running interactively"));
        }
        let candidates = match ctx.config.hosts() {
            Ok(v) => v,
            Err(e) => {
                return LogoutStep::Fail(Vec::new(), e.to_string());
            },
        };
        if candidates.len() == 0 {
            return LogoutStep::Fail(Vec::new(), owned("not logged in to any hosts"));
        }
        if self.host.unicode_len() == 0 {
            if candidates.len() == 1 {
                let h = owned(candidates[0].as_str());
                return self.with_host(ctx, h.as_str(), can_prompt, cs);
            }
            return LogoutStep::Select(candidates);
        }
        let mut i: usize = 0;
        while i < candidates.len()
            invariant
                *ctx == *old(ctx),
                ctx.config.valid(),
                ctx.config.spec_hosts() == Ok::<Seq<Seq<char>>, ConfigErr>(strings_view(candidates@)),
                self.host@.len() > 0,
                i <= candidates@.len(),
                forall|j: int| 0 <= j < i ==> candidates@[j]@ != self.host@,
            decreases candidates@.len() - i,
        {
            if str_equal(candidates[i].as_str(), self.host.as_str()) {
                proof {
                    assert(strings_view(candidates@)[i as int] == self.host@);
                }
                return self.with_host(ctx, self.host.as_str(), can_prompt, cs);
            }
            i = i + 1;
        }
        proof {
            assert forall|j: int| 0 <= j < strings_view(candidates@).len() implies strings_view(candidates@)[j]
                != self.host@ by {
                assert(candidates@[j]@ != self.host@);
            }
        }
        LogoutStep::Fail(Vec::new(), concat2("not logged into ", self.host.as_str()))
    }

    /// The step once the host to log out of is known.
    pub fn with_host<C: Config>(&self, ctx: &mut Context<C>, host: &str, can_prompt: bool, cs: &ColorScheme) -> (r: LogoutStep)
        requires
            old(ctx).config.valid(),
        ensures
            final(ctx).config.valid(),
            final(ctx).io == old(ctx).io,
            logout_host_step(old(ctx).config, final(ctx).config, host@, can_prompt, *cs, r),
    {
        match ctx.config.check_writable(host, "token") {
            Err(e) => {
                let (lines, msg) = refused_write_step(
                    e,
                    "To erase credentials stored in Oxide CLI, first clear the value from the environment.",
                );
                return LogoutStep::Fail(lines, msg);
            },
            Ok(()) => {},
        }
        match check_client(ctx, host) {
            Err(e) => {
                return LogoutStep::Fail(Vec::new(), e.to_string());
            },
            Ok(()) => {},
        }
        if can_prompt {
            return LogoutStep::Confirm(concat3("Are you sure you want to log out of ", host, "?"));
        }
        unset_host_step(ctx, host, cs)
    }

    /// The step after the user answered whether to log out of `host`.
    pub fn after_confirm<C: Config>(&self, ctx: &mut Context<C>, host: &str, yes: bool, cs: &ColorScheme) -> (r: LogoutStep)
        requires
            old(ctx).config.valid(),
        ensures
            final(ctx).config.valid(),
            final(ctx).io == old(ctx).io,
            if yes {
                unset_step(old(ctx).config, final(ctx).config, host@, *cs, r)
            } else {
                final(ctx).config == old(ctx).config && (r matches LogoutStep::Done(w, out) && !w && out@.len() == 0)
            },
    {
        if yes {
            unset_host_step(ctx, host, cs)
        } else {
            LogoutStep::Done(false, String::new())
        }
    }
}


/// Verifies and displays information about your authentication state.
pub struct CmdAuthStatus {
    /// Display the auth token.
    pub show_token: bool,
    /// Check a specific hostname's auth status (empty for all).
    pub host: String,
}

/// What the status command prints, on standard output and standard error, and
/// whether it fails (with that message).
pub struct StatusOutput {
    pub out: String,
    pub err: String,
    pub result: Result<(), String>,
}

/// `h` is one of the hosts the command reports on.
pub open spec fn host_selected(h: Seq<char>, filter: Seq<char>) -> bool {
    filter.len() == 0 || filter == h
}

/// The first error met while checking the selected hosts of `hs` in order: reading
/// the token, then making the client.
pub open spec fn status_failure<C: Config>(c: C, hs: Seq<Seq<char>>, filter: Seq<char>) -> Option<ConfigErr>
    decreases hs.len(),
{
    if hs.len() == 0 {
        None
    } else if host_selected(hs[0], filter) {
        match c.spec_get(hs[0], "token"@) {
            Err(e) => Some(e),
            Ok(_) => match client_check(c, hs[0]) {
                Err(e) => Some(e),
                Ok(_) => status_failure(c, hs.skip(1), filter),
            },
        }
    } else {
        status_failure(c, hs.skip(1), filter)
    }
}

/// The standard output of the report: the name of each selected host, in bold.
pub open spec fn status_out(cs: ColorScheme, hs: Seq<Seq<char>>, filter: Seq<char>) -> Seq<char>
    decreases hs.len(),
{
    if hs.len() == 0 {
        Seq::empty()
    } else if host_selected(hs.last(), filter) {
        status_out(cs, hs.drop_last(), filter) + cs.styled(AnsiStyle::Bold, hs.last()) + "\n"@
    } else {
        status_out(cs, hs.drop_last(), filter)
    }
}

/// The standard error of the report: a note for each host that is not selected.
pub open spec fn status_err(hs: Seq<Seq<char>>, filter: Seq<char>) -> Seq<char>
    decreases hs.len(),
{
    if hs.len() == 0 {
        Seq::empty()
    } else if host_selected(hs.last(), filter) {
        status_err(hs.drop_last(), filter)
    } else {
        status_err(hs.drop_last(), filter) + "No status information for "@ + hs.last() + "\n"@
    }
}

impl CmdAuthStatus {
    /// Checks every selected host (its token, and its client), then reports on the
    /// hosts in their order.
    pub fn run<C: Config>(&self, ctx: &Context<C>, cs: &ColorScheme) -> (r: StatusOutput)
        requires
            ctx.config.valid(),
        ensures
            ({
                let c = ctx.config;
                let f = self.host@;
                match c.spec_hosts() {
                    Err(e) => r.out@.len() == 0 && r.err@.len() == 0 && r.result is Err && (!(e is Parse)
                        ==> r.result->Err_0@ == config_err_message(e)),
                    Ok(hs) => if hs.len() == 0 {
                        &&& r.out@.len() == 0
                        &&& r.err@ == "You are not logged into any Oxide hosts. Run "@ + cs.styled(
                            AnsiStyle::Bold,
                            "oxide auth login"@,
                        ) + " to authenticate.\n"@
                        &&& r.result is Err && r.result->Err_0@.len() == 0
                    } else {
                        match status_failure(c, hs, f) {
                            Some(e) => r.out@.len() == 0 && r.err@.len() == 0 && r.result is Err && (!(e is Parse)
                                ==> r.result->Err_0@ == config_err_message(e)),
                            None => if !(exists|i: int| 0 <= i < hs.len() && host_selected(#[trigger] hs[i], f)) {
                                &&& r.out@.len() == 0
                                &&& r.err@ == "Hostname "@ + f + " not found among authenticated Oxide hosts\n"@
                                &&& r.result is Err && r.result->Err_0@.len() == 0
                            } else {
                                r.out@ == status_out(*cs, hs, f) && r.err@ == status_err(hs, f) && r.result is Ok
                            },
                        }
                    },
                }
            }),
    {
        let hostnames = match ctx.config.hosts() {
            Ok(v) => v,
            Err(e) => {
                return StatusOutput { out: String::new(), err: String::new(), result: Err(e.to_string()) };
            },
        };
        let ghost hs = strings_view(hostnames@);
        if hostnames.len() == 0 {
            let b = cs.bold("oxide auth login");
            let err = concat3("You are not logged into any Oxide hosts. Run ", b.as_str(), " to authenticate.\n");
            proof {
                reveal_strlit("");
            }
            return StatusOutput { out: String::new(), err, result: Err(owned("")) };
        }
        let mut found = false;
        let mut i: usize = 0;
        proof {
            assert(hs.skip(0) =~= hs);
        }
        while i < hostnames.len()
            invariant
                ctx.config.valid(),
                hs == strings_view(hostnames@),
                ctx.config.spec_hosts() == Ok::<Seq<Seq<char>>, ConfigErr>(hs),
                hs.len() > 0,
                i <= hostnames@.len(),
                status_failure(ctx.config, hs, self.host@) == status_failure(ctx.config, hs.skip(i as int), self.host@),
                found == (exists|j: int| 0 <= j < i && host_selected(#[trigger] hs[j], self.host@)),
            decreases hostnames@.len() - i,
        {
            let h = hostnames[i].as_str();
            proof {
                assert(hs.skip(i as int)[0] == hs[i as int]);
                assert(hs.skip(i as int).skip(1) =~= hs.skip(i + 1));
            }
            if self.host.unicode_len() == 0 || str_equal(self.host.as_str(), h) {
                proof {
                    assert(host_selected(hs[i as int], self.host@));
                }
                found = true;
                match ctx.config.get_with_source(h, "token") {
                    Err(e) => {
                        return StatusOutput { out: String::new(), err: String::new(), result: Err(e.to_string()) };
                    },
                    Ok(_) => {},
                }
                match check_client(ctx, h) {
                    Err(e) => {
                        return StatusOutput { out: String::new(), err: String::new(), result: Err(e.to_string()) };
                    },
                    Ok(()) => {},
                }
            } else {
                proof {
                    assert(!host_selected(hs[i as int], self.host@));
                }
            }
            i = i + 1;
        }
        proof {
            assert(hs.skip(hs.len() as int) =~= Seq::<Seq<char>>::empty());
        }
        if !found {
            let err = concat3("Hostname ", self.host.as_str(), " not found among authenticated Oxide hosts\n");
            proof {
                reveal_strlit("");
            }
            return StatusOutput { out: String::new(), err, result: Err(owned("")) };
        }
        let mut out = String::new();
        let mut err = String::new();
        let mut k: usize = 0;
        proof {
            assert(hs.take(0) =~= Seq::<Seq<char>>::empty());
        }
        while k < hostnames.len()
            invariant
                hs == strings_view(hostnames@),
                k <= hostnames@.len(),
                out@ == status_out(*cs, hs.take(k as int), self.host@),
                err@ == status_err(hs.take(k as int), self.host@),
            decreases hostnames@.len() - k,
        {
            let h = hostnames[k].as_str();
            proof {
                assert(hs.take(k + 1).drop_last() =~= hs.take(k as int));
                assert(hs.take(k + 1).last() == hs[k as int]);
            }
            if self.host.unicode_len() == 0 || str_equal(self.host.as_str(), h) {
                let b = cs.bold(h);
                out.append(b.as_str());
                out.append("\n");
            } else {
                let line = concat3("No status information for ", h, "\n");
                err.append(line.as_str());
            }
            k = k + 1;
        }
        proof {
            assert(hs.take(hs.len() as int) =~= hs);
        }
        StatusOutput { out, err, result: Ok(()) }
    }
}

} // verus!
