use oxide::cmd_alias::{CmdAliasDelete, CmdAliasList, CmdAliasSet};
use oxide::cmd_auth::{clean_hostname, CmdAuthLogin, CmdAuthLogout, CmdAuthStatus, LoginStep, LogoutStep};
use oxide::cmd_config::{CmdConfigGet, CmdConfigList, CmdConfigSet};
use oxide::colors::{env_color_disabled, env_color_forced, ColorScheme};
use oxide::config::{new_blank_config, Config};
use oxide::config_alias::AliasConfig;
use oxide::config_from_env::EnvConfig;
use oxide::config_map::ConfigMap;
use oxide::context::Context;
use oxide::env::EnvVars;
use oxide::iostreams::TerminalState;
use oxide::update::version_greater_then;

fn env_of(pairs: &[(&str, &str)]) -> EnvVars {
    EnvVars {
        vars: pairs.iter().map(|(k, v)| (k.to_string(), v.to_string())).collect(),
    }
}

fn plain() -> ColorScheme {
    ColorScheme::new(false, false, false)
}

#[test]
fn test_update() {
    let tests = vec![
        ("latest is newer", "v0.0.1", "v1.0.0", true),
        ("current is prerelease", "v1.0.0-pre.1", "v1.0.0", true),
        ("current is built from source", "v1.2.3-123-gdeadbeef", "v1.2.3", false),
        ("current is built from source after a prerelease", "v1.2.3-rc.1-123-gdeadbeef", "v1.2.3", true),
        ("latest is newer than version build from source", "v1.2.3-123-gdeadbeef", "v1.2.4", true),
        ("latest is current", "v1.2.5", "v1.2.5", false),
        ("latest is older", "v0.10.0-pre.1", "v0.9.0", false),
    ];
    for (name, current, latest, want) in tests {
        let result = version_greater_then(latest, current).unwrap();
        assert_eq!(result, want, "test {} failed", name);
    }
}

#[test]
fn test_force_terminal() {
    let env = EnvVars::empty();
    // (name, spec, measured width, want tty, want width)
    let tests = vec![
        ("explicit width", "72", None, true, 72),
        ("measure width", "true", Some(72), true, 72),
        ("apply percentage", "50%", Some(72), true, 36),
    ];
    for (name, spec, measured, want_tty, want_width) in tests {
        let mut io = TerminalState::system(&env, false, false, false, false);
        let percent = io.force_terminal(spec, &env, measured);
        if let Some(p) = percent {
            if let Ok(p) = p.parse::<f64>() {
                let w = io.terminal_width(measured);
                io.set_terminal_width_override(((w as f64) * (p / 100.00)) as i32);
            }
        }
        assert_eq!(io.is_stdout_tty(false), want_tty, "test {}", name);
        assert_eq!(io.terminal_width(measured), want_width, "test {}", name);
    }
}

#[test]
fn test_env_color_disabled() {
    let tests = vec![
        ("pristine env", "", "", "", false),
        ("NO_COLOR enabled", "1", "", "", true),
        ("CLICOLOR disabled", "", "0", "", true),
        ("CLICOLOR enabled", "", "1", "", false),
        ("CLICOLOR_FORCE has no effect", "", "", "1", false),
    ];
    for (name, no_color, clicolor, force, want) in tests {
        let env = env_of(&[("NO_COLOR", no_color), ("CLICOLOR", clicolor), ("CLICOLOR_FORCE", force)]);
        assert_eq!(env_color_disabled(&env), want, "test {}", name);
    }
}

#[test]
fn test_env_color_forced() {
    let tests = vec![
        ("pristine env", "", "", "", false),
        ("NO_COLOR enabled", "1", "", "", false),
        ("CLICOLOR disabled", "", "0", "", false),
        ("CLICOLOR enabled", "", "1", "", false),
        ("CLICOLOR_FORCE enabled", "", "", "1", true),
        ("CLICOLOR_FORCE disabled", "", "", "0", false),
    ];
    for (name, no_color, clicolor, force, want) in tests {
        let env = env_of(&[("NO_COLOR", no_color), ("CLICOLOR", clicolor), ("CLICOLOR_FORCE", force)]);
        assert_eq!(env_color_forced(&env), want, "test {}", name);
    }
}

#[test]
fn test_context() {
    // (name, OXIDE_PAGER, OXIDE_FORCE_TTY, prompt, pager, want pager, want prompt, want width)
    let tests = vec![
        ("OXIDE_PAGER env", "more", "", "", "", "more", "enabled", 0),
        ("OXIDE_PAGER env override", "more", "", "", "less", "more", "enabled", 0),
        ("config pager", "", "", "", "less", "less", "enabled", 0),
        ("config prompt", "", "", "disabled", "less", "less", "disabled", 0),
        ("OXIDE_FORCE_TTY env", "", "120", "disabled", "less", "less", "disabled", 120),
    ];
    for (name, pager_env, force_env, prompt, pager, want_pager, want_prompt, want_width) in tests {
        let mut vars: Vec<(&str, &str)> = Vec::new();
        if !pager_env.is_empty() {
            vars.push(("OXIDE_PAGER", pager_env));
        }
        if !force_env.is_empty() {
            vars.push(("OXIDE_FORCE_TTY", force_env));
        }
        let env = env_of(&vars);
        let mut c = EnvConfig::inherit_env(new_blank_config().unwrap(), env_of(&vars));
        if !pager.is_empty() {
            c.set("", "pager", pager).unwrap();
        }
        if !prompt.is_empty() {
            c.set("", "prompt", prompt).unwrap();
        }
        let io = TerminalState::system(&env, false, false, false, false);
        let (ctx, _percent) = Context::new(c, io, &env, None);
        assert_eq!(ctx.io.get_pager(), want_pager, "test: {}", name);
        assert_eq!(ctx.io.get_never_prompt(), want_prompt == "disabled", "test {}", name);
        assert_eq!(ctx.config.get("", "pager").unwrap(), want_pager, "test: {}", name);
        assert_eq!(ctx.config.get("", "prompt").unwrap(), want_prompt, "test: {}", name);
        if want_width > 0 {
            assert_eq!(ctx.io.terminal_width(None), want_width, "test: {}", name);
        }
    }
}

#[test]
fn config_commands_set_get_and_list() {
    let mut c = new_blank_config().unwrap();
    let cs = plain();

    let list = CmdConfigList { host: "".to_string() }.run(&c).unwrap();
    assert_eq!(list, "editor=\nprompt=enabled\nbrowser=\nformat=table\n");

    let unknown = CmdConfigSet { key: "foo".to_string(), value: "bar".to_string(), host: "".to_string() };
    assert_eq!(unknown.run(&mut c, &cs).unwrap_err(), "! warning: 'foo' is not a known configuration key");

    let bad = CmdConfigSet { key: "prompt".to_string(), value: "sometimes".to_string(), host: "".to_string() };
    assert_eq!(bad.run(&mut c, &cs).unwrap_err(), "invalid values, valid values: [\"enabled\", \"disabled\"]");

    let set = CmdConfigSet { key: "browser".to_string(), value: "bar".to_string(), host: "".to_string() };
    set.run(&mut c, &cs).unwrap();
    let set_host =
        CmdConfigSet { key: "prompt".to_string(), value: "disabled".to_string(), host: "example.org".to_string() };
    set_host.run(&mut c, &cs).unwrap();

    let get = CmdConfigGet { key: "browser".to_string(), host: "".to_string() };
    assert_eq!(get.run(&c).unwrap(), "bar\n");
    let get_host = CmdConfigGet { key: "prompt".to_string(), host: "example.org".to_string() };
    assert_eq!(get_host.run(&c).unwrap(), "disabled\n");
    let missing = CmdConfigGet { key: "blah".to_string(), host: "".to_string() };
    assert_eq!(missing.run(&c).unwrap_err().to_string(), "Key 'blah' not found");

    let list = CmdConfigList { host: "".to_string() }.run(&c).unwrap();
    assert_eq!(list, "editor=\nprompt=enabled\nbrowser=bar\nformat=table\n");
    // A host lists the keys it sets, and the default format.
    let list = CmdConfigList { host: "example.org".to_string() }.run(&c).unwrap();
    assert_eq!(list, "prompt=disabled\nformat=table\n");
}

#[test]
fn config_set_reports_the_environment_override() {
    let env = env_of(&[("OXIDE_BROWSER", "lynx")]);
    let mut c = EnvConfig::inherit_env(new_blank_config().unwrap(), env);
    let set = CmdConfigSet { key: "browser".to_string(), value: "firefox".to_string(), host: "".to_string() };
    set.run(&mut c, &plain()).unwrap();
    let get = CmdConfigGet { key: "browser".to_string(), host: "".to_string() };
    assert_eq!(get.run(&c).unwrap(), "lynx\n");
}

fn empty_aliases() -> AliasConfig {
    AliasConfig { map: ConfigMap::new() }
}

#[test]
fn alias_set_list_and_delete() {
    let cs = plain();
    let mut aliases = empty_aliases();

    let list = CmdAliasList {}.run(&aliases, true);
    assert_eq!(list.out, "");
    assert_eq!(list.err, "no aliases configured\n");

    let set = CmdAliasSet { alias: "foo".to_string(), expansion: "completion -s zsh".to_string(), shell: false };
    let outcome = set.run("completion -s zsh", &mut aliases, &cs, false, true);
    assert!(outcome.result.is_ok());
    assert_eq!(outcome.messages, vec!["- Adding alias for foo: completion -s zsh".to_string(), "✔ Added alias.".to_string()]);

    let shell = CmdAliasSet { alias: "bar".to_string(), expansion: "which bash".to_string(), shell: true };
    let outcome = shell.run("which bash", &mut aliases, &cs, false, false);
    assert!(outcome.result.is_ok());
    assert_eq!(outcome.messages, vec!["- Adding alias for bar: !which bash".to_string(), "✔ Added alias.".to_string()]);
    assert_eq!(aliases.get("bar"), ("!which bash".to_string(), true));

    let change = CmdAliasSet { alias: "foo".to_string(), expansion: "version".to_string(), shell: false };
    let outcome = change.run("version", &mut aliases, &cs, false, true);
    assert_eq!(outcome.messages[1], "✔ Changed alias foo from completion -s zsh to version");

    let list = CmdAliasList {}.run(&aliases, true);
    assert_eq!(list.err, "");
    let lines: Vec<&str> = list.out.lines().collect();
    assert_eq!(lines.len(), 3, "{:?}", list.out);
    assert_eq!(lines[2], "");
    assert!(lines[0].starts_with("foo:") && lines[0].ends_with("\"version\""));
    assert!(lines[1].starts_with("bar:") && lines[1].ends_with("\"!which bash\""));
    assert!(list.out.ends_with("\n\n"));

    let delete = CmdAliasDelete { alias: "foo".to_string() };
    let msg = delete.run(&mut aliases, &cs).unwrap();
    assert_eq!(msg, "✔ Deleted alias foo; was version");
    assert_eq!(delete.run(&mut aliases, &cs).unwrap_err(), "no such alias foo");
}

#[test]
fn alias_set_refuses_commands() {
    let cs = plain();
    let mut aliases = empty_aliases();
    let set = CmdAliasSet { alias: "version".to_string(), expansion: "auth status".to_string(), shell: false };
    let outcome = set.run("auth status", &mut aliases, &cs, true, true);
    assert_eq!(outcome.result.unwrap_err(), "could not create alias: version is already an oxide command");
    assert_eq!(outcome.messages, vec!["- Adding alias for version: auth status".to_string()]);
    let set = CmdAliasSet { alias: "st".to_string(), expansion: "nosuchcmd --x".to_string(), shell: false };
    let outcome = set.run("nosuchcmd --x", &mut aliases, &cs, false, false);
    assert_eq!(
        outcome.result.unwrap_err(),
        "could not create alias: nosuchcmd --x does not correspond to an oxide command"
    );
    assert_eq!(aliases.get("st"), (String::new(), false));
}

#[test]
fn auth_clean_hostname() {
    assert_eq!(clean_hostname("https://oxide.internal"), "oxide.internal");
    assert_eq!(clean_hostname("http://localhost:8080"), "localhost:8080");
    assert_eq!(clean_hostname("oxide.computer"), "oxide.computer");
}

#[test]
fn auth_login_with_token() {
    let mut c = new_blank_config().unwrap();
    let login = CmdAuthLogin { with_token: true, host: "https://oxide.internal".to_string() };
    assert!(matches!(login.begin(&mut c, false), LoginStep::ReadToken));
    match login.with_token(&mut c, false, "T0KEN") {
        LoginStep::FetchUser(h) => assert_eq!(h, "oxide.internal"),
        _ => panic!("expected the session to be fetched"),
    }
    assert_eq!(c.get("oxide.internal", "token").unwrap(), "T0KEN");
    match login.logged_in(&mut c, "oxide.internal", "jess@example.com", &plain()) {
        LoginStep::LoggedIn(line) => assert_eq!(line, "✔ Logged in as jess@example.com"),
        _ => panic!("expected the login line"),
    }
    assert_eq!(c.get("oxide.internal", "user").unwrap(), "jess@example.com");

    let no_token = CmdAuthLogin { with_token: false, host: "".to_string() };
    match no_token.begin(&mut c, false) {
        LoginStep::Fail(lines, msg) => {
            assert!(lines.is_empty());
            assert_eq!(msg, "--with-token required when not running interactively");
        }
        _ => panic!("expected a failure"),
    }
    let no_host = CmdAuthLogin { with_token: true, host: "".to_string() };
    match no_host.with_token(&mut c, false, "T") {
        LoginStep::Fail(_, msg) => assert_eq!(msg, "--host required when not running interactively"),
        _ => panic!("expected a failure"),
    }
}

#[test]
fn auth_login_interactive() {
    let mut c = new_blank_config().unwrap();
    let login = CmdAuthLogin { with_token: false, host: "".to_string() };
    assert!(matches!(login.begin(&mut c, true), LoginStep::PromptHost));
    // Reading the stored token of a host that is not configured fails.
    match login.with_host(&mut c, "oxide.internal") {
        LoginStep::Fail(_, msg) => assert_eq!(msg, "host oxide.internal not found"),
        _ => panic!("expected a failure"),
    }
    // An empty stored token: the token is asked for.
    c.set("oxide.internal", "token", "").unwrap();
    match login.with_host(&mut c, "oxide.internal") {
        LoginStep::PromptToken(tip) => {
            assert_eq!(tip, "Tip: you can generate an API Token here https://oxide.internal/account")
        }
        _ => panic!("expected the token prompt"),
    }
    assert!(matches!(login.with_new_token(&mut c, "oxide.internal", "abc"), LoginStep::FetchUser(h) if h == "oxide.internal"));
    // Already logged in: the user is asked first.
    match login.with_host(&mut c, "https://oxide.internal") {
        LoginStep::Confirm(q) => {
            assert_eq!(q, "You're already logged into oxide.internal. Do you want to re-authenticate?")
        }
        _ => panic!("expected the question"),
    }
    assert!(matches!(login.after_confirm("oxide.internal", false), LoginStep::Done(false)));
}

#[test]
fn auth_login_token_from_environment() {
    let env = env_of(&[("OXIDE_TOKEN", "from-env")]);
    let mut c = EnvConfig::inherit_env(new_blank_config().unwrap(), env);
    let login = CmdAuthLogin { with_token: true, host: "oxide.internal".to_string() };
    match login.with_token(&mut c, false, "T") {
        LoginStep::Fail(lines, msg) => {
            assert_eq!(
                lines,
                vec![
                    "The value of the OXIDE_TOKEN environment variable is being used for authentication."
                        .to_string(),
                    "To have Oxide CLI store credentials instead, first clear the value from the environment."
                        .to_string()
                ]
            );
            assert_eq!(msg, "");
        }
        _ => panic!("expected a failure"),
    }
}

fn context_with_hosts(hosts: &[&str]) -> Context<EnvConfig> {
    let mut config = new_blank_config().unwrap();
    for h in hosts {
        config.set(h, "token", "secret").unwrap();
    }
    let env = EnvVars::empty();
    let c = EnvConfig::inherit_env(config, EnvVars::empty());
    let io = TerminalState::system(&env, false, false, false, false);
    Context::new(c, io, &env, None).0
}

#[test]
fn auth_logout() {
    let cs = plain();
    let mut ctx = context_with_hosts(&["a.example", "b.example"]);
    let logout = CmdAuthLogout { host: "".to_string() };
    match logout.begin(&mut ctx, true, &cs) {
        LogoutStep::Select(hosts) => assert_eq!(hosts, vec!["a.example".to_string(), "b.example".to_string()]),
        _ => panic!("expected a selection"),
    }
    match logout.with_host(&mut ctx, "a.example", true, &cs) {
        LogoutStep::Confirm(q) => assert_eq!(q, "Are you sure you want to log out of a.example?"),
        _ => panic!("expected the question"),
    }
    match logout.after_confirm(&mut ctx, "a.example", true, &cs) {
        LogoutStep::Done(write, out) => {
            assert!(write);
            assert_eq!(out, "✔ Logged out of a.example");
        }
        _ => panic!("expected the logout"),
    }
    assert_eq!(ctx.config.hosts().unwrap(), vec!["b.example".to_string()]);

    let unknown = CmdAuthLogout { host: "c.example".to_string() };
    match unknown.begin(&mut ctx, false, &cs) {
        LogoutStep::Fail(_, msg) => assert_eq!(msg, "not logged into c.example"),
        _ => panic!("expected a failure"),
    }
    let only = CmdAuthLogout { host: "b.example".to_string() };
    match only.begin(&mut ctx, false, &cs) {
        LogoutStep::Done(write, _) => assert!(write),
        _ => panic!("expected the logout"),
    }
    match only.begin(&mut ctx, false, &cs) {
        LogoutStep::Fail(_, msg) => assert_eq!(msg, "not logged in to any hosts"),
        _ => panic!("expected a failure"),
    }
}

#[test]
fn auth_status() {
    let cs = plain();
    let ctx = context_with_hosts(&["a.example", "b.example"]);
    let all = CmdAuthStatus { show_token: false, host: "".to_string() }.run(&ctx, &cs);
    assert!(all.result.is_ok());
    assert_eq!(all.out, "a.example\nb.example\n");
    assert_eq!(all.err, "");

    let one = CmdAuthStatus { show_token: false, host: "b.example".to_string() }.run(&ctx, &cs);
    assert_eq!(one.out, "b.example\n");
    assert_eq!(one.err, "No status information for a.example\n");

    let missing = CmdAuthStatus { show_token: false, host: "c.example".to_string() }.run(&ctx, &cs);
    assert_eq!(missing.err, "Hostname c.example not found among authenticated Oxide hosts\n");
    assert_eq!(missing.result, Err(String::new()));

    let none = context_with_hosts(&[]);
    let empty = CmdAuthStatus { show_token: false, host: "".to_string() }.run(&none, &cs);
    assert_eq!(empty.err, "You are not logged into any Oxide hosts. Run oxide auth login to authenticate.\n");
    assert!(empty.result.is_err());
}

#[test]
fn alias_expansion_ignores_the_program_name() {
    let mut c = new_blank_config().unwrap();
    let mut aliases = c.aliases().unwrap();
    let set = CmdAliasSet { alias: "foo".to_string(), expansion: "completion -s zsh".to_string(), shell: false };
    assert!(set.run("completion -s zsh", &mut aliases, &plain(), false, true).result.is_ok());
    c.save_aliases(&aliases.map).unwrap();
    let a = c.expand_alias(vec!["oxide".to_string(), "foo".to_string()]).unwrap();
    let b = c.expand_alias(vec!["/bin/thing/oxide".to_string(), "foo".to_string()]).unwrap();
    assert_eq!(a, b);
    assert_eq!(a.0, vec!["completion".to_string(), "-s".to_string(), "zsh".to_string()]);
}
