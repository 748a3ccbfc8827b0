use oxide::cmd_generate::{CmdGenerateManPages, CmdGenerateMarkdown};
use oxide::cmd_open::{changelog_url, CmdOpen, OpenShortcut};
use oxide::cmd_version::CmdVersion;
use oxide::config::{new_blank_config, Config};
use oxide::config_file::{config_dir, config_file, data_dir, hosts_file, state_dir, state_file, PathError, Platform};
use oxide::env::EnvVars;
use oxide::naming::{clean_param_name, get_flags, plural, singular, skip_defaults, Flags, FlagsError};
use oxide::ssh::SshCommandResult;
use oxide::types::FormatOutput;

fn platform(vars: &[(&str, &str)], home: Option<&str>) -> Platform {
    Platform {
        env: EnvVars { vars: vars.iter().map(|(k, v)| (k.to_string(), v.to_string())).collect() },
        is_windows: false,
        home_dir: home.map(|h| h.to_string()),
    }
}

#[test]
fn test_singular_and_plural() {
    assert_eq!(singular("instances"), "instance");
    assert_eq!(singular("vpc"), "vpc");
    assert_eq!(plural("instance"), "instances");
    assert_eq!(plural("instances"), "instances");
    assert_eq!(plural("policy"), "policies");
    assert_eq!(plural("address"), "addreses");
}

#[test]
fn test_skip_defaults() {
    assert!(skip_defaults("instance", "instances"));
    assert!(skip_defaults("project", "disks"));
    assert!(skip_defaults("organization_name", "disks"));
    assert!(skip_defaults("name", "disks"));
    assert!(!skip_defaults("size", "disks"));
}

#[test]
fn test_clean_param_name() {
    assert_eq!(clean_param_name("organization_name"), "organization");
    assert_eq!(clean_param_name("project_name"), "project");
    assert_eq!(clean_param_name("disk_name"), "disk");
    assert_eq!(clean_param_name("limit"), "limit");
}

#[test]
fn test_get_flags() {
    let f = get_flags("description").unwrap();
    assert_eq!(f.short, 'D');
    assert_eq!(f.long, "description");
    assert_eq!(f.format_help(), "-D|--description");

    let f = get_flags("new_name").unwrap();
    assert_eq!(f.short, 'n');
    assert_eq!(f.long, "name");

    let f = get_flags("size").unwrap();
    assert_eq!(f.short, '0');
    assert_eq!(f.format_help(), "--size");

    let f = get_flags("ncpus").unwrap();
    assert_eq!(f.short, 'c');
    assert_eq!(f.long, "ncpus");

    let f = get_flags("vpc_name").unwrap();
    assert_eq!(f.long, "vpc");

    assert!(matches!(get_flags("x"), Err(FlagsError::TooShort)));

    let f = Flags { short: 'i', long: "ipv-6-prefix".to_string() };
    assert_eq!(f.long_flag(), "ipv6-prefix");
}

#[test]
fn test_format_output() {
    assert_eq!(FormatOutput::variants(), vec!["table".to_string(), "json".to_string(), "yaml".to_string()]);
    assert_eq!(FormatOutput::from_str("json").unwrap(), FormatOutput::Json);
    assert_eq!(FormatOutput::from_str("yaml").unwrap(), FormatOutput::Yaml);
    assert!(FormatOutput::from_str("xml").is_err());
    assert_eq!(FormatOutput::Table.to_string(), "table");
    assert_eq!(FormatOutput::default(), FormatOutput::Table);
}

#[test]
fn test_open_shortcuts() {
    assert_eq!(OpenShortcut::from_str("api-ref").unwrap().to_string(), "https://docs.oxide.computer/api");
    assert_eq!(
        OpenShortcut::from_str("nope").err().unwrap(),
        "Invalid value for [shortcut]: nope"
    );
    let config = new_blank_config().unwrap();
    let url = CmdOpen { shortcut: OpenShortcut::Docs }.target_url(&config).unwrap();
    assert_eq!(url, "https://docs.oxide.computer");

    let mut config = new_blank_config().unwrap();
    config.set("oxide.example.com", "token", "secret").unwrap();
    let url = CmdOpen { shortcut: OpenShortcut::Console }.target_url(&config).unwrap();
    assert_eq!(url, "https://oxide.example.com");

    let mut config = new_blank_config().unwrap();
    config.set("http://localhost:8888", "token", "secret").unwrap();
    let url = CmdOpen { shortcut: OpenShortcut::Console }.target_url(&config).unwrap();
    assert_eq!(url, "http://localhost:8888");

    assert_eq!(changelog_url("0.1.0"), "https://github.com/oxidecomputer/cli/releases/tag/v0.1.0");
}

#[test]
fn test_version_output() {
    let (line, url) = CmdVersion {}.output("1.2.3", Some("abc123"));
    assert_eq!(line, "oxide 1.2.3 (abc123)");
    assert_eq!(url, "https://github.com/oxidecomputer/cli/releases/tag/v1.2.3");
    let (line, _) = CmdVersion {}.output("1.2.3", None);
    assert_eq!(line, "oxide 1.2.3");
}

#[test]
fn test_config_paths() {
    let p = platform(&[("OXIDE_CONFIG_DIR", "/etc/oxide")], Some("/home/u"));
    assert_eq!(config_dir(&p).unwrap(), "/etc/oxide");
    assert_eq!(config_file(&p).unwrap(), "/etc/oxide/config.toml");
    assert_eq!(hosts_file(&p).unwrap(), "/etc/oxide/hosts.toml");

    let p = platform(&[("XDG_CONFIG_HOME", "/xdg")], Some("/home/u"));
    assert_eq!(config_dir(&p).unwrap(), "/xdg/oxide");

    let p = platform(&[], Some("/home/u"));
    assert_eq!(config_dir(&p).unwrap(), "/home/u/.config/oxide");
    assert_eq!(state_dir(&p).unwrap(), "/home/u/.local/state/oxide");
    assert_eq!(data_dir(&p).unwrap(), "/home/u/.local/share/oxide");
    assert_eq!(state_file(&p).unwrap(), "/home/u/.local/state/oxide/state.toml");

    let p = platform(&[("XDG_STATE_HOME", "/st")], None);
    assert_eq!(state_file(&p).unwrap(), "/st/oxide/state.toml");

    let p = platform(&[], None);
    let e = config_dir(&p).unwrap_err();
    assert!(matches!(e, PathError::NoHome));
    assert_eq!(e.to_string(), "could not find home directory");
}

#[test]
fn test_generate_page_names() {
    let md = CmdGenerateMarkdown { dir: String::new() };
    let n = md.page_names("oxide_auth", "login");
    assert_eq!(n.path, "oxide_auth_login");
    assert_eq!(n.filename, "oxide_auth_login.md");
    assert_eq!(n.title, "oxide auth login");
    let n = md.page_names("", "oxide");
    assert_eq!(n.filename, "oxide.md");
    assert_eq!(
        md.page("oxide auth", "Login.", "body"),
        "---\ntitle: \"oxide auth\"\ndescription: \"Login.\"\nlayout: manual\n---\n\nbody"
    );

    let man = CmdGenerateManPages { dir: String::new() };
    let n = man.page_names("oxide-auth", "login");
    assert_eq!(n.path, "oxide-auth-login");
    assert_eq!(n.filename, "oxide-auth-login.1");
    assert_eq!(n.title, "oxide auth login");
}

#[test]
fn test_ssh_command_result() {
    let r = SshCommandResult::new("héllo\n".as_bytes().to_vec(), Some(0));
    assert_eq!(r.output(), "héllo\n");
    assert!(r.success());
    let r = SshCommandResult::new(vec![b'o', b'k', 0xff], Some(1));
    assert_eq!(r.output(), "ok\u{fffd}");
    assert!(!r.success());
    assert!(!SshCommandResult::new(vec![], None).success());
}
