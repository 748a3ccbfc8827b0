use oxide::config::{new_blank_config, new_from_string, validate_key, validate_value, Config};

#[test]
fn test_file_config_set_no_host() {
    let mut c = new_blank_config().unwrap();
    assert!(c.set("", "editor", "vim").is_ok());
    assert!(c.set("", "prompt", "disabled").is_ok());
    assert!(c.set("", "pager", "less").is_ok());
    assert!(c.set("", "browser", "firefox").is_ok());

    let doc = c.config_to_string().unwrap();
    assert!(doc.contains("editor = \"vim\""));
    assert!(doc.contains("prompt = \"disabled\""));
    assert!(doc.contains("pager = \"less\""));
    assert!(doc.contains("browser = \"firefox\""));
}

#[test]
fn test_file_config_set_with_host() {
    let mut c = new_blank_config().unwrap();
    assert!(c.set("example.com", "editor", "vim").is_ok());
    assert!(c.set("example.com", "prompt", "disabled").is_ok());
    assert!(c.set("example.com", "pager", "less").is_ok());
    assert!(c.set("example.com", "browser", "firefox").is_ok());
    assert!(c.set("oxide.computer", "browser", "chrome").is_ok());

    let doc = c.hosts_to_string().unwrap();

    let expected = r#"["example.com"]
editor = "vim"
prompt = "disabled"
pager = "less"
browser = "firefox"

["oxide.computer"]
browser = "chrome""#;
    assert_eq!(doc, expected);

    let hosts = c.hosts().unwrap();
    assert_eq!(hosts.len(), 2);
    assert_eq!(hosts[0], "example.com".to_string());
    assert_eq!(hosts[1], "oxide.computer".to_string());
}

#[test]
fn test_default_config() {
    let c = new_blank_config().unwrap();
    let doc_config = c.config_to_string().unwrap();

    let expected = r#"# What editor oxide should run when creating text, etc. If blank, will refer to environment.
editor = ""

# When to interactively prompt. This is a global config that cannot be overridden by hostname.
# Supported values: enabled, disabled
prompt = "enabled"

# A pager program to send command output to, e.g. "less". Set the value to "cat" to disable the pager.
pager = ""

# What web browser gh should use when opening URLs. If blank, will refer to environment.
browser = """#;
    assert_eq!(doc_config, expected);

    let doc_hosts = c.hosts_to_string().unwrap();
    assert_eq!(doc_hosts, "");
}

#[test]
fn test_parse_config() {
    let c = new_from_string(
        r#"[hosts]

[hosts."thing.com"]
user = "jess"
token = "MY_TOKEN""#,
    )
    .unwrap();

    let user = c.get("thing.com", "user").unwrap();
    assert_eq!(user, "jess");

    let token = c.get("thing.com", "token").unwrap();
    assert_eq!(token, "MY_TOKEN");
}

#[test]
fn test_parse_config_multiple_hosts() {
    let mut c = new_from_string(
        r#"[hosts]

[hosts."example.org"]
user = "new_user"
token = "EXAMPLE_TOKEN"

[hosts."thing.com"]
user = "jess"
token = "MY_TOKEN""#,
    )
    .unwrap();

    let user = c.get("thing.com", "user").unwrap();
    assert_eq!(user, "jess");

    let token = c.get("thing.com", "token").unwrap();
    assert_eq!(token, "MY_TOKEN");

    let user = c.get("example.org", "user").unwrap();
    assert_eq!(user, "new_user");

    let token = c.get("example.org", "token").unwrap();
    assert_eq!(token, "EXAMPLE_TOKEN");

    c.set("example.org", "default", "true").unwrap();
    assert_eq!(c.default_host().unwrap(), "example.org".to_string());

    c.unset_host("thing.com").unwrap();
    let token = c.get("thing.com", "token");
    assert!(token.is_err());

    let expected = r#"["example.org"]
user = "new_user"
token = "EXAMPLE_TOKEN"
default = true"#;
    assert_eq!(c.hosts_to_string().unwrap(), expected);
}

#[test]
fn test_validate_key() {
    let result = validate_key("invalid").unwrap_err();
    assert_eq!(result.to_string(), "invalid key: invalid");

    let result = validate_key("editor");
    assert!(result.is_ok());

    let result = validate_key("browser");
    assert!(result.is_ok());
}

#[test]
fn test_validate_value() {
    let result = validate_value("prompt", "invalid").unwrap_err();
    assert_eq!(
        result.to_string(),
        "invalid values, valid values: [\"enabled\", \"disabled\"]"
    );

    let result = validate_value("editor", "vim");
    assert!(result.is_ok());

    let result = validate_value("browser", "firefox");
    assert!(result.is_ok());

    let result = validate_value("prompt", "enabled");
    assert!(result.is_ok());
}
