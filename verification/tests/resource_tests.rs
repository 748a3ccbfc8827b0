use oxide::cli::{command_line, dispatch, error_report, CommandError, Dispatch};
use oxide::cmd_api::{header_table, header_text, sort_headers, text_less, CmdApi, FieldValue, ResponseStep};
use oxide::cmd_disk::{CmdDiskAttach, CmdDiskDetach};
use oxide::cmd_instance::{CmdInstanceReboot, CmdInstanceStart, CmdInstanceStop};
use oxide::cmd_org::{CmdOrganizationDelete, CmdOrganizationView};
use oxide::cmd_project::CmdProjectEdit;
use oxide::cmd_route::{check_limit, CmdRouteList, CmdRouteView, RouteDetails, RouteSummary};
use oxide::cmd_router::CmdRouterEdit;
use oxide::cmd_ssh_key::{public_key_path, parse_algorithm, CmdSSHKeyDelete, CmdSSHKeyGenerate, CmdSSHKeySyncFromGithub, KeySpec};
use oxide::cmd_update::CmdUpdate;
use oxide::cmd_vpc::CmdVpcEdit;
use oxide::colors::ColorScheme;
use oxide::config::{new_blank_config, Config};
use oxide::config_alias::AliasConfig;
use oxide::confirm::{confirmation_matches, ConfirmStep};
use oxide::docs::{ArgDoc, CommandDoc, SubcommandDoc};
use oxide::docs_man::{markers, render_man, synopsis};
use oxide::docs_markdown::app_to_markdown;
use oxide::serial::filter_serial_input;
use oxide::ssh::SSHKeyAlgorithm;
use oxide::text::{join_first, split_char};

fn plain() -> ColorScheme {
    ColorScheme::new(false, false, false)
}

fn strings(v: &[&str]) -> Vec<String> {
    v.iter().map(|s| s.to_string()).collect()
}

#[test]
fn dispatch_commands_and_aliases() {
    let mut c = new_blank_config().unwrap();
    let mut aliases = AliasConfig { map: oxide::config_map::ConfigMap::new() };
    aliases.add("co", "completion -s zsh").unwrap();
    aliases.add("sh", "!echo hi").unwrap();
    c.save_aliases(&aliases.map).unwrap();

    let args = strings(&["oxide", "version"]);
    assert_eq!(command_line(&args), "version");
    match dispatch(args, true, &c).unwrap() {
        Dispatch::Parse(v) => assert_eq!(v, strings(&["oxide", "version"])),
        _ => panic!("expected a parse"),
    }
    match dispatch(strings(&["oxide", "co", "extra"]), false, &c).unwrap() {
        Dispatch::Parse(v) => assert_eq!(v, strings(&["oxide", "completion", "-s", "zsh", "extra"])),
        _ => panic!("expected a parse"),
    }
    match dispatch(strings(&["oxide", "sh", "a"]), false, &c).unwrap() {
        Dispatch::Shell(v) => assert_eq!(v, strings(&["-c", "echo hi", "--", "a"])),
        _ => panic!("expected a shell"),
    }
    assert_eq!(command_line(&strings(&["oxide", "api", "a b"])), "api 'a b'");
}

#[test]
fn error_reports() {
    let cs = plain();
    assert_eq!(error_report(&CommandError::ObjectNotFound("disk".to_string()), &cs), strings(&["✘ Object not found: disk"]));
    assert_eq!(
        error_report(&CommandError::Unauthenticated("bad token".to_string()), &cs),
        strings(&["✘ You are not authenticated: bad token", "Try authenticating with: `oxide auth login`"])
    );
    assert_eq!(error_report(&CommandError::Forbidden, &cs), strings(&["✘ You are not authorized to perform this action"]));
    assert_eq!(error_report(&CommandError::Other("boom".to_string()), &cs), strings(&["boom"]));
}

fn api(paginate: bool) -> CmdApi {
    CmdApi {
        endpoint: "/organizations".to_string(),
        method: Some("GET".to_string()),
        paginate,
        field: vec![],
        raw_field: vec![],
        input: String::new(),
        show_headers: false,
    }
}

#[test]
fn api_response_steps() {
    assert!(matches!(api(false).after_response("/o", 204, "204 No Content", "No Content", None), ResponseStep::NoContent));
    match api(false).after_response("/o", 404, "404 Not Found", "Not Found", None) {
        ResponseStep::Fail(m) => assert_eq!(m, "404 Not Found Not Found"),
        _ => panic!("expected a failure"),
    }
    assert!(matches!(api(false).after_response("/o", 200, "200 OK", "OK", None), ResponseStep::Print));
    match api(true).after_response("/o?limit=2", 200, "200 OK", "OK", Some("tok")) {
        ResponseStep::NextPage(e) => assert_eq!(e, "/o?limit=2&page_token=tok"),
        _ => panic!("expected the next page"),
    }
    assert!(matches!(api(true).after_response("/o", 200, "200 OK", "OK", None), ResponseStep::LastPage));
}

#[test]
fn instance_and_disk_messages() {
    let cs = plain();
    let start = CmdInstanceStart { instance: "db".to_string(), project: "p".to_string(), organization: "o".to_string() };
    assert_eq!(start.started_message(&cs), "✔ Started instance db in o/p");
    let stop =
        CmdInstanceStop { instance: "db".to_string(), project: "p".to_string(), organization: "o".to_string(), confirm: false };
    match stop.begin(false) {
        ConfirmStep::Fail(m) => assert_eq!(m, "--confirm required when not running interactively"),
        _ => panic!("expected a failure"),
    }
    match stop.begin(true) {
        ConfirmStep::Ask { prompt, expected } => {
            assert_eq!(prompt, "Type db to confirm stop:");
            assert_eq!(expected, "o/p");
        }
        _ => panic!("expected a question"),
    }
    assert_eq!(stop.stopped_message(&cs), "✘ Stopped instance db in o/p");
    let reboot =
        CmdInstanceReboot { instance: "db".to_string(), project: "p".to_string(), organization: "o".to_string(), confirm: true };
    assert!(matches!(reboot.begin(false), ConfirmStep::Proceed));
    assert_eq!(reboot.rebooted_message(&cs), "✔ Rebooted instance db in o/p");
    assert!(confirmation_matches("  o/p \n", "o/p"));
    assert!(!confirmation_matches("db", "o/p"));

    let attach = CmdDiskAttach {
        disk: "d1".to_string(),
        instance: "db".to_string(),
        project: "p".to_string(),
        organization: "o".to_string(),
    };
    assert_eq!(attach.attached_message(&cs), "✔ Attached disk d1 to instance db in project o/p");
    let detach = CmdDiskDetach {
        disk: "d1".to_string(),
        instance: "db".to_string(),
        project: "p".to_string(),
        organization: "o".to_string(),
    };
    assert_eq!(detach.detached_message(&cs), "✔ Detached disk d1 from instance db in project o/p");
}

#[test]
fn organization_commands() {
    let cs = plain();
    let mut c = new_blank_config().unwrap();
    c.set("oxide.internal", "token", "t").unwrap();
    let view = CmdOrganizationView { organization: "acme".to_string(), web: true, json: false };
    assert_eq!(view.web_url(&c).unwrap(), "https://oxide.internal/acme");
    let delete = CmdOrganizationDelete { organization: "acme".to_string(), confirm: false };
    match delete.begin(true) {
        ConfirmStep::Ask { prompt, expected } => {
            assert_eq!(prompt, "Type acme to confirm deletion:");
            assert_eq!(expected, "acme");
        }
        _ => panic!("expected a question"),
    }
    assert_eq!(delete.deleted_message(&cs), "✔ Deleted organization acme");
}

#[test]
fn edit_commands() {
    let cs = plain();
    let none = CmdProjectEdit {
        project: "p".to_string(),
        organization: "o".to_string(),
        new_name: None,
        new_description: None,
    };
    assert_eq!(none.update().err().unwrap(), "nothing to edit");
    let rename = CmdProjectEdit {
        project: "p".to_string(),
        organization: "o".to_string(),
        new_name: Some("q".to_string()),
        new_description: None,
    };
    let u = rename.update().unwrap();
    assert_eq!((u.name.as_str(), u.description.as_str()), ("q", ""));
    assert_eq!(rename.edited_message(&cs), "✔ Edited project o/p -> o/q");

    let vpc = CmdVpcEdit {
        vpc: "v".to_string(),
        project: "p".to_string(),
        organization: "o".to_string(),
        new_name: None,
        new_description: None,
        new_dns_name: Some("dns".to_string()),
    };
    assert_eq!(vpc.update().unwrap().dns_name, "dns");
    assert_eq!(vpc.edited_message(&cs), "✔ Edited VPC v in o/p");

    let router = CmdRouterEdit {
        router: "r".to_string(),
        vpc: "v".to_string(),
        project: "p".to_string(),
        organization: "o".to_string(),
        new_name: Some("s".to_string()),
        new_description: Some("d".to_string()),
    };
    assert_eq!(router.update().unwrap().description, "d");
    assert_eq!(router.edited_message(&cs), "✔ Edited router s in o/p VPC v");
}

#[test]
fn route_tables() {
    let cs = plain();
    assert_eq!(check_limit(0).unwrap_err(), "--limit must be greater than 0");
    let list = CmdRouteList {
        router: "r".to_string(),
        vpc: "v".to_string(),
        project: "p".to_string(),
        organization: "o".to_string(),
        limit: 30,
        paginate: false,
        json: false,
    };
    assert!(list.check().is_ok());
    let routes = vec![RouteSummary {
        name: "default".to_string(),
        description: "d".to_string(),
        kind: "default".to_string(),
        destination: "vpc:v".to_string(),
        target: "gw".to_string(),
        router_id: "r1".to_string(),
        last_updated: "2 days ago".to_string(),
    }];
    let table = list.table(&routes, &cs);
    let lines: Vec<&str> = table.lines().collect();
    assert!(lines[0].starts_with("NAME"));
    assert!(lines[1].starts_with("default"));
    assert!(lines[1].ends_with("2 days ago"));

    let view = CmdRouteView {
        route: "default".to_string(),
        router: "r".to_string(),
        vpc: "v".to_string(),
        project: "p".to_string(),
        organization: "o".to_string(),
        web: false,
        json: false,
    };
    let d = RouteDetails {
        id: "1".to_string(),
        name: "default".to_string(),
        description: "d".to_string(),
        kind: "default".to_string(),
        destination: "vpc:v".to_string(),
        target: "gw".to_string(),
        router_id: "r1".to_string(),
        created: Some("3 days ago".to_string()),
        modified: None,
    };
    let t = view.table(&d);
    assert!(t.starts_with("id:"));
    assert!(t.contains("created:"));
    assert!(!t.contains("modified:"));
    let mut c = new_blank_config().unwrap();
    c.set("h.example", "token", "t").unwrap();
    assert_eq!(view.web_url(&c).unwrap(), "https://h.example/o/p/routes/default");
}

#[test]
fn ssh_key_commands() {
    let cs = plain();
    let sync = CmdSSHKeySyncFromGithub { github_username: "jessfraz".to_string(), remove_unsynced_keys: false };
    assert!(sync.key_names(0).is_empty());
    assert_eq!(sync.key_names(1), strings(&["jessfraz"]));
    assert_eq!(sync.key_names(3), strings(&["jessfraz-0", "jessfraz-1", "jessfraz-2"]));
    assert_eq!(sync.key_description(""), "From GitHub user jessfraz");
    assert_eq!(sync.key_description("laptop"), "laptop");
    assert_eq!(sync.synced_message(&cs), "✔ Oxide SSH keys synced with GitHub user jessfraz!");
    let delete = CmdSSHKeyDelete { name: "k".to_string() };
    assert_eq!(delete.deleted_message(&cs), "✔ Deleted SSH key k");
    assert_eq!(parse_algorithm("RSA").unwrap(), SSHKeyAlgorithm::Rsa);
    assert_eq!(parse_algorithm("dsa").unwrap_err(), "supported types are `ecdsa`, `ed25512`, and `rsa`");
    let gen = |t, size| CmdSSHKeyGenerate {
        private_key_file: "id".to_string(),
        key_type: t,
        key_size: size,
        comment: String::new(),
        name: None,
        description: None,
    };
    assert!(matches!(gen(SSHKeyAlgorithm::Rsa, None).key_spec(), Ok(KeySpec::Rsa(3072))));
    assert!(matches!(gen(SSHKeyAlgorithm::Ecdsa, Some(256)).key_spec(), Ok(KeySpec::EcdsaP256)));
    assert_eq!(gen(SSHKeyAlgorithm::Ecdsa, Some(384)).key_spec().err().unwrap(), "ECDSA key length must be 256");
    assert_eq!(gen(SSHKeyAlgorithm::Rsa, None).rsa_label(4096), " Generating 4096 bit RSA key");
}

#[test]
fn update_plans() {
    let u = CmdUpdate {};
    assert_eq!(
        u.plan(true, "v1.0.0", "0.1.0").unwrap_err(),
        "You are running under Homebrew. Please run `brew upgrade oxide` instead."
    );
    assert_eq!(u.plan(false, "v0.1.0", "0.1.0").unwrap_err(), "You are already running the latest version (0.1.0) of `oxide`.");
    assert_eq!(u.plan(false, "v0.2.0", "0.1.0").unwrap(), "Updating from v0.1.0 to v0.2.0...");
    assert_eq!(u.updated_message(&plain(), "v0.2.0"), "✔ Updated to vv0.2.0!");
}

#[test]
fn split_and_join() {
    let parts = split_char("oxide auth  login", ' ');
    assert_eq!(parts, strings(&["oxide", "auth", "", "login"]));
    assert_eq!(join_first(&parts, 2, " "), "oxide auth");
    assert_eq!(split_char("", ' '), strings(&[""]));
}

fn arg(short: Option<char>, long: Option<&str>, help: &str) -> ArgDoc {
    ArgDoc {
        id: long.unwrap_or("arg").to_string(),
        short,
        long: long.map(|l| l.to_string()),
        help: Some(help.to_string()),
        long_help: None,
        required: false,
        hidden: false,
        positional: false,
        value_names: None,
        default_values: vec![],
        env: None,
    }
}

fn command(name: &str, about: Option<&str>, long_about: Option<&str>, subs: &[&str], args: Vec<ArgDoc>) -> CommandDoc {
    CommandDoc {
        name: name.to_string(),
        about: about.map(|a| a.to_string()),
        long_about: long_about.map(|a| a.to_string()),
        version: None,
        author: None,
        after_help: None,
        subcommands: subs
            .iter()
            .map(|s| SubcommandDoc { name: s.to_string(), about: Some(format!("The {} command.", s)), long_about: None, hidden: false })
            .collect(),
        subcommand_heading: None,
        subcommand_value_name: None,
        subcommand_required: true,
        args,
    }
}

#[test]
fn test_generate_markdown() {
    let doc = command(
        "login",
        Some("Authenticate with an Oxide host."),
        Some("Authenticate with an Oxide host.\n\nAlternatively, pass in a token."),
        &[],
        vec![arg(Some('H'), Some("host"), "The hostname of the Oxide instance to authenticate with.")],
    );
    let md = app_to_markdown(&doc, "oxide auth login").unwrap();
    assert!(md.contains("<dt><code>-H/--host</code></dt>"), "{}", md);
    assert!(md.contains("### About"), "{}", md);
    assert!(md.contains("Alternatively, pass in a token."));
    assert!(md.contains("### See also"));
    assert!(md.contains("[oxide auth](./oxide_auth)"), "{}", md);

    let root = command("oxide", None, None, &["auth", "api"], vec![]);
    let md = app_to_markdown(&root, "oxide").unwrap();
    assert!(md.contains("### Subcommands"));
    assert!(md.contains("[oxide auth](./oxide_auth)"));
    assert!(!md.contains("See also"));
}

#[test]
fn test_generate_man_pages() {
    let mut root = command("oxide", Some("Work seamlessly with Oxide."), None, &["auth"], vec![]);
    root.version = Some("0.1.0".to_string());
    let auth = command(
        "auth",
        Some("Login, logout, and get the status of your authentication."),
        None,
        &["login", "logout"],
        vec![arg(Some('H'), Some("host"), "The host.")],
    );
    let page = render_man(&auth, "oxide auth", &root);
    assert!(page.starts_with(".TH OXIDE 1\n"), "{}", page);
    assert!(page.contains(".SH NAME\noxide\\-auth \\- Login, logout, and get the status of your authentication."), "{}", page);
    assert!(page.contains(".SH SYNOPSIS\n\\fIoxide auth\\fR [\\-H|\\-\\-host] <subcommands>"), "{}", page);
    assert!(page.contains("\\fBoxide(1)\\fR"), "{}", page);
    assert!(page.contains("\\fBoxide\\-auth\\-login(1)\\fR"), "{}", page);
    assert!(page.contains(".SH VERSION\nv0.1.0"), "{}", page);
    assert_eq!(markers(true), ("<", ">"));
    assert_eq!(markers(false), ("[", "]"));
    assert_eq!(synopsis(&root, "oxide"), "\\fIoxide\\fR <subcommands>");
}

#[test]
fn test_serial_console_keys() {
    // Plain bytes pass through.
    let r = filter_serial_input(false, &b"ls\n".to_vec());
    assert_eq!(r.out, b"ls\n".to_vec());
    assert!(!r.next_raw);
    assert!(!r.exit);
    // Ctrl-A then Ctrl-C sends the Ctrl-C itself.
    let r = filter_serial_input(false, &vec![b'a', 1, 3, b'b']);
    assert_eq!(r.out, vec![b'a', 3, b'b']);
    assert!(!r.exit);
    // Ctrl-A Ctrl-A sends one Ctrl-A.
    let r = filter_serial_input(false, &vec![1, 1]);
    assert_eq!(r.out, vec![1]);
    // A Ctrl-C on its own ends the session and drops what follows.
    let r = filter_serial_input(false, &vec![b'x', 3, b'y']);
    assert_eq!(r.out, vec![b'x']);
    assert!(r.exit);
    // A Ctrl-A at the end of a chunk escapes the first byte of the next one.
    let r = filter_serial_input(false, &vec![b'q', 1]);
    assert_eq!(r.out, vec![b'q']);
    assert!(r.next_raw);
    let r = filter_serial_input(true, &vec![3, b'z']);
    assert_eq!(r.out, vec![3, b'z']);
    assert!(!r.exit);
}

fn pair(k: &str, v: &str) -> (String, String) {
    (k.to_string(), v.to_string())
}

#[test]
fn test_sort_headers() {
    assert!(text_less("content-type", "date"));
    assert!(text_less("x", "xy"));
    assert!(!text_less("xy", "x"));
    assert!(!text_less("same", "same"));
    let headers = vec![
        pair("x-request-id", "\"1\""),
        pair("Date", "\"today\""),
        pair("content-type", "\"application/json\""),
        pair("date", "\"again\""),
    ];
    let sorted = sort_headers(&headers);
    let names: Vec<&str> = sorted.iter().map(|(k, _)| k.as_str()).collect();
    // Names that agree in lower case keep their order.
    assert_eq!(names, vec!["content-type", "Date", "date", "x-request-id"]);
}

#[test]
fn test_header_table() {
    let cs = ColorScheme::new(false, false, false);
    let headers = vec![pair("status", "\"200\""), pair("b", "\"2\""), pair("a", "\"1\"")];
    let text = header_text(&cs, &headers);
    assert_eq!(text, "a:  \"1\"\n\nb:  \"2\"\n\n");
    assert_eq!(header_table(&cs, &vec![pair("Status", "x")]), "");
}

#[test]
fn api_fields_and_method() {
    let mut cmd = api(false);
    cmd.field = vec!["n=42".to_string(), "b=true".to_string(), "z=null".to_string(), "s=hi".to_string(), "body=@-".to_string(), "f=1.5".to_string(), "p=@notes.txt".to_string()];
    cmd.raw_field = vec!["r=42".to_string()];
    let ps = cmd.parse_fields().unwrap();
    let names: Vec<&str> = ps.iter().map(|(k, _)| k.as_str()).collect();
    assert_eq!(names, vec!["r", "n", "b", "z", "s", "body", "f", "p"]);
    assert!(matches!(&ps[0].1, FieldValue::Str(v) if v == "42"));
    assert!(matches!(&ps[1].1, FieldValue::Int(42)));
    assert!(matches!(&ps[2].1, FieldValue::Bool(true)));
    assert!(matches!(&ps[3].1, FieldValue::Null));
    assert!(matches!(&ps[4].1, FieldValue::Typed(v) if v == "hi"));
    assert!(matches!(&ps[5].1, FieldValue::Stdin));
    assert!(matches!(&ps[6].1, FieldValue::Typed(v) if v == "1.5"));
    assert!(matches!(&ps[7].1, FieldValue::File(p) if p == "notes.txt"));

    // GET by default, POST when parameters are given, else the method given.
    let mut plain_get = api(false);
    plain_get.method = None;
    assert_eq!(plain_get.request_method(), "GET");
    cmd.method = None;
    assert_eq!(cmd.request_method(), "POST");
    cmd.method = Some("PUT".to_string());
    assert_eq!(cmd.request_method(), "PUT");
    cmd.paginate = true;
    assert!(cmd.check_paginate().is_err());
}

#[test]
fn edit_messages_name_the_change() {
    let cs = plain();
    let vpc = CmdVpcEdit {
        vpc: "netns".to_string(),
        project: "development".to_string(),
        organization: "maze-war".to_string(),
        new_name: Some("netns2".to_string()),
        new_description: Some("The real deal netns".to_string()),
        new_dns_name: None,
    };
    assert_eq!(vpc.edited_message(&cs), "✔ Edited VPC netns -> netns2 in maze-war/development");
    let project = CmdProjectEdit {
        project: "production".to_string(),
        organization: "maze-war".to_string(),
        new_name: Some("prod-for-reals".to_string()),
        new_description: Some("The real deal prod env".to_string()),
    };
    assert_eq!(project.edited_message(&cs), "✔ Edited project maze-war/production -> maze-war/prod-for-reals");
    let delete = CmdOrganizationDelete { organization: "dune".to_string(), confirm: true };
    assert_eq!(delete.deleted_message(&cs), "✔ Deleted organization dune");
}

#[test]
fn ssh_public_key_path() {
    assert_eq!(public_key_path("id.key"), "id.key.pub");
}
