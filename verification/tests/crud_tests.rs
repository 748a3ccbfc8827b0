use oxide::colors::ColorScheme;
use oxide::confirm::ConfirmStep;
use oxide::crud::{
    check_edit, check_list_limit, created_message, delete_step, deleted_message, edited_message, flag_label,
    missing_required_flag,
};

fn plain() -> ColorScheme {
    ColorScheme::new(false, false, false)
}

fn flags(pairs: &[(&str, &str)]) -> Vec<(String, String)> {
    pairs.iter().map(|(f, v)| (f.to_string(), v.to_string())).collect()
}

#[test]
fn crud_required_flags() {
    let given = flags(&[("[instance]", "my-db"), ("-o|--organization", ""), ("-p|--project", "")]);
    assert_eq!(missing_required_flag(true, &given), None);
    assert_eq!(
        missing_required_flag(false, &given),
        Some("-o|--organization required in non-interactive mode".to_string())
    );
    let all = flags(&[("[instance]", "my-db"), ("-o|--organization", "maze-war")]);
    assert_eq!(missing_required_flag(false, &all), None);
    let none = flags(&[("[instance]", "")]);
    assert_eq!(missing_required_flag(false, &none), Some("[instance] required in non-interactive mode".to_string()));
}

#[test]
fn crud_flag_labels() {
    assert_eq!(flag_label("instance", "instances").unwrap(), "[instance]");
    assert_eq!(flag_label("organization", "instances").unwrap(), "-o|--organization");
    assert_eq!(flag_label("project", "instances").unwrap(), "-p|--project");
    assert_eq!(flag_label("description", "instances").unwrap(), "-D|--description");
    assert_eq!(flag_label("ncpus", "instances").unwrap(), "-c|--ncpus");
    assert_eq!(flag_label("memory", "instances").unwrap(), "-m|--memory");
    assert_eq!(flag_label("size", "disks").unwrap(), "--size");
}

#[test]
fn crud_messages() {
    let cs = plain();
    assert_eq!(created_message(&cs, "organization", "maze-war", None), "✔ Created organization maze-war");
    assert_eq!(created_message(&cs, "project", "maze-war/development", None), "✔ Created project maze-war/development");
    assert_eq!(
        created_message(&cs, "instance", "my-db", Some("maze-war/development")),
        "✔ Created instance my-db in maze-war/development"
    );
    assert_eq!(
        created_message(&cs, "VPC", "new-network", Some("maze-war/development")),
        "✔ Created VPC new-network in maze-war/development"
    );
    assert_eq!(
        deleted_message(&cs, "disk", "second-disk", Some("maze-war/development")),
        "✔ Deleted disk second-disk from maze-war/development"
    );
    assert_eq!(deleted_message(&cs, "project", "maze-war/prod-for-reals", None), "✔ Deleted project maze-war/prod-for-reals");
    assert_eq!(deleted_message(&cs, "organization", "dune", None), "✔ Deleted organization dune");
    assert_eq!(edited_message(&cs, "organization", "zoo", Some("zoo-2"), None), "✔ Edited organization zoo -> zoo-2");
    assert_eq!(edited_message(&cs, "organization", "dune", None, None), "✔ Edited organization dune");
    assert_eq!(edited_message(&cs, "organization", "dune", Some(""), None), "✔ Edited organization dune");
    assert_eq!(
        edited_message(&cs, "subnet", "a", Some("b"), Some("maze-war/development")),
        "✔ Edited subnet a -> b in maze-war/development"
    );
    // With colours on, an edit without a rename gets a red check mark.
    let colored = ColorScheme::new(true, false, false);
    assert_eq!(edited_message(&colored, "organization", "dune", None, None), "\u{1b}[31m✔\u{1b}[0m Edited organization dune");
}

#[test]
fn crud_checks() {
    assert_eq!(check_list_limit(0).unwrap_err(), "--limit must be greater than 0");
    assert!(check_list_limit(30).is_ok());
    assert_eq!(check_edit(&vec![false, false]).unwrap_err(), "nothing to edit");
    assert!(check_edit(&vec![false, true]).is_ok());
    assert!(check_edit(&vec![]).is_err());
    match delete_step(false, false, "dune") {
        ConfirmStep::Fail(m) => assert_eq!(m, "--confirm required when not running interactively"),
        _ => panic!("expected a failure"),
    }
    match delete_step(true, false, "dune") {
        ConfirmStep::Ask { prompt, expected } => {
            assert_eq!(prompt, "Type dune to confirm deletion:");
            assert_eq!(expected, "dune");
        }
        _ => panic!("expected a question"),
    }
    assert!(matches!(delete_step(false, true, "dune"), ConfirmStep::Proceed));
}
