use dsync::cli::{expand_tilde, Cli, Command};
use dsync::error::DsyncError;

#[test]
fn resolves_import_from_gdoc_when_only_doc_id_is_informed() {
    let cli = Cli {
        file: None,
        gdoc: Some(Some("abc123".to_string())),
        linear: None,
    };

    let command = cli.into_command("").unwrap();

    assert_eq!(
        command,
        Command::ImportFromGdoc {
            doc_id: "abc123".to_string()
        }
    );
}

#[test]
fn resolves_sync_when_file_is_present() {
    let cli = Cli {
        file: Some("docs/note.md".to_string()),
        gdoc: Some(None),
        linear: None,
    };

    let command = cli.into_command("").unwrap();

    assert_eq!(
        command,
        Command::Sync {
            path: "docs/note.md".into(),
            with_gdoc: true,
            with_linear: false,
        }
    );
}

#[test]
fn resolves_import_from_linear_when_alone() {
    let cli = Cli { file: None, gdoc: None, linear: Some(Some("lin-1".to_string())) };
    assert_eq!(
        cli.into_command("").unwrap(),
        Command::ImportFromLinear { doc_id: "lin-1".to_string() }
    );
}

#[test]
fn ids_with_a_file_mean_sync() {
    let cli = Cli {
        file: Some("a.md".to_string()),
        gdoc: Some(Some("x".to_string())),
        linear: Some(None),
    };
    assert_eq!(
        cli.into_command("").unwrap(),
        Command::Sync { path: "a.md".to_string(), with_gdoc: true, with_linear: true }
    );
}

#[test]
fn both_ids_without_file_is_missing_input() {
    let cli = Cli {
        file: None,
        gdoc: Some(Some("x".to_string())),
        linear: Some(Some("y".to_string())),
    };
    let err = cli.into_command("").unwrap_err();
    assert!(matches!(err, DsyncError::MissingInput));
    assert_eq!(err.message(), "Provide a .md file or use --gdoc <id> / --linear <id>");
}

#[test]
fn no_arguments_is_missing_input() {
    let cli = Cli { file: None, gdoc: None, linear: None };
    assert!(matches!(cli.into_command("/home/u"), Err(DsyncError::MissingInput)));
    let flags_only = Cli { file: None, gdoc: Some(None), linear: None };
    assert!(matches!(flags_only.into_command(""), Err(DsyncError::MissingInput)));
}

#[test]
fn sync_path_expands_tilde() {
    let cli = Cli { file: Some("~/docs/n.md".to_string()), gdoc: None, linear: None };
    assert_eq!(
        cli.into_command("/home/u").unwrap(),
        Command::Sync { path: "/home/u/docs/n.md".to_string(), with_gdoc: false, with_linear: false }
    );
}

#[test]
fn expand_tilde_cases() {
    assert_eq!(expand_tilde("docs/a.md", "/home/u"), "docs/a.md");
    assert_eq!(expand_tilde("~/a.md", "/home/u"), "/home/u/a.md");
    assert_eq!(expand_tilde("~a.md", "/home/u"), "/home/u/a.md");
    assert_eq!(expand_tilde("~", "/home/u"), "/home/u/");
    assert_eq!(expand_tilde("~/a.md", ""), "a.md");
    assert_eq!(expand_tilde("a~b", "/h"), "a~b");
    assert_eq!(expand_tilde("~/a.md", "/h/"), "/h/a.md");
    assert_eq!(expand_tilde("~//etc/x", "/h"), "/etc/x");
    assert_eq!(expand_tilde("~", ""), "");
}
