use dsync::error::DsyncError;
use dsync::git::{
    blob_url_from, dir_of_parent, git_blob_url_for_path, git_start_dir, locate_missing, path_dir,
    parse_github_remote_to_https, PathKind,
};

#[test]
fn converts_ssh_remote_to_https() {
    let remote = parse_github_remote_to_https("git@github.com:owner/repo.git").unwrap();
    assert_eq!(remote, "https://github.com/owner/repo");
}

#[test]
fn converts_https_remote_to_https_without_git_suffix() {
    let remote = parse_github_remote_to_https("https://github.com/owner/repo.git").unwrap();
    assert_eq!(remote, "https://github.com/owner/repo");
}

#[test]
fn keeps_remote_without_suffix_and_strips_repeated_suffix() {
    assert_eq!(
        parse_github_remote_to_https("https://github.com/owner/repo").unwrap(),
        "https://github.com/owner/repo"
    );
    assert_eq!(
        parse_github_remote_to_https("git@github.com:o/r.git.git").unwrap(),
        "https://github.com/o/r"
    );
}

#[test]
fn refuses_other_remotes() {
    let err = parse_github_remote_to_https("https://gitlab.com/o/r.git").unwrap_err();
    match &err {
        DsyncError::UnsupportedRemote { remote } => assert_eq!(remote, "https://gitlab.com/o/r.git"),
        other => panic!("unexpected {other:?}"),
    }
    assert_eq!(
        err.message(),
        "Unsupported git remote for generating gitUrl: https://gitlab.com/o/r.git"
    );
}

#[test]
fn start_dir_is_parent_of_a_file() {
    assert_eq!(git_start_dir("/repo/docs/a.md", PathKind::File), "/repo/docs");
    assert_eq!(git_start_dir("/repo/docs", PathKind::Dir), "/repo/docs");
    assert_eq!(git_start_dir("/repo/fifo", PathKind::Other), "/repo/fifo");
    assert_eq!(git_start_dir("/", PathKind::File), ".");
    assert_eq!(git_start_dir("a.md", PathKind::File), ".");
}

#[test]
fn blob_url_from_git_answers() {
    let url = git_blob_url_for_path("/r/docs/a.md", "/r", "git@github.com:acme/project.git", "main")
        .unwrap();
    assert_eq!(url, "https://github.com/acme/project/blob/main/docs/a.md");
}

#[test]
fn blob_url_needs_file_inside_root_and_github_remote() {
    assert!(matches!(
        git_blob_url_for_path("/other/a.md", "/r", "git@github.com:o/r.git", "main"),
        Err(DsyncError::RelativePath)
    ));
    assert!(matches!(
        git_blob_url_for_path("/r/a.md", "/r", "ssh://example.org/r.git", "main"),
        Err(DsyncError::UnsupportedRemote { .. })
    ));
}

#[test]
fn blob_url_from_relative_path() {
    assert_eq!(
        blob_url_from(Some("docs\\sub\\a.md".to_string()), "https://github.com/o/r", "dev").unwrap(),
        "https://github.com/o/r/blob/dev/docs/sub/a.md"
    );
    assert!(matches!(blob_url_from(None, "git@github.com:o/r.git", "main"), Err(DsyncError::RelativePath)));
    match blob_url_from(Some("a.md".to_string()), "file:///srv/r.git", "main") {
        Err(DsyncError::UnsupportedRemote { remote }) => assert_eq!(remote, "file:///srv/r.git"),
        other => panic!("unexpected {other:?}"),
    }
}

#[test]
fn directory_of_parent_or_dot() {
    assert_eq!(dir_of_parent(Some("/repo".to_string())), "/repo");
    assert_eq!(dir_of_parent(None), ".");
    assert_eq!(dir_of_parent(Some(String::new())), ".");
    assert_eq!(path_dir("docs/a.md"), "docs");
    assert_eq!(path_dir("a.md"), ".");
}

#[test]
fn missing_file_is_placed_under_its_directory() {
    assert_eq!(locate_missing(Some("/w/sub".to_string()), "team-notes.md"), "/w/sub/team-notes.md");
    assert_eq!(locate_missing(Some("/w".to_string()), "docs/a.md"), "/w/a.md");
    assert_eq!(locate_missing(None, "a.md"), "a.md");
    assert_eq!(locate_missing(Some("/w".to_string()), ".."), "..");
}
