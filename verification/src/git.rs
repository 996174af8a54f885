//! The `gitUrl` of a file: its GitHub blob URL on the current branch.

use vstd::prelude::*;
use crate::cli::{join_path, path_join};
use crate::error::DsyncError;
use crate::text::{
    chars_of, ends_with, extend, extend_str, lemma_strip_trailing_prefix, replace_char,
    replace_char_vec, slice, starts_with, starts_with_vec, strip_trailing, strip_trailing_vec,
    string_of,
};

verus! {

pub open spec fn ssh_prefix() -> Seq<char> {
    "git@github.com:"@
}

pub open spec fn https_prefix() -> Seq<char> {
    "https://github.com/"@
}

/// The HTTPS URL of a GitHub remote given by SSH (`git@github.com:o/r.git`) or
/// HTTPS (`https://github.com/o/r.git`), without the `.git` suffixes.
pub open spec fn github_https(remote: Seq<char>) -> Option<Seq<char>> {
    if starts_with(remote, ssh_prefix()) {
        Some(https_prefix() + strip_trailing(remote.skip(ssh_prefix().len() as int), ".git"@))
    } else if starts_with(remote, https_prefix()) {
        Some(https_prefix() + strip_trailing(remote.skip(https_prefix().len() as int), ".git"@))
    } else {
        None
    }
}

/// Turns a GitHub remote into its HTTPS URL; any other remote is refused.
pub fn parse_github_remote_to_https(remote: &str) -> (r: Result<String, DsyncError>)
    ensures
        match r {
            Ok(url) => github_https(remote@) == Some(url@),
            Err(e) => github_https(remote@) is None && (e matches DsyncError::UnsupportedRemote {
                remote: given,
            } && given@ == remote@),
        },
        r matches Ok(url) ==> starts_with(url@, https_prefix()) && !ends_with(url@, ".git"@),
{
    let s = chars_of(remote);
    let ssh = chars_of("git@github.com:");
    let https = chars_of("https://github.com/");
    let suffix = chars_of(".git");
    proof {
        reveal_strlit(".git");
    }
    let stripped = if starts_with_vec(&s, &ssh) {
        slice(&s, ssh.len(), s.len())
    } else if starts_with_vec(&s, &https) {
        slice(&s, https.len(), s.len())
    } else {
        return Err(DsyncError::UnsupportedRemote { remote: String::from_str(remote) });
    };
    let repo = strip_trailing_vec(&stripped, &suffix);
    let mut out = https.clone();
    assert(out@ =~= https@);
    extend(&mut out, &repo);
    proof {
        lemma_strip_trailing_prefix(stripped@, ".git"@);
        assert(out@.subrange(0, https@.len() as int) =~= https@);
        if ends_with(out@, ".git"@) {
            if repo@.len() >= 4 {
                assert(out@.subrange(out@.len() - 4, out@.len() as int) =~= repo@.subrange(
                    repo@.len() - 4,
                    repo@.len() as int,
                ));
            } else {
                reveal_strlit("https://github.com/");
                let k = out@.len() - 4;
                assert(out@.subrange(k, out@.len() as int)[0] == out@[k]);
                assert(out@[k] == '.');
                if k < https@.len() {
                    assert(out@[k] == https@[k]);
                }
                assert(false);
            }
        }
    }
    Ok(string_of(&out))
}

/// `Path::parent` of a path, under the path rules of the target the crate is
/// built for.
pub uninterp spec fn path_parent(path: Seq<char>) -> Option<Seq<char>>;

/// `Path::parent` of `path`, as text (a prefix of a `str`, so valid UTF-8).
/// The contract claims only that the result is determined by the path.
#[verifier::external_body]
fn parent_of(path: &str) -> (r: Option<String>)
    ensures
        r.deep_view() == path_parent(path@),
{
    std::path::Path::new(path).parent().and_then(|p| p.to_str()).map(|p| p.to_string())
}

/// `Path::strip_prefix`: `path` relative to `base`, when `base` is one of its
/// ancestors, under the path rules of the target the crate is built for.
pub uninterp spec fn path_strip_prefix(path: Seq<char>, base: Seq<char>) -> Option<Seq<char>>;

/// `Path::strip_prefix(base)` of `path`, as text. The contract claims only that
/// the result is determined by the two paths.
#[verifier::external_body]
fn relative_to(path: &str, base: &str) -> (r: Option<String>)
    ensures
        r.deep_view() == path_strip_prefix(path@, base@),
{
    std::path::Path::new(path).strip_prefix(base).ok().and_then(|p| p.to_str()).map(
        |p| p.to_string(),
    )
}

/// `Path::file_name`: the last component of a path, unless it is `..`, under
/// the path rules of the target the crate is built for.
pub uninterp spec fn path_file_name(path: Seq<char>) -> Option<Seq<char>>;

/// `Path::file_name` of `path`, as text (a part of a `str`, so valid UTF-8).
/// The contract claims only that the result is determined by the path.
#[verifier::external_body]
fn file_name_of(path: &str) -> (r: Option<String>)
    ensures
        r.deep_view() == path_file_name(path@),
{
    std::path::Path::new(path).file_name().and_then(|n| n.to_str()).map(|n| n.to_string())
}

/// What a path turns out to be on disk.
#[derive(Clone, Copy, Debug, PartialEq, Eq, Structural)]
pub enum PathKind {
    /// An existing file.
    File,
    /// An existing directory.
    Dir,
    /// Neither a regular file nor a directory (or nothing that can be read).
    Other,
}

/// The directory a file lies in: its parent, or `.` when that is empty or
/// there is none.
pub open spec fn dir_from_parent(parent: Option<Seq<char>>) -> Seq<char> {
    match parent {
        Some(p) => if p.len() > 0 {
            p
        } else {
            "."@
        },
        None => "."@,
    }
}

/// The directory of a file from its parent path (when it has one).
pub fn dir_of_parent(parent: Option<String>) -> (r: String)
    ensures
        r@ == dir_from_parent(parent.deep_view()),
{
    match parent {
        Some(p) => {
            let v = chars_of(p.as_str());
            if v.len() > 0 {
                p
            } else {
                String::from_str(".")
            }
        },
        None => String::from_str("."),
    }
}

/// The directory a path lies in (`.` for a bare file name).
pub open spec fn dir_of_path(path: Seq<char>) -> Seq<char> {
    dir_from_parent(path_parent(path))
}

/// The directory of `path`.
pub fn path_dir(path: &str) -> (r: String)
    ensures
        r@ == dir_of_path(path@),
{
    dir_of_parent(parent_of(path))
}

/// The directory where git is asked for the repository: the directory that
/// holds a regular file, the path itself for anything else.
pub open spec fn git_start_dir_of(absolute: Seq<char>, kind: PathKind) -> Seq<char> {
    match kind {
        PathKind::File => dir_of_path(absolute),
        _ => absolute,
    }
}

/// Where to run `git rev-parse --show-toplevel` for `absolute`.
pub fn git_start_dir(absolute: &str, kind: PathKind) -> (r: String)
    ensures
        r@ == git_start_dir_of(absolute@, kind),
{
    match kind {
        PathKind::File => path_dir(absolute),
        _ => String::from_str(absolute),
    }
}

/// The absolute path of a file that does not exist yet: its name under the
/// canonical form of its directory (when that has one, and the path has a
/// name); the path as given otherwise.
pub open spec fn located_path(dir: Option<Seq<char>>, path: Seq<char>) -> Seq<char> {
    match dir {
        Some(d) => match path_file_name(path) {
            Some(name) => path_join(d, name),
            None => path,
        },
        None => path,
    }
}

/// Places a file that does not exist yet under `dir`, the canonical form of
/// its directory (when there is one).
pub fn locate_missing(dir: Option<String>, path: &str) -> (r: String)
    ensures
        r@ == located_path(dir.deep_view(), path@),
{
    match dir {
        Some(d) => match file_name_of(path) {
            Some(name) => join_path(d.as_str(), name.as_str()),
            None => String::from_str(path),
        },
        None => String::from_str(path),
    }
}

/// The blob URL of a file from its path inside the repository (none when it
/// lies outside), the remote and the branch:
/// `{https remote}/blob/{branch}/{path}`, with backslashes of the path turned
/// into slashes.
pub open spec fn blob_url_of(
    relative: Option<Seq<char>>,
    remote: Seq<char>,
    branch: Seq<char>,
) -> Option<Seq<char>> {
    match relative {
        Some(rel) => match github_https(remote) {
            Some(base) => Some(base + "/blob/"@ + branch + "/"@ + replace_char(rel, '\\', '/')),
            None => None,
        },
        None => None,
    }
}

/// The blob URL of a file, from its path relative to the repository root
/// (a file outside the root has none), the `origin` remote and the branch.
pub fn blob_url_from(relative: Option<String>, remote: &str, branch: &str) -> (r: Result<
    String,
    DsyncError,
>)
    ensures
        match r {
            Ok(url) => blob_url_of(relative.deep_view(), remote@, branch@) == Some(url@),
            Err(e) => blob_url_of(relative.deep_view(), remote@, branch@) is None && match relative {
                None => e is RelativePath,
                Some(_) => e matches DsyncError::UnsupportedRemote { remote: given } && given@
                    == remote@,
            },
        },
{
    let rel = match relative {
        Some(rel) => rel,
        None => return Err(DsyncError::RelativePath),
    };
    let rel_chars = chars_of(rel.as_str());
    let rel_fixed = replace_char_vec(&rel_chars, '\\', '/');
    let base = parse_github_remote_to_https(remote)?;
    let mut out = chars_of(base.as_str());
    extend_str(&mut out, "/blob/");
    extend_str(&mut out, branch);
    extend_str(&mut out, "/");
    extend(&mut out, &rel_fixed);
    Ok(string_of(&out))
}

/// The blob URL of the file at `absolute`, given what git reported: the
/// repository root, the `origin` remote and the current branch.
pub open spec fn git_blob_url_of(
    absolute: Seq<char>,
    repo_root: Seq<char>,
    remote: Seq<char>,
    branch: Seq<char>,
) -> Option<Seq<char>> {
    blob_url_of(path_strip_prefix(absolute, repo_root), remote, branch)
}

/// Composes the `gitUrl` of a file from what git reported: the repository
/// root, the `origin` remote and the current branch.
pub fn git_blob_url_for_path(absolute: &str, repo_root: &str, remote: &str, branch: &str) -> (r: Result<
    String,
    DsyncError,
>)
    ensures
        match r {
            Ok(url) => git_blob_url_of(absolute@, repo_root@, remote@, branch@) == Some(url@),
            Err(_) => git_blob_url_of(absolute@, repo_root@, remote@, branch@) is None,
        },
{
    blob_url_from(relative_to(absolute, repo_root), remote, branch)
}

} // verus!
