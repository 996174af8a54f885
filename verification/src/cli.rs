//! Resolving the command line into what to do.

use vstd::prelude::*;
use crate::error::DsyncError;
use crate::text::{chars_of, slice, starts_with, strip_leading, strip_leading_vec, string_of};

verus! {

/// The command line: an optional Markdown file, and `--gdoc` / `--linear`,
/// each absent, given alone, or given with a document id.
pub struct Cli {
    pub file: Option<String>,
    pub gdoc: Option<Option<String>>,
    pub linear: Option<Option<String>>,
}

/// What a run does.
#[derive(Debug, PartialEq, Eq)]
pub enum Command {
    /// Import a Google Doc into a Markdown file of the current directory.
    ImportFromGdoc { doc_id: String },
    /// Import a Linear Doc into a Markdown file of the current directory.
    ImportFromLinear { doc_id: String },
    /// Sync a Markdown file to the providers that are asked for or already linked.
    Sync { path: String, with_gdoc: bool, with_linear: bool },
}

/// `Path::join` (`PathBuf::push`) of `rest` onto `base` under Unix path rules,
/// those of the target the crate is built for: an absolute `rest` replaces
/// `base`; otherwise `rest` is appended, after a `/` when `base` is not empty
/// and does not already end with one.
pub open spec fn path_join(base: Seq<char>, rest: Seq<char>) -> Seq<char> {
    if rest.len() > 0 && rest[0] == '/' {
        rest
    } else if base.len() > 0 && base.last() != '/' {
        base + seq!['/'] + rest
    } else {
        base + rest
    }
}

/// `PathBuf::from(base).join(rest)` as text; both are `str`, so the joined
/// path is valid UTF-8. The contract claims that `PathBuf::push` follows
/// `path_join` (Unix rules).
#[verifier::external_body]
pub(crate) fn join_path(base: &str, rest: &str) -> (r: String)
    ensures
        r@ == path_join(base@, rest@),
{
    std::path::PathBuf::from(base).join(rest).to_string_lossy().into_owned()
}

/// `path` with a leading `~` replaced by the home directory: `~/x` is `x`
/// under `home`, `~~x` is `x` under `home`; other paths are kept.
pub open spec fn expanded_path(path: Seq<char>, home: Seq<char>) -> Seq<char> {
    if !starts_with(path, seq!['~']) {
        path
    } else if starts_with(path, seq!['~', '/']) {
        path_join(home, path.skip(2))
    } else {
        path_join(home, strip_leading(path, seq!['~']))
    }
}

/// Replaces a leading `~` of `path` by `home` (the value of `HOME`, empty when unset).
pub fn expand_tilde(path: &str, home: &str) -> (r: String)
    ensures
        r@ == expanded_path(path@, home@),
{
    let p = chars_of(path);
    if p.len() == 0 || p[0] != '~' {
        proof {
            if starts_with(path@, seq!['~']) {
                assert(path@.subrange(0, 1)[0] == path@[0]);
            }
        }
        return string_of(&p);
    }
    assert(p@.subrange(0, 1) =~= seq!['~']);
    let rest = if p.len() >= 2 && p[1] == '/' {
        assert(p@.subrange(0, 2) =~= seq!['~', '/']);
        slice(&p, 2, p.len())
    } else {
        proof {
            if starts_with(p@, seq!['~', '/']) {
                assert(p@.subrange(0, 2)[1] == p@[1]);
            }
        }
        let tilde = vec!['~'];
        assert(tilde@ =~= seq!['~']);
        strip_leading_vec(&p, &tilde)
    };
    assert(p@.skip(2) =~= p@.subrange(2, p@.len() as int));
    let rest_text = string_of(&rest);
    join_path(home, rest_text.as_str())
}

/// The document id to import from Google Docs: `--gdoc <id>` alone.
pub open spec fn gdoc_import_id(cli: Cli) -> Option<Seq<char>> {
    if cli.file is None && cli.linear is None {
        match cli.gdoc {
            Some(Some(id)) => Some(id@),
            _ => None,
        }
    } else {
        None
    }
}

/// The document id to import from Linear: `--linear <id>` alone.
pub open spec fn linear_import_id(cli: Cli) -> Option<Seq<char>> {
    if cli.file is None && cli.gdoc is None {
        match cli.linear {
            Some(Some(id)) => Some(id@),
            _ => None,
        }
    } else {
        None
    }
}

impl Cli {
    /// Decides what to do: a lone `--gdoc <id>` imports from Google Docs, a
    /// lone `--linear <id>` imports from Linear, otherwise the file is synced,
    /// with each provider whose flag is present; no file is an error.
    pub fn into_command(self, home: &str) -> (r: Result<Command, DsyncError>)
        ensures
            gdoc_import_id(self) matches Some(id) ==> r matches Ok(
                Command::ImportFromGdoc { doc_id },
            ) && doc_id@ == id,
            gdoc_import_id(self) is None ==> (linear_import_id(self) matches Some(id) ==> r matches Ok(
                Command::ImportFromLinear { doc_id },
            ) && doc_id@ == id),
            gdoc_import_id(self) is None && linear_import_id(self) is None ==> match self.file {
                Some(f) => r matches Ok(Command::Sync { path, with_gdoc, with_linear }) && path@
                    == expanded_path(f@, home@) && with_gdoc == self.gdoc is Some && with_linear
                    == self.linear is Some,
                None => r matches Err(DsyncError::MissingInput),
            },
    {
        if self.file.is_none() && self.linear.is_none() {
            if let Some(Some(doc_id)) = self.gdoc {
                return Ok(Command::ImportFromGdoc { doc_id });
            }
        }
        if self.file.is_none() && self.gdoc.is_none() {
            if let Some(Some(doc_id)) = self.linear {
                return Ok(Command::ImportFromLinear { doc_id });
            }
        }
        let with_gdoc = self.gdoc.is_some();
        let with_linear = self.linear.is_some();
        match self.file {
            Some(file) => Ok(
                Command::Sync { path: expand_tilde(file.as_str(), home), with_gdoc, with_linear },
            ),
            None => Err(DsyncError::MissingInput),
        }
    }
}

} // verus!
