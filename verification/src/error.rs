//! What can go wrong in a `dsync` run.

use vstd::prelude::*;
use crate::json::Json;

verus! {

/// A failed run, with the cause reported by the outside world where there is one.
#[derive(Debug)]
pub enum DsyncError {
    /// Neither a Markdown file nor a document id to import was given.
    MissingInput,
    /// The Markdown file could not be read.
    ReadFailed { path: String, cause: String },
    /// The frontmatter is not valid YAML for the expected keys.
    InvalidFrontmatter { cause: String },
    /// The frontmatter could not be serialised.
    SerializeFailed { cause: String },
    /// The Markdown file could not be written.
    WriteFailed { path: String, cause: String },
    /// `GOOGLE_ACCESS_TOKEN` is not set.
    MissingGoogleToken,
    /// `LINEAR_API_KEY` is not set.
    MissingLinearKey,
    /// An HTTP request failed; `context` says which step of which request.
    Request { context: String, cause: String },
    /// The Google Docs API created a document without reporting its id.
    MissingDocumentId,
    /// The `gdocUrl` of the frontmatter holds no document id.
    InvalidGdocUrl,
    /// The Linear GraphQL API answered with errors.
    Graphql { errors: Json },
    /// The Linear teams query answered without a list of teams.
    InvalidTeams,
    /// The Linear workspace has no team.
    NoTeams,
    /// The chosen Linear team has no id.
    TeamMissingId,
    /// An interactive prompt failed; `context` says which one.
    Prompt { context: String, cause: String },
    /// The `origin` remote is not a GitHub remote.
    UnsupportedRemote { remote: String },
    /// The file is not inside the repository root.
    RelativePath,
}

/// The headline of an error, as the command line prints it.
pub open spec fn error_message(e: DsyncError) -> Seq<char> {
    match e {
        DsyncError::MissingInput => "Provide a .md file or use --gdoc <id> / --linear <id>"@,
        DsyncError::ReadFailed { path, .. } => "Could not read "@ + path@,
        DsyncError::InvalidFrontmatter { .. } => "Invalid frontmatter YAML"@,
        DsyncError::SerializeFailed { .. } => "Failed to serialize frontmatter"@,
        DsyncError::WriteFailed { path, .. } => "Failed to write "@ + path@,
        DsyncError::MissingGoogleToken => "Set GOOGLE_ACCESS_TOKEN with a valid Google bearer token"@,
        DsyncError::MissingLinearKey => "Set LINEAR_API_KEY with a valid Linear token"@,
        DsyncError::Request { context, .. } => context@,
        DsyncError::MissingDocumentId => "documentId missing from Google response"@,
        DsyncError::InvalidGdocUrl => "Invalid gdocUrl in frontmatter"@,
        DsyncError::Graphql { .. } => "Linear GraphQL error: "@,
        DsyncError::InvalidTeams => "Invalid teams response"@,
        DsyncError::NoTeams => "No Linear team found"@,
        DsyncError::TeamMissingId => "Team is missing an id"@,
        DsyncError::Prompt { context, .. } => context@,
        DsyncError::UnsupportedRemote { remote } => "Unsupported git remote for generating gitUrl: "@
            + remote@,
        DsyncError::RelativePath => "Failed to calculate relative git path"@,
    }
}

/// `a` followed by `b`.
pub fn concat_str(a: &str, b: &str) -> (r: String)
    ensures
        r@ == a@ + b@,
{
    let mut r = String::from_str(a);
    r.append(b);
    r
}

impl DsyncError {
    /// The headline of this error; for `Graphql` the errors themselves follow it.
    pub fn message(&self) -> (r: String)
        ensures
            r@ == error_message(*self),
    {
        match self {
            DsyncError::MissingInput => String::from_str(
                "Provide a .md file or use --gdoc <id> / --linear <id>",
            ),
            DsyncError::ReadFailed { path, .. } => concat_str("Could not read ", path.as_str()),
            DsyncError::InvalidFrontmatter { .. } => String::from_str("Invalid frontmatter YAML"),
            DsyncError::SerializeFailed { .. } => String::from_str("Failed to serialize frontmatter"),
            DsyncError::WriteFailed { path, .. } => concat_str("Failed to write ", path.as_str()),
            DsyncError::MissingGoogleToken => String::from_str(
                "Set GOOGLE_ACCESS_TOKEN with a valid Google bearer token",
            ),
            DsyncError::MissingLinearKey => String::from_str(
                "Set LINEAR_API_KEY with a valid Linear token",
            ),
            DsyncError::Request { context, .. } => context.clone(),
            DsyncError::MissingDocumentId => String::from_str("documentId missing from Google response"),
            DsyncError::InvalidGdocUrl => String::from_str("Invalid gdocUrl in frontmatter"),
            DsyncError::Graphql { .. } => String::from_str("Linear GraphQL error: "),
            DsyncError::InvalidTeams => String::from_str("Invalid teams response"),
            DsyncError::NoTeams => String::from_str("No Linear team found"),
            DsyncError::TeamMissingId => String::from_str("Team is missing an id"),
            DsyncError::Prompt { context, .. } => context.clone(),
            DsyncError::UnsupportedRemote { remote } => concat_str(
                "Unsupported git remote for generating gitUrl: ",
                remote.as_str(),
            ),
            DsyncError::RelativePath => String::from_str("Failed to calculate relative git path"),
        }
    }
}

} // verus!
