//! The decision machine of a `dsync` run.
//!
//! A run is a sequence of steps. At each step the machine gets the outcome of
//! the last piece of outside work (an [`Event`]) and says what to do next (an
//! [`Action`]): read or write a file, parse or serialise frontmatter YAML, ask
//! git, call a provider API, prompt the user, print a line, or finish. The
//! program around the library performs each action and hands back its outcome.

use vstd::prelude::*;
use crate::cli::{expanded_path, gdoc_import_id, linear_import_id, Cli, Command};
use crate::document::{empty_frontmatter, frontmatter_wf, Frontmatter, FrontmatterView};
use crate::error::{concat_str, DsyncError};
use crate::git::{
    dir_of_path, git_blob_url_for_path, git_blob_url_of, git_start_dir, git_start_dir_of,
    locate_missing, located_path, path_dir, PathKind,
};
use crate::google_docs::{
    create_document_request, created_document_id, created_id, doc_id_from_url, doc_id_in_url,
    document_text, end_index, end_index_of, gdoc_from_response, gdoc_url, gdoc_url_of,
    get_document_request, is_create_document, is_get_document, is_move_document,
    is_replace_content, move_document_request, replace_content_request,
};
use crate::http::{request_wf, Credential, HttpFailure, HttpRequest, Method};
use crate::json::{json_get, json_index, json_keys, json_str, object0, object1, object2, object4, str_at, text, Json};
use crate::linear::{
    chosen_project, chosen_project_id, created_linear_doc, doc_id_from_frontmatter, graphql_data,
    graphql_outcome, graphql_request, is_graphql, linear_doc_from_data, linear_id_of, names_of,
    names_of_nodes, project_nodes, project_options, project_options_of, projects_from_data,
    str_or, team_nodes, teams_from_data, CREATE_DOCUMENT_QUERY, GET_DOCUMENT_QUERY,
    PROJECTS_QUERY, TEAMS_QUERY, UPDATE_DOCUMENT_QUERY,
};
use crate::links::{opt_view, upsert_dsync_links, upserted};
use crate::markdown::{
    ensure_trailing_newline, file_stem_fallback, first_heading, first_heading_of, normalize,
    name_from_stem, parse_frontmatter, parsed_markdown, path_file_stem, render_markdown, rendered, slug_of,
    slugify, with_trailing_newline,
};
use crate::text::{chars_of, extend_str, string_of, trim, trim_vec};

verus! {

/// Where a run stands: which outcome it waits for.
#[derive(Clone, Copy, Debug, PartialEq, Eq, Structural)]
pub enum Step {
    /// Waits for the command line.
    Begin,
    /// Waits for the Google Doc to import.
    GdocFetch,
    /// Waits for the Linear Doc to import.
    LinearFetch,
    /// Waits for the Markdown file.
    ReadMd,
    /// Waits for its frontmatter, parsed.
    ParseFm,
    /// Waits for the canonical path of the file.
    GitCanon,
    /// Waits to know what that path is on disk.
    GitInspect,
    /// Waits for the canonical path of the directory of a file that is not there yet.
    GitDirCanon,
    /// Waits for `git rev-parse --show-toplevel`.
    GitTop,
    /// Waits for the canonical path of the repository root.
    GitRootCanon,
    /// Waits for `git remote get-url origin`.
    GitRemote,
    /// Waits for `git rev-parse --abbrev-ref HEAD`.
    GitBranch,
    /// Waits for the Drive folder of a new Google Doc.
    FolderPrompt,
    /// Waits for the Google Doc to be created.
    CreateGdoc,
    /// Waits for it to be moved to its folder.
    MoveGdoc,
    /// Waits for the creation to be reported.
    GdocCreatedPrinted,
    /// Waits for the Linear teams.
    Teams,
    /// Waits for the team to be chosen.
    TeamSelect,
    /// Waits for the started Linear projects.
    Projects,
    /// Waits for the project to be chosen.
    ProjectSelect,
    /// Waits for the Linear Doc to be created.
    CreateLinear,
    /// Waits for the creation to be reported.
    LinearCreatedPrinted,
    /// Waits for the frontmatter of a sync's first write, serialised.
    SyncSerialize,
    /// Waits for that write.
    SyncWrite,
    /// Waits for the linked Google Doc, to see where its body ends.
    PushGdocRead,
    /// Waits for its body to be replaced.
    PushGdocUpdate,
    /// Waits for the update to be reported.
    GdocUpdatedPrinted,
    /// Waits for the linked Linear Doc's content to be replaced.
    PushLinear,
    /// Waits for the update to be reported.
    LinearUpdatedPrinted,
    /// Waits for the frontmatter of a sync's last write, serialised.
    FinalSerialize,
    /// Waits for that write.
    FinalWrite,
    /// Waits for the end of the sync to be reported.
    FinalPrinted,
    /// Waits for the frontmatter of an imported document, serialised.
    ImportSerialize,
    /// Waits for the imported document to be written.
    ImportWrite,
    /// Waits for the import to be reported.
    ImportPrinted,
    /// The run is over.
    Done,
}

/// What the run does.
#[derive(Clone, Copy, Debug, PartialEq, Eq, Structural)]
pub enum Mode {
    /// Import a Google Doc.
    ImportGdoc,
    /// Import a Linear Doc.
    ImportLinear,
    /// Sync a Markdown file.
    Sync,
}

/// The state of a run.
pub struct Session {
    pub step: Step,
    pub mode: Mode,
    /// The provider document to import.
    pub doc_id: String,
    /// The Markdown file.
    pub path: String,
    pub frontmatter: Frontmatter,
    /// The Markdown body.
    pub content: String,
    /// The title for documents created at the providers.
    pub title: String,
    /// Whether to sync with Google Docs (asked for, or already linked).
    pub want_gdoc: bool,
    /// Whether to sync with Linear (asked for, or already linked).
    pub want_linear: bool,
    /// The Drive folder for a new Google Doc.
    pub folder_id: Option<String>,
    /// The provider document being worked on.
    pub target_id: String,
    /// The file's path as git sees it, its repository root and its remote.
    pub git_abs: String,
    pub git_root: String,
    pub git_remote: String,
    /// Linear teams and projects offered for a new Linear Doc, and the chosen team.
    pub teams: Vec<Json>,
    pub team_id: String,
    pub projects: Vec<Json>,
}

/// A session as text.
pub struct SessionView {
    pub step: Step,
    pub mode: Mode,
    pub doc_id: Seq<char>,
    pub path: Seq<char>,
    pub frontmatter: FrontmatterView,
    pub content: Seq<char>,
    pub title: Seq<char>,
    pub want_gdoc: bool,
    pub want_linear: bool,
    pub folder_id: Option<Seq<char>>,
    pub target_id: Seq<char>,
    pub git_abs: Seq<char>,
    pub git_root: Seq<char>,
    pub git_remote: Seq<char>,
    pub teams: Seq<Json>,
    pub team_id: Seq<char>,
    pub projects: Seq<Json>,
}

impl View for Session {
    type V = SessionView;

    open spec fn view(&self) -> SessionView {
        SessionView {
            step: self.step,
            mode: self.mode,
            doc_id: self.doc_id@,
            path: self.path@,
            frontmatter: self.frontmatter@,
            content: self.content@,
            title: self.title@,
            want_gdoc: self.want_gdoc,
            want_linear: self.want_linear,
            folder_id: self.folder_id.deep_view(),
            target_id: self.target_id@,
            git_abs: self.git_abs@,
            git_root: self.git_root@,
            git_remote: self.git_remote@,
            teams: self.teams@,
            team_id: self.team_id@,
            projects: self.projects@,
        }
    }
}

/// The outcome of the last action.
pub enum Event {
    /// The run starts with this command line and home directory.
    Start { cli: Cli, home: String },
    /// A file was read, or why not.
    FileRead(Result<String, String>),
    /// Frontmatter YAML was parsed, or why not.
    FrontmatterParsed(Result<Frontmatter, String>),
    /// Frontmatter was serialised to YAML, or why not.
    FrontmatterSerialized(Result<String, String>),
    /// A file was written, or why not.
    FileWritten(Result<(), String>),
    /// The canonical form of a path, when it has one.
    Canonicalized(Option<String>),
    /// What a path is on disk.
    Inspected(PathKind),
    /// What a git command printed, when it succeeded.
    GitOutput(Option<String>),
    /// The JSON answer to a request, or why there is none.
    HttpResponse(Result<Json, HttpFailure>),
    /// The text typed at a prompt, or why there is none.
    TextEntered(Result<String, String>),
    /// The position chosen in a selection, or why there is none.
    Selected(Result<usize, String>),
    /// A line was printed.
    Printed,
}

/// What to do next.
pub enum Action {
    /// Read a file as text.
    ReadFile { path: String },
    /// Parse YAML into a frontmatter.
    ParseFrontmatter { yaml: String },
    /// Serialise a frontmatter into YAML.
    SerializeFrontmatter { frontmatter: Frontmatter },
    /// Write a file.
    WriteFile { path: String, contents: String },
    /// Make a path canonical.
    Canonicalize { path: String },
    /// Tell what a path is on disk: a file, a directory, or nothing.
    Inspect { path: String },
    /// Run `git` with these arguments in this directory.
    RunGit { args: Vec<String>, dir: String },
    /// Send a request to a provider API.
    Http { request: HttpRequest },
    /// Ask the user for a line of text.
    PromptText { prompt: String },
    /// Ask the user to choose one of `items`.
    PromptSelect { prompt: String, items: Vec<String> },
    /// Print a line.
    Print { line: String },
    /// The run is over.
    Finish { result: Result<(), DsyncError> },
}

// ---------------------------------------------------------------------------
// Prompts and messages
// ---------------------------------------------------------------------------

pub const FOLDER_PROMPT: &'static str = "🗂️ Drive folder ID (optional, press Enter to skip)";
pub const TEAM_PROMPT: &'static str = "🧠 Which Linear team should the doc be created in?";
pub const PROJECT_PROMPT: &'static str = "📌 Which Linear project? (optional)";
pub const GDOC_CREATED: &'static str = "✨ Google Doc created.";
pub const LINEAR_CREATED: &'static str = "✨ Linear Doc created.";
pub const GDOC_UPDATED: &'static str = "✅ Google Doc updated.";
pub const LINEAR_UPDATED: &'static str = "✅ Linear Doc updated.";
/// Followed by the path of the file.
pub const SYNC_DONE: &'static str = "🚀 Tri-sync completed: ";
/// Followed by the path of the file.
pub const IMPORTED_FROM_GDOC: &'static str = "✅ Imported from Google Docs to ";
/// Followed by the path of the file.
pub const IMPORTED_FROM_LINEAR: &'static str = "✅ Imported from Linear to ";

// ---------------------------------------------------------------------------
// What each step does
// ---------------------------------------------------------------------------

/// The run ends.
pub open spec fn ends(s: SessionView, t: SessionView) -> bool {
    t == SessionView { step: Step::Done, ..s }
}

/// The run ends with this error.
pub open spec fn fails(s: SessionView, t: SessionView, a: Action, e: DsyncError) -> bool {
    ends(s, t) && a == Action::Finish { result: Err(e) }
}

/// `e` is the error for a failed request, with the context of each kind of failure.
pub open spec fn request_error(
    e: DsyncError,
    f: HttpFailure,
    credential: Credential,
    send: Seq<char>,
    status: Seq<char>,
    body: Seq<char>,
) -> bool {
    match f {
        HttpFailure::MissingCredential => match credential {
            Credential::Google => e is MissingGoogleToken,
            Credential::Linear => e is MissingLinearKey,
        },
        HttpFailure::Send(c) => e matches DsyncError::Request { context, cause } && context@ == send
            && cause@ == c@,
        HttpFailure::Status(c) => e matches DsyncError::Request { context, cause } && context@
            == status && cause@ == c@,
        HttpFailure::Body(c) => e matches DsyncError::Request { context, cause } && context@ == body
            && cause@ == c@,
    }
}

/// The run ends with the error of a failed request.
pub open spec fn fails_request(
    s: SessionView,
    t: SessionView,
    a: Action,
    f: HttpFailure,
    credential: Credential,
    send: Seq<char>,
    status: Seq<char>,
    body: Seq<char>,
) -> bool {
    &&& ends(s, t)
    &&& a matches Action::Finish { result: Err(e) }
    &&& request_error(e, f, credential, send, status, body)
}

/// The run ends with the error of a failed Linear request.
pub open spec fn fails_linear(s: SessionView, t: SessionView, a: Action, f: HttpFailure) -> bool {
    fails_request(
        s,
        t,
        a,
        f,
        Credential::Linear,
        "Network failure calling Linear API"@,
        "HTTP error from Linear API"@,
        "Invalid Linear API response"@,
    )
}

/// The variables of a GraphQL request.
pub open spec fn variables_of(r: HttpRequest) -> Json {
    match r.body {
        Some(b) => json_index(b, "variables"@),
        None => Json::Null,
    }
}

/// The `GetDocument` call for `id`.
pub open spec fn is_get_linear(r: HttpRequest, id: Seq<char>) -> bool {
    let v = variables_of(r);
    is_graphql(r, GET_DOCUMENT_QUERY@, v) && json_keys(v) == Some(seq!["id"@]) && json_str(
        json_index(v, "id"@),
    ) == Some(id)
}

/// Where an imported document is written: `{slug of its title}.md`.
pub open spec fn import_path(title: Seq<char>) -> Seq<char> {
    slug_of(title) + ".md"@
}

/// The command line decides the run: an import fetches the document, a sync
/// reads the file, no input at all is an error.
pub open spec fn on_begin(s: SessionView, cli: Cli, home: String, t: SessionView, a: Action) -> bool {
    match gdoc_import_id(cli) {
        Some(id) => {
            &&& t == SessionView { step: Step::GdocFetch, mode: Mode::ImportGdoc, doc_id: id, ..s }
            &&& a matches Action::Http { request }
            &&& is_get_document(request, id)
        },
        None => match linear_import_id(cli) {
            Some(id) => {
                &&& t == SessionView {
                    step: Step::LinearFetch,
                    mode: Mode::ImportLinear,
                    doc_id: id,
                    ..s
                }
                &&& a matches Action::Http { request }
                &&& is_get_linear(request, id)
            },
            None => match cli.file {
                Some(f) => {
                    &&& t == SessionView {
                        step: Step::ReadMd,
                        mode: Mode::Sync,
                        path: expanded_path(f@, home@),
                        want_gdoc: cli.gdoc is Some,
                        want_linear: cli.linear is Some,
                        ..s
                    }
                    &&& a matches Action::ReadFile { path }
                    &&& path@ == expanded_path(f@, home@)
                },
                None => fails(s, t, a, DsyncError::MissingInput),
            },
        },
    }
}

/// The Google Doc to import has arrived: it goes to `{slug}.md` with its URL
/// in the frontmatter, and git is asked about that file.
pub open spec fn on_gdoc_fetched(s: SessionView, r: Result<Json, HttpFailure>, t: SessionView, a: Action) -> bool {
    match r {
        Err(f) => fails_request(
            s,
            t,
            a,
            f,
            Credential::Google,
            "Failed to fetch Google Doc"@,
            "Google Docs API error (get)"@,
            "Invalid Google Docs response"@,
        ),
        Ok(json) => {
            let title = str_or(json, "title"@, "document"@);
            let path = import_path(title);
            let fm = FrontmatterView { gdoc_url: Some(gdoc_url_of(s.doc_id)), ..empty_frontmatter() };
            let content = with_trailing_newline(normalize(document_text(json)));
            &&& t == SessionView { step: Step::GitCanon, path, title, content, frontmatter: fm, ..s }
            &&& a matches Action::Canonicalize { path: p }
            &&& p@ == path
        },
    }
}

/// The Linear Doc to import has arrived.
pub open spec fn on_linear_fetched(s: SessionView, r: Result<Json, HttpFailure>, t: SessionView, a: Action) -> bool {
    match r {
        Err(f) => fails_linear(s, t, a, f),
        Ok(json) => match graphql_outcome(json) {
            Err(errors) => fails(s, t, a, DsyncError::Graphql { errors }),
            Ok(data) => {
                let d = json_index(data, "document"@);
                let title = str_or(d, "title"@, "document"@);
                let path = import_path(title);
                let fm = FrontmatterView {
                    linear_doc_id: Some(str_or(d, "id"@, s.doc_id)),
                    linear_doc_url: Some(str_or(d, "url"@, ""@)),
                    ..empty_frontmatter()
                };
                let content = with_trailing_newline(str_or(d, "content"@, ""@));
                &&& t == SessionView { step: Step::GitCanon, path, title, content, frontmatter: fm, ..s }
                &&& a matches Action::Canonicalize { path: p }
                &&& p@ == path
            },
        },
    }
}

/// The run ends with the failure of a prompt.
pub open spec fn prompt_failed(s: SessionView, context: Seq<char>, c: String, t: SessionView, a: Action) -> bool {
    &&& ends(s, t)
    &&& a matches Action::Finish { result: Err(DsyncError::Prompt { context: x, cause }) }
    &&& x@ == context
    &&& cause@ == c@
}

pub open spec fn is_print(a: Action, line: Seq<char>) -> bool {
    a matches Action::Print { line: l } && l@ == line
}

/// `args` are the `expected` arguments.
pub open spec fn git_args(args: Seq<String>, expected: Seq<Seq<char>>) -> bool {
    &&& args.len() == expected.len()
    &&& forall|i: int| 0 <= i < args.len() ==> #[trigger] args[i]@ == expected[i]
}

/// `git` with these arguments, run in `dir`.
pub open spec fn is_git(a: Action, expected: Seq<Seq<char>>, dir: Seq<char>) -> bool {
    &&& a matches Action::RunGit { args, dir: d }
    &&& git_args(args@, expected)
    &&& d@ == dir
}

/// A GraphQL call of `query` whose variables are the empty object.
pub open spec fn is_graphql_no_vars(r: HttpRequest, query: Seq<char>) -> bool {
    &&& is_graphql(r, query, variables_of(r))
    &&& json_keys(variables_of(r)) == Some(Seq::<Seq<char>>::empty())
}

/// The canonical form of a path when it has one, else the path itself.
pub open spec fn canonical_or(canonical: Option<Seq<char>>, path: Seq<char>) -> Seq<char> {
    match canonical {
        Some(c) => c,
        None => path,
    }
}

/// The body is known: the title comes from its first heading (else from the
/// file stem), and git is asked about the file.
pub open spec fn body_known(s: SessionView, t: SessionView, a: Action) -> bool {
    let title = match first_heading_of(s.content) {
        Some(h) => h,
        None => name_from_stem(path_file_stem(s.path)),
    };
    &&& t == SessionView { step: Step::GitCanon, title, ..s }
    &&& a matches Action::Canonicalize { path }
    &&& path@ == s.path
}

/// The file has been read: its frontmatter YAML is to be parsed, or there is none.
pub open spec fn on_file_read(s: SessionView, r: Result<String, String>, t: SessionView, a: Action) -> bool {
    match r {
        Err(c) => {
            &&& ends(s, t)
            &&& a matches Action::Finish { result: Err(DsyncError::ReadFailed { path, cause }) }
            &&& path@ == s.path
            &&& cause@ == c@
        },
        Ok(raw) => {
            let body = parsed_markdown(raw@).1;
            match parsed_markdown(raw@).0 {
                Some(y) => {
                    &&& t == SessionView { step: Step::ParseFm, content: body, ..s }
                    &&& a matches Action::ParseFrontmatter { yaml }
                    &&& yaml@ == y
                },
                None => body_known(
                    SessionView { content: body, frontmatter: empty_frontmatter(), ..s },
                    t,
                    a,
                ),
            }
        },
    }
}

/// The frontmatter YAML has been parsed.
pub open spec fn on_frontmatter_parsed(
    s: SessionView,
    r: Result<Frontmatter, String>,
    t: SessionView,
    a: Action,
) -> bool {
    match r {
        Err(c) => {
            &&& ends(s, t)
            &&& a matches Action::Finish { result: Err(DsyncError::InvalidFrontmatter { cause }) }
            &&& cause@ == c@
        },
        Ok(fm) => body_known(SessionView { frontmatter: fm@, ..s }, t, a),
    }
}

/// The sync writes the links block into the body, then the file.
pub open spec fn sync_write(s: SessionView, t: SessionView, a: Action) -> bool {
    let fm = s.frontmatter;
    let content = upserted(s.content, fm.gdoc_url, fm.linear_doc_url, fm.git_url);
    &&& t == SessionView { step: Step::SyncSerialize, content, ..s }
    &&& a matches Action::SerializeFrontmatter { frontmatter }
    &&& frontmatter@ == fm
}

/// A Linear Doc is created when Linear is wanted and no document is linked by id.
pub open spec fn maybe_create_linear(s: SessionView, t: SessionView, a: Action) -> bool {
    if s.want_linear && s.frontmatter.linear_doc_id is None {
        &&& t == SessionView { step: Step::Teams, ..s }
        &&& a matches Action::Http { request }
        &&& is_graphql_no_vars(request, TEAMS_QUERY@)
    } else {
        sync_write(s, t, a)
    }
}

/// A Google Doc is created when Google Docs is wanted and none is linked.
pub open spec fn maybe_create_gdoc(s: SessionView, t: SessionView, a: Action) -> bool {
    if s.want_gdoc && s.frontmatter.gdoc_url is None {
        &&& t == SessionView { step: Step::FolderPrompt, ..s }
        &&& a matches Action::PromptText { prompt }
        &&& prompt@ == FOLDER_PROMPT@
    } else {
        maybe_create_linear(s, t, a)
    }
}

/// Git has answered, with the file's `gitUrl` or without one. A sync records
/// it and syncs with each provider that is asked for or already linked; an
/// import records it and writes the links block and the file.
pub open spec fn git_done(s: SessionView, url: Option<Seq<char>>, t: SessionView, a: Action) -> bool {
    match s.mode {
        Mode::Sync => {
            let fm = match url {
                Some(u) => FrontmatterView { git_url: Some(u), ..s.frontmatter },
                None => s.frontmatter,
            };
            let want_gdoc = s.want_gdoc || fm.gdoc_url is Some;
            let want_linear = s.want_linear || fm.linear_doc_id is Some || fm.linear_doc_url is Some;
            maybe_create_gdoc(SessionView { frontmatter: fm, want_gdoc, want_linear, ..s }, t, a)
        },
        _ => {
            let fm = FrontmatterView { git_url: url, ..s.frontmatter };
            let content = upserted(s.content, fm.gdoc_url, fm.linear_doc_url, fm.git_url);
            &&& t == SessionView { step: Step::ImportSerialize, frontmatter: fm, content, ..s }
            &&& a matches Action::SerializeFrontmatter { frontmatter }
            &&& frontmatter@ == fm
        },
    }
}

/// The path has been made canonical: what is it on disk? A path that has no
/// canonical form is not there yet (an import writes it later): its
/// directory is made canonical instead.
pub open spec fn on_path_canonical(s: SessionView, r: Option<String>, t: SessionView, a: Action) -> bool {
    match r {
        Some(abs) => {
            &&& t == SessionView { step: Step::GitInspect, git_abs: abs@, ..s }
            &&& a matches Action::Inspect { path }
            &&& path@ == abs@
        },
        None => {
            &&& t == SessionView { step: Step::GitDirCanon, ..s }
            &&& a matches Action::Canonicalize { path }
            &&& path@ == dir_of_path(s.path)
        },
    }
}

/// Ask git for the repository root, from the directory that holds the file
/// (the path itself when it is a directory).
pub open spec fn on_inspected(s: SessionView, kind: PathKind, t: SessionView, a: Action) -> bool {
    &&& t == SessionView { step: Step::GitTop, ..s }
    &&& is_git(a, seq!["rev-parse"@, "--show-toplevel"@], git_start_dir_of(s.git_abs, kind))
}

/// The directory of a file that is not there yet has been made canonical (or
/// not): the file is placed under it, and git is asked from it.
pub open spec fn on_dir_canonical(s: SessionView, r: Option<String>, t: SessionView, a: Action) -> bool {
    let dir = canonical_or(r.deep_view(), dir_of_path(s.path));
    &&& t == SessionView { step: Step::GitTop, git_abs: located_path(r.deep_view(), s.path), ..s }
    &&& is_git(a, seq!["rev-parse"@, "--show-toplevel"@], dir)
}

/// The repository root is known (or git failed).
pub open spec fn on_git_top(s: SessionView, r: Option<String>, t: SessionView, a: Action) -> bool {
    match r {
        None => git_done(s, None, t, a),
        Some(out) => {
            &&& t == SessionView { step: Step::GitRootCanon, git_root: trim(out@), ..s }
            &&& a matches Action::Canonicalize { path }
            &&& path@ == trim(out@)
        },
    }
}

/// Ask git for the `origin` remote, in the repository root.
pub open spec fn on_root_canonical(s: SessionView, r: Option<String>, t: SessionView, a: Action) -> bool {
    let root = canonical_or(r.deep_view(), s.git_root);
    &&& t == SessionView { step: Step::GitRemote, git_root: root, ..s }
    &&& is_git(a, seq!["remote"@, "get-url"@, "origin"@], root)
}

/// The remote is known (or git failed): ask for the current branch.
pub open spec fn on_git_remote(s: SessionView, r: Option<String>, t: SessionView, a: Action) -> bool {
    match r {
        None => git_done(s, None, t, a),
        Some(out) => {
            &&& t == SessionView { step: Step::GitBranch, git_remote: trim(out@), ..s }
            &&& is_git(a, seq!["rev-parse"@, "--abbrev-ref"@, "HEAD"@], s.git_root)
        },
    }
}

/// The branch is known (or git failed): the `gitUrl`, when it can be made.
pub open spec fn on_git_branch(s: SessionView, r: Option<String>, t: SessionView, a: Action) -> bool {
    match r {
        None => git_done(s, None, t, a),
        Some(out) => git_done(
            s,
            git_blob_url_of(s.git_abs, s.git_root, s.git_remote, trim(out@)),
            t,
            a,
        ),
    }
}

/// The `UpdateDocument` call that sets the content of Linear document `id`.
pub open spec fn is_update_linear(r: HttpRequest, id: Seq<char>, content: Seq<char>) -> bool {
    let v = variables_of(r);
    &&& is_graphql(r, UPDATE_DOCUMENT_QUERY@, v)
    &&& json_keys(v) == Some(seq!["id"@, "content"@])
    &&& json_str(json_index(v, "id"@)) == Some(id)
    &&& json_str(json_index(v, "content"@)) == Some(content)
}

/// The `CreateDocument` call, in the chosen team and project (`null` for none).
pub open spec fn is_create_linear(
    r: HttpRequest,
    title: Seq<char>,
    content: Seq<char>,
    team: Seq<char>,
    project: Option<Seq<char>>,
) -> bool {
    let v = variables_of(r);
    &&& is_graphql(r, CREATE_DOCUMENT_QUERY@, v)
    &&& json_keys(v) == Some(seq!["title"@, "content"@, "teamId"@, "projectId"@])
    &&& json_str(json_index(v, "title"@)) == Some(title)
    &&& json_str(json_index(v, "content"@)) == Some(content)
    &&& json_str(json_index(v, "teamId"@)) == Some(team)
    &&& match project {
        Some(p) => json_str(json_index(v, "projectId"@)) == Some(p),
        None => json_index(v, "projectId"@) == Json::Null,
    }
}

/// The folder has been entered (blank for none): create the Google Doc.
pub open spec fn on_folder_entered(s: SessionView, r: Result<String, String>, t: SessionView, a: Action) -> bool {
    match r {
        Err(c) => prompt_failed(s, "Failed to read folder ID"@, c, t, a),
        Ok(x) => {
            let f = trim(x@);
            let folder = if f.len() == 0 {
                None
            } else {
                Some(f)
            };
            &&& t == SessionView { step: Step::CreateGdoc, folder_id: folder, ..s }
            &&& a matches Action::Http { request }
            &&& is_create_document(request, s.title)
        },
    }
}

/// The Google Doc `s.target_id` exists: its URL goes to the frontmatter.
pub open spec fn gdoc_created(s: SessionView, t: SessionView, a: Action) -> bool {
    let fm = FrontmatterView { gdoc_url: Some(gdoc_url_of(s.target_id)), ..s.frontmatter };
    &&& t == SessionView { step: Step::GdocCreatedPrinted, frontmatter: fm, ..s }
    &&& is_print(a, GDOC_CREATED@)
}

/// The Google Doc has been created: move it to the folder, if one was given.
pub open spec fn on_gdoc_created(s: SessionView, r: Result<Json, HttpFailure>, t: SessionView, a: Action) -> bool {
    match r {
        Err(f) => fails_request(
            s,
            t,
            a,
            f,
            Credential::Google,
            "Failed to create Google Doc"@,
            "Google Docs API error (create)"@,
            "Invalid Google Docs API response"@,
        ),
        Ok(json) => match created_id(json) {
            None => fails(s, t, a, DsyncError::MissingDocumentId),
            Some(id) => match s.folder_id {
                Some(folder) => {
                    &&& t == SessionView { step: Step::MoveGdoc, target_id: id, ..s }
                    &&& a matches Action::Http { request }
                    &&& is_move_document(request, id, folder)
                },
                None => gdoc_created(SessionView { target_id: id, ..s }, t, a),
            },
        },
    }
}

/// The new Google Doc has been moved to its folder.
pub open spec fn on_gdoc_moved(s: SessionView, r: Result<Json, HttpFailure>, t: SessionView, a: Action) -> bool {
    match r {
        Err(f) => fails_request(
            s,
            t,
            a,
            f,
            Credential::Google,
            "Failed to move doc to Drive folder"@,
            "Google Drive API error (move)"@,
            "Google Drive API error (move)"@,
        ),
        Ok(_) => gdoc_created(s, t, a),
    }
}

/// The teams are known: offer them, by name.
pub open spec fn on_teams(s: SessionView, r: Result<Json, HttpFailure>, t: SessionView, a: Action) -> bool {
    match r {
        Err(f) => fails_linear(s, t, a, f),
        Ok(json) => match graphql_outcome(json) {
            Err(errors) => fails(s, t, a, DsyncError::Graphql { errors }),
            Ok(data) => match team_nodes(data) {
                None => fails(s, t, a, DsyncError::InvalidTeams),
                Some(nodes) => if nodes.len() == 0 {
                    fails(s, t, a, DsyncError::NoTeams)
                } else {
                    &&& t == SessionView { step: Step::TeamSelect, teams: nodes, ..s }
                    &&& a matches Action::PromptSelect { prompt, items }
                    &&& prompt@ == TEAM_PROMPT@
                    &&& names_of_nodes(items@, nodes)
                },
            },
        },
    }
}

/// A team has been chosen: ask for the started projects.
pub open spec fn on_team_selected(s: SessionView, r: Result<usize, String>, t: SessionView, a: Action) -> bool {
    match r {
        Err(c) => prompt_failed(s, "Failed to read team selection prompt"@, c, t, a),
        Ok(i) => match json_str(json_index(s.teams[i as int], "id"@)) {
            None => fails(s, t, a, DsyncError::TeamMissingId),
            Some(id) => {
                &&& t == SessionView { step: Step::Projects, team_id: id, ..s }
                &&& a matches Action::Http { request }
                &&& is_graphql_no_vars(request, PROJECTS_QUERY@)
            },
        },
    }
}

/// The projects are known: offer no project, then each project by name.
pub open spec fn on_projects(s: SessionView, r: Result<Json, HttpFailure>, t: SessionView, a: Action) -> bool {
    match r {
        Err(f) => fails_linear(s, t, a, f),
        Ok(json) => match graphql_outcome(json) {
            Err(errors) => fails(s, t, a, DsyncError::Graphql { errors }),
            Ok(data) => {
                let nodes = project_nodes(data);
                &&& t == SessionView { step: Step::ProjectSelect, projects: nodes, ..s }
                &&& a matches Action::PromptSelect { prompt, items }
                &&& prompt@ == PROJECT_PROMPT@
                &&& project_options(items@, nodes)
            },
        },
    }
}

/// A project (or none) has been chosen: create the Linear Doc with the body as it is.
pub open spec fn on_project_selected(s: SessionView, r: Result<usize, String>, t: SessionView, a: Action) -> bool {
    match r {
        Err(c) => prompt_failed(s, "Failed to read project selection prompt"@, c, t, a),
        Ok(i) => {
            &&& t == SessionView { step: Step::CreateLinear, ..s }
            &&& a matches Action::Http { request }
            &&& is_create_linear(
                request,
                s.title,
                s.content,
                s.team_id,
                chosen_project(s.projects, i as int),
            )
        },
    }
}

/// The Linear Doc has been created: its id and URL go to the frontmatter.
pub open spec fn on_linear_created(s: SessionView, r: Result<Json, HttpFailure>, t: SessionView, a: Action) -> bool {
    match r {
        Err(f) => fails_linear(s, t, a, f),
        Ok(json) => match graphql_outcome(json) {
            Err(errors) => fails(s, t, a, DsyncError::Graphql { errors }),
            Ok(data) => {
                let d = json_index(json_index(data, "createDocument"@), "document"@);
                let fm = FrontmatterView {
                    linear_doc_id: Some(str_or(d, "id"@, ""@)),
                    linear_doc_url: Some(str_or(d, "url"@, ""@)),
                    ..s.frontmatter
                };
                &&& t == SessionView { step: Step::LinearCreatedPrinted, frontmatter: fm, ..s }
                &&& is_print(a, LINEAR_CREATED@)
            },
        },
    }
}

/// The frontmatter has been serialised: write the file, or fail.
pub open spec fn on_serialized(
    s: SessionView,
    r: Result<String, String>,
    next: Step,
    t: SessionView,
    a: Action,
) -> bool {
    match r {
        Err(c) => {
            &&& ends(s, t)
            &&& a matches Action::Finish { result: Err(DsyncError::SerializeFailed { cause }) }
            &&& cause@ == c@
        },
        Ok(yaml) => {
            &&& t == SessionView { step: next, ..s }
            &&& a matches Action::WriteFile { path, contents }
            &&& path@ == s.path
            &&& contents@ == rendered(yaml@, s.content)
        },
    }
}

/// A failed write ends the run.
pub open spec fn write_failed(s: SessionView, c: String, t: SessionView, a: Action) -> bool {
    &&& ends(s, t)
    &&& a matches Action::Finish { result: Err(DsyncError::WriteFailed { path, cause }) }
    &&& path@ == s.path
    &&& cause@ == c@
}

/// The last write of a sync.
pub open spec fn final_write(s: SessionView, t: SessionView, a: Action) -> bool {
    &&& t == SessionView { step: Step::FinalSerialize, ..s }
    &&& a matches Action::SerializeFrontmatter { frontmatter }
    &&& frontmatter@ == s.frontmatter
}

/// The body goes to the linked Linear Doc, if any.
pub open spec fn push_linear(s: SessionView, t: SessionView, a: Action) -> bool {
    match linear_id_of(s.frontmatter) {
        Some(id) => {
            &&& t == SessionView { step: Step::PushLinear, target_id: id, ..s }
            &&& a matches Action::Http { request }
            &&& is_update_linear(request, id, s.content)
        },
        None => final_write(s, t, a),
    }
}

/// The body goes to the linked Google Doc, if any: first read where its body ends.
pub open spec fn push_gdoc(s: SessionView, t: SessionView, a: Action) -> bool {
    match s.frontmatter.gdoc_url {
        Some(u) => match doc_id_in_url(u) {
            Some(id) => {
                &&& t == SessionView { step: Step::PushGdocRead, target_id: id, ..s }
                &&& a matches Action::Http { request }
                &&& is_get_document(request, id)
            },
            None => fails(s, t, a, DsyncError::InvalidGdocUrl),
        },
        None => push_linear(s, t, a),
    }
}

/// A file has been written: a sync pushes the body to the providers, the last
/// write of a sync and an import's write report the path.
pub open spec fn on_written(s: SessionView, r: Result<(), String>, t: SessionView, a: Action) -> bool {
    match r {
        Err(c) => write_failed(s, c, t, a),
        Ok(_) => match s.step {
            Step::SyncWrite => push_gdoc(s, t, a),
            Step::FinalWrite => {
                &&& t == SessionView { step: Step::FinalPrinted, ..s }
                &&& is_print(a, SYNC_DONE@ + s.path)
            },
            _ => {
                &&& t == SessionView { step: Step::ImportPrinted, ..s }
                &&& is_print(
                    a,
                    if s.mode == Mode::ImportGdoc {
                        IMPORTED_FROM_GDOC@ + s.path
                    } else {
                        IMPORTED_FROM_LINEAR@ + s.path
                    },
                )
            },
        },
    }
}

/// Where the Google Doc's body ends is known: replace the body.
pub open spec fn on_gdoc_read(s: SessionView, r: Result<Json, HttpFailure>, t: SessionView, a: Action) -> bool {
    match r {
        Err(f) => fails_request(
            s,
            t,
            a,
            f,
            Credential::Google,
            "Failed to read current doc"@,
            "Google Docs API error (get)"@,
            "Invalid get document response"@,
        ),
        Ok(json) => {
            &&& t == SessionView { step: Step::PushGdocUpdate, ..s }
            &&& a matches Action::Http { request }
            &&& is_replace_content(request, s.target_id, end_index_of(json), s.content)
        },
    }
}

/// The Google Doc's body has been replaced.
pub open spec fn on_gdoc_updated(s: SessionView, r: Result<Json, HttpFailure>, t: SessionView, a: Action) -> bool {
    match r {
        Err(f) => fails_request(
            s,
            t,
            a,
            f,
            Credential::Google,
            "Failed to update Google Doc content"@,
            "Google Docs API error (batchUpdate)"@,
            "Google Docs API error (batchUpdate)"@,
        ),
        Ok(_) => {
            &&& t == SessionView { step: Step::GdocUpdatedPrinted, ..s }
            &&& is_print(a, GDOC_UPDATED@)
        },
    }
}

/// The Linear Doc's content has been replaced.
pub open spec fn on_linear_updated(s: SessionView, r: Result<Json, HttpFailure>, t: SessionView, a: Action) -> bool {
    match r {
        Err(f) => fails_linear(s, t, a, f),
        Ok(json) => match graphql_outcome(json) {
            Err(errors) => fails(s, t, a, DsyncError::Graphql { errors }),
            Ok(_) => {
                &&& t == SessionView { step: Step::LinearUpdatedPrinted, ..s }
                &&& is_print(a, LINEAR_UPDATED@)
            },
        },
    }
}

/// Whether `event` answers what `s` waits for (and, for the team selection,
/// names one of the teams offered).
pub open spec fn accepts(s: SessionView, event: Event) -> bool {
    match s.step {
        Step::Begin => event is Start,
        Step::GdocFetch | Step::LinearFetch | Step::CreateGdoc | Step::MoveGdoc | Step::Teams
        | Step::Projects | Step::CreateLinear | Step::PushGdocRead | Step::PushGdocUpdate
        | Step::PushLinear => event is HttpResponse,
        Step::ReadMd => event is FileRead,
        Step::ParseFm => event is FrontmatterParsed,
        Step::GitCanon | Step::GitRootCanon | Step::GitDirCanon => event is Canonicalized,
        Step::GitInspect => event is Inspected,
        Step::GitTop | Step::GitRemote | Step::GitBranch => event is GitOutput,
        Step::FolderPrompt => event is TextEntered,
        Step::TeamSelect => match event {
            Event::Selected(r) => r matches Ok(i) ==> i < s.teams.len(),
            _ => false,
        },
        Step::ProjectSelect => event is Selected,
        Step::SyncSerialize | Step::FinalSerialize | Step::ImportSerialize => event is FrontmatterSerialized,
        Step::SyncWrite | Step::FinalWrite | Step::ImportWrite => event is FileWritten,
        Step::GdocCreatedPrinted | Step::LinearCreatedPrinted | Step::GdocUpdatedPrinted
        | Step::LinearUpdatedPrinted | Step::FinalPrinted | Step::ImportPrinted => event is Printed,
        Step::Done => false,
    }
}

/// One step of a run: from session `s` and the outcome `event` of the last
/// action, the session becomes `t` and action `a` is asked for.
pub open spec fn transition(s: SessionView, event: Event, t: SessionView, a: Action) -> bool {
    match (s.step, event) {
        (Step::Begin, Event::Start { cli, home }) => on_begin(s, cli, home, t, a),
        (Step::GdocFetch, Event::HttpResponse(r)) => on_gdoc_fetched(s, r, t, a),
        (Step::LinearFetch, Event::HttpResponse(r)) => on_linear_fetched(s, r, t, a),
        (Step::ReadMd, Event::FileRead(r)) => on_file_read(s, r, t, a),
        (Step::ParseFm, Event::FrontmatterParsed(r)) => on_frontmatter_parsed(s, r, t, a),
        (Step::GitCanon, Event::Canonicalized(r)) => on_path_canonical(s, r, t, a),
        (Step::GitInspect, Event::Inspected(kind)) => on_inspected(s, kind, t, a),
        (Step::GitDirCanon, Event::Canonicalized(r)) => on_dir_canonical(s, r, t, a),
        (Step::GitTop, Event::GitOutput(r)) => on_git_top(s, r, t, a),
        (Step::GitRootCanon, Event::Canonicalized(r)) => on_root_canonical(s, r, t, a),
        (Step::GitRemote, Event::GitOutput(r)) => on_git_remote(s, r, t, a),
        (Step::GitBranch, Event::GitOutput(r)) => on_git_branch(s, r, t, a),
        (Step::FolderPrompt, Event::TextEntered(r)) => on_folder_entered(s, r, t, a),
        (Step::CreateGdoc, Event::HttpResponse(r)) => on_gdoc_created(s, r, t, a),
        (Step::MoveGdoc, Event::HttpResponse(r)) => on_gdoc_moved(s, r, t, a),
        (Step::GdocCreatedPrinted, Event::Printed) => maybe_create_linear(s, t, a),
        (Step::Teams, Event::HttpResponse(r)) => on_teams(s, r, t, a),
        (Step::TeamSelect, Event::Selected(r)) => on_team_selected(s, r, t, a),
        (Step::Projects, Event::HttpResponse(r)) => on_projects(s, r, t, a),
        (Step::ProjectSelect, Event::Selected(r)) => on_project_selected(s, r, t, a),
        (Step::CreateLinear, Event::HttpResponse(r)) => on_linear_created(s, r, t, a),
        (Step::LinearCreatedPrinted, Event::Printed) => sync_write(s, t, a),
        (Step::SyncSerialize, Event::FrontmatterSerialized(r)) => on_serialized(s, r, Step::SyncWrite, t, a),
        (Step::FinalSerialize, Event::FrontmatterSerialized(r)) => on_serialized(s, r, Step::FinalWrite, t, a),
        (Step::ImportSerialize, Event::FrontmatterSerialized(r)) => on_serialized(s, r, Step::ImportWrite, t, a),
        (Step::SyncWrite, Event::FileWritten(r)) => on_written(s, r, t, a),
        (Step::FinalWrite, Event::FileWritten(r)) => on_written(s, r, t, a),
        (Step::ImportWrite, Event::FileWritten(r)) => on_written(s, r, t, a),
        (Step::PushGdocRead, Event::HttpResponse(r)) => on_gdoc_read(s, r, t, a),
        (Step::PushGdocUpdate, Event::HttpResponse(r)) => on_gdoc_updated(s, r, t, a),
        (Step::GdocUpdatedPrinted, Event::Printed) => push_linear(s, t, a),
        (Step::PushLinear, Event::HttpResponse(r)) => on_linear_updated(s, r, t, a),
        (Step::LinearUpdatedPrinted, Event::Printed) => final_write(s, t, a),
        (Step::FinalPrinted, Event::Printed) => ends(s, t) && a == Action::Finish { result: Ok(()) },
        (Step::ImportPrinted, Event::Printed) => ends(s, t) && a == Action::Finish { result: Ok(()) },
        _ => false,
    }
}

/// The session a run starts from.
pub open spec fn initial_session() -> SessionView {
    SessionView {
        step: Step::Begin,
        mode: Mode::Sync,
        doc_id: Seq::empty(),
        path: Seq::empty(),
        frontmatter: empty_frontmatter(),
        content: Seq::empty(),
        title: Seq::empty(),
        want_gdoc: false,
        want_linear: false,
        folder_id: None,
        target_id: Seq::empty(),
        git_abs: Seq::empty(),
        git_root: Seq::empty(),
        git_remote: Seq::empty(),
        teams: Seq::empty(),
        team_id: Seq::empty(),
        projects: Seq::empty(),
    }
}

// ---------------------------------------------------------------------------
// Steps
// ---------------------------------------------------------------------------

/// The error of a failed request.
fn request_failure(
    f: HttpFailure,
    credential: Credential,
    send: &str,
    status: &str,
    body: &str,
) -> (e: DsyncError)
    ensures
        request_error(e, f, credential, send@, status@, body@),
{
    match f {
        HttpFailure::MissingCredential => match credential {
            Credential::Google => DsyncError::MissingGoogleToken,
            Credential::Linear => DsyncError::MissingLinearKey,
        },
        HttpFailure::Send(cause) => DsyncError::Request { context: String::from_str(send), cause },
        HttpFailure::Status(cause) => DsyncError::Request { context: String::from_str(status), cause },
        HttpFailure::Body(cause) => DsyncError::Request { context: String::from_str(body), cause },
    }
}

/// Ends the run with `e`.
fn finish_with(s: &mut Session, e: DsyncError) -> (a: Action)
    ensures
        fails(old(s)@, final(s)@, a, e),
{
    s.step = Step::Done;
    Action::Finish { result: Err(e) }
}

/// Ends the run with the error of a failed Linear request.
fn linear_failure(s: &mut Session, f: HttpFailure) -> (a: Action)
    ensures
        fails_linear(old(s)@, final(s)@, a, f),
{
    let e = request_failure(
        f,
        Credential::Linear,
        "Network failure calling Linear API",
        "HTTP error from Linear API",
        "Invalid Linear API response",
    );
    s.step = Step::Done;
    Action::Finish { result: Err(e) }
}

/// The request that fetches Linear document `id`.
fn get_linear_request(id: &str) -> (r: HttpRequest)
    ensures
        is_get_linear(r, id@),
{
    graphql_request(GET_DOCUMENT_QUERY, object1("id", text(id)))
}

/// `{slug of title}.md`.
fn import_path_of(title: &str) -> (r: String)
    ensures
        r@ == import_path(title@),
{
    let slug = slugify(title);
    let mut out = chars_of(slug.as_str());
    extend_str(&mut out, ".md");
    string_of(&out)
}

fn begin(s: &mut Session, cli: Cli, home: String) -> (a: Action)
    ensures
        on_begin(old(s)@, cli, home, final(s)@, a),
{
    let ghost c = cli;
    match cli.into_command(home.as_str()) {
        Ok(Command::ImportFromGdoc { doc_id }) => {
            let request = get_document_request(doc_id.as_str());
            s.step = Step::GdocFetch;
            s.mode = Mode::ImportGdoc;
            s.doc_id = doc_id;
            Action::Http { request }
        },
        Ok(Command::ImportFromLinear { doc_id }) => {
            let request = get_linear_request(doc_id.as_str());
            s.step = Step::LinearFetch;
            s.mode = Mode::ImportLinear;
            s.doc_id = doc_id;
            Action::Http { request }
        },
        Ok(Command::Sync { path, with_gdoc, with_linear }) => {
            let read = path.clone();
            s.step = Step::ReadMd;
            s.mode = Mode::Sync;
            s.path = path;
            s.want_gdoc = with_gdoc;
            s.want_linear = with_linear;
            Action::ReadFile { path: read }
        },
        Err(e) => finish_with(s, e),
    }
}

fn gdoc_fetched(s: &mut Session, r: Result<Json, HttpFailure>) -> (a: Action)
    ensures
        on_gdoc_fetched(old(s)@, r, final(s)@, a),
{
    match r {
        Err(f) => {
            let e = request_failure(
                f,
                Credential::Google,
                "Failed to fetch Google Doc",
                "Google Docs API error (get)",
                "Invalid Google Docs response",
            );
            finish_with(s, e)
        },
        Ok(json) => {
            let gdoc = gdoc_from_response(s.doc_id.as_str(), &json);
            let path = import_path_of(gdoc.title.as_str());
            let content = ensure_trailing_newline(gdoc.text.as_str());
            let mut fm = Frontmatter::empty();
            fm.gdoc_url = Some(gdoc.url);
            let canon = path.clone();
            s.step = Step::GitCanon;
            s.path = path;
            s.title = gdoc.title;
            s.content = content;
            s.frontmatter = fm;
            Action::Canonicalize { path: canon }
        },
    }
}

fn linear_fetched(s: &mut Session, r: Result<Json, HttpFailure>) -> (a: Action)
    ensures
        on_linear_fetched(old(s)@, r, final(s)@, a),
{
    match r {
        Err(f) => linear_failure(s, f),
        Ok(json) => match graphql_data(json) {
            Err(e) => finish_with(s, e),
            Ok(data) => {
                let doc = linear_doc_from_data(s.doc_id.as_str(), &data);
                let path = import_path_of(doc.title.as_str());
                let content = ensure_trailing_newline(doc.content.as_str());
                let mut fm = Frontmatter::empty();
                fm.linear_doc_id = Some(doc.id);
                fm.linear_doc_url = Some(doc.url);
                let canon = path.clone();
                s.step = Step::GitCanon;
                s.path = path;
                s.title = doc.title;
                s.content = content;
                s.frontmatter = fm;
                Action::Canonicalize { path: canon }
            },
        },
    }
}

/// Ends the run with the failure of a prompt.
fn prompt_failure(s: &mut Session, context: &str, c: String) -> (a: Action)
    ensures
        prompt_failed(old(s)@, context@, c, final(s)@, a),
{
    s.step = Step::Done;
    Action::Finish {
        result: Err(DsyncError::Prompt { context: String::from_str(context), cause: c }),
    }
}

/// `git` with two arguments.
fn git2(a1: &str, a2: &str, dir: String) -> (a: Action)
    ensures
        is_git(a, seq![a1@, a2@], dir@),
{
    let mut args: Vec<String> = Vec::new();
    args.push(String::from_str(a1));
    args.push(String::from_str(a2));
    Action::RunGit { args, dir }
}

/// `git` with three arguments.
fn git3(a1: &str, a2: &str, a3: &str, dir: String) -> (a: Action)
    ensures
        is_git(a, seq![a1@, a2@, a3@], dir@),
{
    let mut args: Vec<String> = Vec::new();
    args.push(String::from_str(a1));
    args.push(String::from_str(a2));
    args.push(String::from_str(a3));
    Action::RunGit { args, dir }
}

/// The canonical form of a path when there is one, else the path itself.
pub fn canonicalize_or_fallback(path: String, canonical: Option<String>) -> (r: String)
    ensures
        r@ == canonical_or(canonical.deep_view(), path@),
{
    match canonical {
        Some(c) => c,
        None => path,
    }
}

/// `str::trim`, owned.
fn trimmed(s: &str) -> (r: String)
    ensures
        r@ == trim(s@),
{
    let v = chars_of(s);
    let t = trim_vec(&v);
    string_of(&t)
}

fn enter_body_known(s: &mut Session) -> (a: Action)
    ensures
        body_known(old(s)@, final(s)@, a),
{
    let title = match first_heading(s.content.as_str()) {
        Some(h) => h,
        None => file_stem_fallback(s.path.as_str()),
    };
    s.title = title;
    s.step = Step::GitCanon;
    Action::Canonicalize { path: s.path.clone() }
}

fn file_read(s: &mut Session, r: Result<String, String>) -> (a: Action)
    ensures
        on_file_read(old(s)@, r, final(s)@, a),
{
    match r {
        Err(cause) => {
            let path = s.path.clone();
            s.step = Step::Done;
            Action::Finish { result: Err(DsyncError::ReadFailed { path, cause }) }
        },
        Ok(raw) => {
            let parsed = parse_frontmatter(raw.as_str());
            s.content = parsed.content;
            match parsed.yaml {
                Some(yaml) => {
                    s.step = Step::ParseFm;
                    Action::ParseFrontmatter { yaml }
                },
                None => {
                    s.frontmatter = Frontmatter::empty();
                    enter_body_known(s)
                },
            }
        },
    }
}

fn frontmatter_parsed(s: &mut Session, r: Result<Frontmatter, String>) -> (a: Action)
    ensures
        on_frontmatter_parsed(old(s)@, r, final(s)@, a),
{
    match r {
        Err(cause) => {
            s.step = Step::Done;
            Action::Finish { result: Err(DsyncError::InvalidFrontmatter { cause }) }
        },
        Ok(fm) => {
            s.frontmatter = fm;
            enter_body_known(s)
        },
    }
}

fn enter_sync_write(s: &mut Session) -> (a: Action)
    ensures
        sync_write(old(s)@, final(s)@, a),
{
    let content = upsert_dsync_links(
        s.content.as_str(),
        opt_str(&s.frontmatter.gdoc_url),
        opt_str(&s.frontmatter.linear_doc_url),
        opt_str(&s.frontmatter.git_url),
    );
    s.content = content;
    s.step = Step::SyncSerialize;
    Action::SerializeFrontmatter { frontmatter: s.frontmatter.duplicate() }
}

/// `Option<String>::as_deref`.
fn opt_str(o: &Option<String>) -> (r: Option<&str>)
    ensures
        opt_view(r) == o.deep_view(),
{
    match o {
        Some(x) => Some(x.as_str()),
        None => None,
    }
}

fn enter_maybe_create_linear(s: &mut Session) -> (a: Action)
    ensures
        maybe_create_linear(old(s)@, final(s)@, a),
{
    if s.want_linear && s.frontmatter.linear_doc_id.is_none() {
        s.step = Step::Teams;
        Action::Http { request: graphql_request(TEAMS_QUERY, object0()) }
    } else {
        enter_sync_write(s)
    }
}

fn enter_maybe_create_gdoc(s: &mut Session) -> (a: Action)
    ensures
        maybe_create_gdoc(old(s)@, final(s)@, a),
{
    if s.want_gdoc && s.frontmatter.gdoc_url.is_none() {
        s.step = Step::FolderPrompt;
        Action::PromptText { prompt: String::from_str(FOLDER_PROMPT) }
    } else {
        enter_maybe_create_linear(s)
    }
}

fn enter_git_done(s: &mut Session, url: Option<String>) -> (a: Action)
    ensures
        git_done(old(s)@, url.deep_view(), final(s)@, a),
{
    match s.mode {
        Mode::Sync => {
            if url.is_some() {
                s.frontmatter.git_url = url;
            }
            s.want_gdoc = s.want_gdoc || s.frontmatter.gdoc_url.is_some();
            s.want_linear = s.want_linear || s.frontmatter.linear_doc_id.is_some()
                || s.frontmatter.linear_doc_url.is_some();
            enter_maybe_create_gdoc(s)
        },
        _ => {
            s.frontmatter.git_url = url;
            let content = upsert_dsync_links(
                s.content.as_str(),
                opt_str(&s.frontmatter.gdoc_url),
                opt_str(&s.frontmatter.linear_doc_url),
                opt_str(&s.frontmatter.git_url),
            );
            s.content = content;
            s.step = Step::ImportSerialize;
            Action::SerializeFrontmatter { frontmatter: s.frontmatter.duplicate() }
        },
    }
}

fn path_canonical(s: &mut Session, r: Option<String>) -> (a: Action)
    ensures
        on_path_canonical(old(s)@, r, final(s)@, a),
{
    match r {
        Some(abs) => {
            s.git_abs = abs.clone();
            s.step = Step::GitInspect;
            Action::Inspect { path: abs }
        },
        None => {
            s.step = Step::GitDirCanon;
            Action::Canonicalize { path: path_dir(s.path.as_str()) }
        },
    }
}

fn inspected(s: &mut Session, kind: PathKind) -> (a: Action)
    ensures
        on_inspected(old(s)@, kind, final(s)@, a),
{
    let dir = git_start_dir(s.git_abs.as_str(), kind);
    s.step = Step::GitTop;
    git2("rev-parse", "--show-toplevel", dir)
}

fn dir_canonical(s: &mut Session, r: Option<String>) -> (a: Action)
    ensures
        on_dir_canonical(old(s)@, r, final(s)@, a),
{
    let dir = match &r {
        Some(d) => d.clone(),
        None => path_dir(s.path.as_str()),
    };
    s.git_abs = locate_missing(r, s.path.as_str());
    s.step = Step::GitTop;
    git2("rev-parse", "--show-toplevel", dir)
}

fn git_top(s: &mut Session, r: Option<String>) -> (a: Action)
    ensures
        on_git_top(old(s)@, r, final(s)@, a),
{
    match r {
        None => enter_git_done(s, None),
        Some(out) => {
            let root = trimmed(out.as_str());
            s.git_root = root.clone();
            s.step = Step::GitRootCanon;
            Action::Canonicalize { path: root }
        },
    }
}

fn root_canonical(s: &mut Session, r: Option<String>) -> (a: Action)
    ensures
        on_root_canonical(old(s)@, r, final(s)@, a),
{
    let root = canonicalize_or_fallback(s.git_root.clone(), r);
    s.git_root = root.clone();
    s.step = Step::GitRemote;
    git3("remote", "get-url", "origin", root)
}

fn git_remote(s: &mut Session, r: Option<String>) -> (a: Action)
    ensures
        on_git_remote(old(s)@, r, final(s)@, a),
{
    match r {
        None => enter_git_done(s, None),
        Some(out) => {
            s.git_remote = trimmed(out.as_str());
            s.step = Step::GitBranch;
            git3("rev-parse", "--abbrev-ref", "HEAD", s.git_root.clone())
        },
    }
}

fn git_branch(s: &mut Session, r: Option<String>) -> (a: Action)
    ensures
        on_git_branch(old(s)@, r, final(s)@, a),
{
    match r {
        None => enter_git_done(s, None),
        Some(out) => {
            let branch = trimmed(out.as_str());
            let url = git_blob_url_for_path(
                s.git_abs.as_str(),
                s.git_root.as_str(),
                s.git_remote.as_str(),
                branch.as_str(),
            ).ok();
            enter_git_done(s, url)
        },
    }
}

/// A line to print.
fn print_line(line: &str) -> (a: Action)
    ensures
        is_print(a, line@),
{
    Action::Print { line: String::from_str(line) }
}

/// A line to print: `head` followed by `tail`.
fn print_joined(head: &str, tail: &str) -> (a: Action)
    ensures
        is_print(a, head@ + tail@),
{
    Action::Print { line: concat_str(head, tail) }
}

/// The request that sets the content of Linear document `id`.
fn update_linear_request(id: &str, content: &str) -> (r: HttpRequest)
    ensures
        is_update_linear(r, id@, content@),
{
    proof {
        reveal_strlit("id");
        reveal_strlit("content");
        assert("id"@.len() == 2 && "content"@.len() == 7);
    }
    graphql_request(UPDATE_DOCUMENT_QUERY, object2("id", text(id), "content", text(content)))
}

/// The request that creates a Linear document.
fn create_linear_request(title: &str, content: &str, team: &str, project: Option<String>) -> (r:
    HttpRequest)
    ensures
        is_create_linear(r, title@, content@, team@, project.deep_view()),
{
    proof {
        reveal_strlit("title");
        reveal_strlit("content");
        reveal_strlit("teamId");
        reveal_strlit("projectId");
        assert("title"@.len() == 5 && "content"@.len() == 7);
        assert("teamId"@.len() == 6 && "projectId"@.len() == 9);
    }
    let project_value = match project {
        Some(p) => Json::Str(p),
        None => Json::Null,
    };
    let variables = object4(
        "title",
        text(title),
        "content",
        text(content),
        "teamId",
        text(team),
        "projectId",
        project_value,
    );
    graphql_request(CREATE_DOCUMENT_QUERY, variables)
}

fn folder_entered(s: &mut Session, r: Result<String, String>) -> (a: Action)
    ensures
        on_folder_entered(old(s)@, r, final(s)@, a),
{
    match r {
        Err(c) => prompt_failure(s, "Failed to read folder ID", c),
        Ok(x) => {
            let v = chars_of(x.as_str());
            let f = trim_vec(&v);
            let request = create_document_request(s.title.as_str());
            s.folder_id = if f.len() == 0 {
                None
            } else {
                Some(string_of(&f))
            };
            s.step = Step::CreateGdoc;
            Action::Http { request }
        },
    }
}

fn enter_gdoc_created(s: &mut Session) -> (a: Action)
    ensures
        gdoc_created(old(s)@, final(s)@, a),
{
    s.frontmatter.gdoc_url = Some(gdoc_url(s.target_id.as_str()));
    s.step = Step::GdocCreatedPrinted;
    print_line(GDOC_CREATED)
}

fn gdoc_created_resp(s: &mut Session, r: Result<Json, HttpFailure>) -> (a: Action)
    ensures
        on_gdoc_created(old(s)@, r, final(s)@, a),
{
    match r {
        Err(f) => {
            let e = request_failure(
                f,
                Credential::Google,
                "Failed to create Google Doc",
                "Google Docs API error (create)",
                "Invalid Google Docs API response",
            );
            finish_with(s, e)
        },
        Ok(json) => match created_document_id(&json) {
            None => finish_with(s, DsyncError::MissingDocumentId),
            Some(id) => {
                let moved = match &s.folder_id {
                    Some(folder) => Some(move_document_request(id.as_str(), folder.as_str())),
                    None => None,
                };
                s.target_id = id;
                match moved {
                    Some(request) => {
                        s.step = Step::MoveGdoc;
                        Action::Http { request }
                    },
                    None => enter_gdoc_created(s),
                }
            },
        },
    }
}

fn gdoc_moved(s: &mut Session, r: Result<Json, HttpFailure>) -> (a: Action)
    ensures
        on_gdoc_moved(old(s)@, r, final(s)@, a),
{
    match r {
        Err(f) => {
            let e = request_failure(
                f,
                Credential::Google,
                "Failed to move doc to Drive folder",
                "Google Drive API error (move)",
                "Google Drive API error (move)",
            );
            finish_with(s, e)
        },
        Ok(_) => enter_gdoc_created(s),
    }
}

fn teams_known(s: &mut Session, r: Result<Json, HttpFailure>) -> (a: Action)
    ensures
        on_teams(old(s)@, r, final(s)@, a),
{
    match r {
        Err(f) => linear_failure(s, f),
        Ok(json) => match graphql_data(json) {
            Err(e) => finish_with(s, e),
            Ok(data) => match teams_from_data(data) {
                None => finish_with(s, DsyncError::InvalidTeams),
                Some(nodes) => {
                    if nodes.len() == 0 {
                        finish_with(s, DsyncError::NoTeams)
                    } else {
                        let items = names_of(&nodes);
                        s.teams = nodes;
                        s.step = Step::TeamSelect;
                        Action::PromptSelect { prompt: String::from_str(TEAM_PROMPT), items }
                    }
                },
            },
        },
    }
}

fn team_selected(s: &mut Session, r: Result<usize, String>) -> (a: Action)
    requires
        r matches Ok(i) ==> i < old(s).teams.len(),
    ensures
        on_team_selected(old(s)@, r, final(s)@, a),
{
    match r {
        Err(c) => prompt_failure(s, "Failed to read team selection prompt", c),
        Ok(i) => match str_at(&s.teams[i], "id") {
            None => finish_with(s, DsyncError::TeamMissingId),
            Some(id) => {
                s.team_id = id;
                s.step = Step::Projects;
                Action::Http { request: graphql_request(PROJECTS_QUERY, object0()) }
            },
        },
    }
}

fn projects_known(s: &mut Session, r: Result<Json, HttpFailure>) -> (a: Action)
    ensures
        on_projects(old(s)@, r, final(s)@, a),
{
    match r {
        Err(f) => linear_failure(s, f),
        Ok(json) => match graphql_data(json) {
            Err(e) => finish_with(s, e),
            Ok(data) => {
                let nodes = projects_from_data(data);
                let items = project_options_of(&nodes);
                s.projects = nodes;
                s.step = Step::ProjectSelect;
                Action::PromptSelect { prompt: String::from_str(PROJECT_PROMPT), items }
            },
        },
    }
}

fn project_selected(s: &mut Session, r: Result<usize, String>) -> (a: Action)
    ensures
        on_project_selected(old(s)@, r, final(s)@, a),
{
    match r {
        Err(c) => prompt_failure(s, "Failed to read project selection prompt", c),
        Ok(i) => {
            let project = chosen_project_id(&s.projects, i);
            let request = create_linear_request(
                s.title.as_str(),
                s.content.as_str(),
                s.team_id.as_str(),
                project,
            );
            s.step = Step::CreateLinear;
            Action::Http { request }
        },
    }
}

fn linear_created(s: &mut Session, r: Result<Json, HttpFailure>) -> (a: Action)
    ensures
        on_linear_created(old(s)@, r, final(s)@, a),
{
    match r {
        Err(f) => linear_failure(s, f),
        Ok(json) => match graphql_data(json) {
            Err(e) => finish_with(s, e),
            Ok(data) => {
                let doc = created_linear_doc(s.title.as_str(), s.content.as_str(), &data);
                s.frontmatter.linear_doc_id = Some(doc.id);
                s.frontmatter.linear_doc_url = Some(doc.url);
                s.step = Step::LinearCreatedPrinted;
                print_line(LINEAR_CREATED)
            },
        },
    }
}

fn serialized(s: &mut Session, r: Result<String, String>, next: Step) -> (a: Action)
    ensures
        on_serialized(old(s)@, r, next, final(s)@, a),
{
    match r {
        Err(cause) => {
            s.step = Step::Done;
            Action::Finish { result: Err(DsyncError::SerializeFailed { cause }) }
        },
        Ok(yaml) => {
            let contents = render_markdown(yaml.as_str(), s.content.as_str());
            s.step = next;
            Action::WriteFile { path: s.path.clone(), contents }
        },
    }
}

fn enter_final_write(s: &mut Session) -> (a: Action)
    ensures
        final_write(old(s)@, final(s)@, a),
{
    s.step = Step::FinalSerialize;
    Action::SerializeFrontmatter { frontmatter: s.frontmatter.duplicate() }
}

fn enter_push_linear(s: &mut Session) -> (a: Action)
    ensures
        push_linear(old(s)@, final(s)@, a),
{
    match doc_id_from_frontmatter(&s.frontmatter) {
        Some(id) => {
            let request = update_linear_request(id.as_str(), s.content.as_str());
            s.target_id = id;
            s.step = Step::PushLinear;
            Action::Http { request }
        },
        None => enter_final_write(s),
    }
}

fn enter_push_gdoc(s: &mut Session) -> (a: Action)
    ensures
        push_gdoc(old(s)@, final(s)@, a),
{
    let id = match &s.frontmatter.gdoc_url {
        Some(u) => match doc_id_from_url(u.as_str()) {
            Some(id) => id,
            None => return finish_with(s, DsyncError::InvalidGdocUrl),
        },
        None => return enter_push_linear(s),
    };
    let request = get_document_request(id.as_str());
    s.target_id = id;
    s.step = Step::PushGdocRead;
    Action::Http { request }
}

fn written(s: &mut Session, r: Result<(), String>) -> (a: Action)
    ensures
        on_written(old(s)@, r, final(s)@, a),
{
    match r {
        Err(cause) => {
            let path = s.path.clone();
            s.step = Step::Done;
            Action::Finish { result: Err(DsyncError::WriteFailed { path, cause }) }
        },
        Ok(_) => match s.step {
            Step::SyncWrite => enter_push_gdoc(s),
            Step::FinalWrite => {
                s.step = Step::FinalPrinted;
                print_joined(SYNC_DONE, s.path.as_str())
            },
            _ => {
                s.step = Step::ImportPrinted;
                match s.mode {
                    Mode::ImportGdoc => print_joined(IMPORTED_FROM_GDOC, s.path.as_str()),
                    _ => print_joined(IMPORTED_FROM_LINEAR, s.path.as_str()),
                }
            },
        },
    }
}

fn gdoc_read(s: &mut Session, r: Result<Json, HttpFailure>) -> (a: Action)
    ensures
        on_gdoc_read(old(s)@, r, final(s)@, a),
{
    match r {
        Err(f) => {
            let e = request_failure(
                f,
                Credential::Google,
                "Failed to read current doc",
                "Google Docs API error (get)",
                "Invalid get document response",
            );
            finish_with(s, e)
        },
        Ok(json) => {
            let end = end_index(&json);
            let request = replace_content_request(s.target_id.as_str(), end, s.content.as_str());
            s.step = Step::PushGdocUpdate;
            Action::Http { request }
        },
    }
}

fn gdoc_updated(s: &mut Session, r: Result<Json, HttpFailure>) -> (a: Action)
    ensures
        on_gdoc_updated(old(s)@, r, final(s)@, a),
{
    match r {
        Err(f) => {
            let e = request_failure(
                f,
                Credential::Google,
                "Failed to update Google Doc content",
                "Google Docs API error (batchUpdate)",
                "Google Docs API error (batchUpdate)",
            );
            finish_with(s, e)
        },
        Ok(_) => {
            s.step = Step::GdocUpdatedPrinted;
            print_line(GDOC_UPDATED)
        },
    }
}

fn linear_updated(s: &mut Session, r: Result<Json, HttpFailure>) -> (a: Action)
    ensures
        on_linear_updated(old(s)@, r, final(s)@, a),
{
    match r {
        Err(f) => linear_failure(s, f),
        Ok(json) => match graphql_data(json) {
            Err(e) => finish_with(s, e),
            Ok(_) => {
                s.step = Step::LinearUpdatedPrinted;
                print_line(LINEAR_UPDATED)
            },
        },
    }
}

impl Session {
    /// A run that has not started.
    pub fn new() -> (r: Session)
        ensures
            r@ == initial_session(),
    {
        let r = Session {
            step: Step::Begin,
            mode: Mode::Sync,
            doc_id: String::new(),
            path: String::new(),
            frontmatter: Frontmatter::empty(),
            content: String::new(),
            title: String::new(),
            want_gdoc: false,
            want_linear: false,
            folder_id: None,
            target_id: String::new(),
            git_abs: String::new(),
            git_root: String::new(),
            git_remote: String::new(),
            teams: Vec::new(),
            team_id: String::new(),
            projects: Vec::new(),
        };
        assert(r@.teams =~= Seq::<Json>::empty());
        assert(r@.projects =~= Seq::<Json>::empty());
        r
    }

    /// Whether `event` is an outcome this session can take (see [`accepts`]).
    pub fn accepts_event(&self, event: &Event) -> (b: bool)
        ensures
            b == accepts(self@, *event),
    {
        match self.step {
            Step::Begin => matches!(event, Event::Start { .. }),
            Step::GdocFetch | Step::LinearFetch | Step::CreateGdoc | Step::MoveGdoc | Step::Teams
            | Step::Projects | Step::CreateLinear | Step::PushGdocRead | Step::PushGdocUpdate
            | Step::PushLinear => matches!(event, Event::HttpResponse(_)),
            Step::ReadMd => matches!(event, Event::FileRead(_)),
            Step::ParseFm => matches!(event, Event::FrontmatterParsed(_)),
            Step::GitCanon | Step::GitRootCanon | Step::GitDirCanon => matches!(
                event,
                Event::Canonicalized(_)
            ),
            Step::GitInspect => matches!(event, Event::Inspected(_)),
            Step::GitTop | Step::GitRemote | Step::GitBranch => matches!(event, Event::GitOutput(_)),
            Step::FolderPrompt => matches!(event, Event::TextEntered(_)),
            Step::TeamSelect => match event {
                Event::Selected(Ok(i)) => *i < self.teams.len(),
                Event::Selected(Err(_)) => true,
                _ => false,
            },
            Step::ProjectSelect => matches!(event, Event::Selected(_)),
            Step::SyncSerialize | Step::FinalSerialize | Step::ImportSerialize => matches!(
                event,
                Event::FrontmatterSerialized(_)
            ),
            Step::SyncWrite | Step::FinalWrite | Step::ImportWrite => matches!(
                event,
                Event::FileWritten(_)
            ),
            Step::GdocCreatedPrinted | Step::LinearCreatedPrinted | Step::GdocUpdatedPrinted
            | Step::LinearUpdatedPrinted | Step::FinalPrinted | Step::ImportPrinted => matches!(
                event,
                Event::Printed
            ),
            Step::Done => false,
        }
    }
}

/// Takes one step of a run: the session `session`, waiting for the outcome of
/// its last action, gets `event` and says what to do next.
pub fn run(session: &mut Session, event: Event) -> (a: Action)
    requires
        accepts(old(session)@, event),
    ensures
        transition(old(session)@, event, final(session)@, a),
{
    let s = session;
    match event {
        Event::Start { cli, home } => begin(s, cli, home),
        Event::HttpResponse(r) => match s.step {
            Step::GdocFetch => gdoc_fetched(s, r),
            Step::LinearFetch => linear_fetched(s, r),
            Step::CreateGdoc => gdoc_created_resp(s, r),
            Step::MoveGdoc => gdoc_moved(s, r),
            Step::Teams => teams_known(s, r),
            Step::Projects => projects_known(s, r),
            Step::CreateLinear => linear_created(s, r),
            Step::PushGdocRead => gdoc_read(s, r),
            Step::PushGdocUpdate => gdoc_updated(s, r),
            _ => linear_updated(s, r),
        },
        Event::FileRead(r) => file_read(s, r),
        Event::FrontmatterParsed(r) => frontmatter_parsed(s, r),
        Event::Canonicalized(r) => match s.step {
            Step::GitCanon => path_canonical(s, r),
            Step::GitDirCanon => dir_canonical(s, r),
            _ => root_canonical(s, r),
        },
        Event::Inspected(kind) => inspected(s, kind),
        Event::GitOutput(r) => match s.step {
            Step::GitTop => git_top(s, r),
            Step::GitRemote => git_remote(s, r),
            _ => git_branch(s, r),
        },
        Event::TextEntered(r) => folder_entered(s, r),
        Event::Selected(r) => match s.step {
            Step::TeamSelect => team_selected(s, r),
            _ => project_selected(s, r),
        },
        Event::FrontmatterSerialized(r) => match s.step {
            Step::SyncSerialize => serialized(s, r, Step::SyncWrite),
            Step::FinalSerialize => serialized(s, r, Step::FinalWrite),
            _ => serialized(s, r, Step::ImportWrite),
        },
        Event::FileWritten(r) => written(s, r),
        Event::Printed => match s.step {
            Step::GdocCreatedPrinted => enter_maybe_create_linear(s),
            Step::LinearCreatedPrinted => enter_sync_write(s),
            Step::GdocUpdatedPrinted => enter_push_linear(s),
            Step::LinearUpdatedPrinted => enter_final_write(s),
            _ => {
                s.step = Step::Done;
                Action::Finish { result: Ok(()) }
            },
        },
    }
}

// ---------------------------------------------------------------------------
// Laws of a run
// ---------------------------------------------------------------------------

/// How far a step is from the end of a run: every step moves closer.
pub open spec fn steps_left(step: Step) -> nat {
    match step {
        Step::Begin => 40,
        Step::GdocFetch => 39,
        Step::LinearFetch => 39,
        Step::ReadMd => 38,
        Step::ParseFm => 37,
        Step::GitCanon => 36,
        Step::GitInspect => 35,
        Step::GitDirCanon => 35,
        Step::GitTop => 34,
        Step::GitRootCanon => 33,
        Step::GitRemote => 32,
        Step::GitBranch => 31,
        Step::FolderPrompt => 30,
        Step::CreateGdoc => 29,
        Step::MoveGdoc => 28,
        Step::GdocCreatedPrinted => 27,
        Step::Teams => 26,
        Step::TeamSelect => 25,
        Step::Projects => 24,
        Step::ProjectSelect => 23,
        Step::CreateLinear => 22,
        Step::LinearCreatedPrinted => 21,
        Step::SyncSerialize => 20,
        Step::SyncWrite => 19,
        Step::PushGdocRead => 18,
        Step::PushGdocUpdate => 17,
        Step::GdocUpdatedPrinted => 16,
        Step::PushLinear => 15,
        Step::LinearUpdatedPrinted => 14,
        Step::FinalSerialize => 13,
        Step::FinalWrite => 12,
        Step::FinalPrinted => 11,
        Step::ImportSerialize => 10,
        Step::ImportWrite => 9,
        Step::ImportPrinted => 8,
        Step::Done => 0,
    }
}

/// Every run ends: each step moves the session strictly closer to `Done`, the
/// run asks to finish exactly when it reaches `Done` (keeping the rest of the
/// session as it was), and a finished run takes no more outcomes.
#[verifier::rlimit(60)]
pub proof fn lemma_run_ends(s: SessionView, event: Event, t: SessionView, a: Action)
    requires
        transition(s, event, t, a),
    ensures
        steps_left(t.step) < steps_left(s.step),
        (a is Finish) <==> (t.step == Step::Done),
        t.step == Step::Done ==> (t == SessionView { step: Step::Done, ..s }),
        t.step == Step::Done ==> forall|e: Event| !accepts(t, e),
{
}

/// The steps of a sync from the first write of the file to its end.
pub open spec fn after_links_written(step: Step) -> bool {
    match step {
        Step::SyncSerialize | Step::SyncWrite | Step::PushGdocRead | Step::PushGdocUpdate
        | Step::GdocUpdatedPrinted | Step::PushLinear | Step::LinearUpdatedPrinted
        | Step::FinalSerialize | Step::FinalWrite | Step::FinalPrinted => true,
        _ => false,
    }
}

/// A sync links a document of each provider it is asked for (or already
/// linked to) before it writes the file: the Google Doc once its creation is
/// done, the Linear Doc once the links block is about to be written.
pub open spec fn providers_linked(s: SessionView) -> bool {
    let gdoc_ok = s.want_gdoc ==> s.frontmatter.gdoc_url is Some;
    let linear_ok = s.want_linear ==> s.frontmatter.linear_doc_id is Some;
    match s.step {
        Step::GdocCreatedPrinted | Step::Teams | Step::TeamSelect | Step::Projects
        | Step::ProjectSelect | Step::CreateLinear => gdoc_ok,
        Step::LinearCreatedPrinted => gdoc_ok && linear_ok,
        _ => after_links_written(s.step) ==> gdoc_ok && linear_ok,
    }
}

/// Every step keeps `providers_linked`, which holds of a session that has not
/// started: whenever a sync writes the file or pushes it, each provider asked
/// for on the command line, or already linked in the frontmatter, has its
/// document linked (created first when there was none).
pub proof fn lemma_providers_linked(s: SessionView, event: Event, t: SessionView, a: Action)
    requires
        providers_linked(s),
        transition(s, event, t, a),
    ensures
        providers_linked(t),
        providers_linked(initial_session()),
{
}

/// `a` carries `body` wherever it sends one: a file write holds it under a
/// frontmatter, an upload to a Google Doc or a Linear Doc sends it as the content.
pub open spec fn carries_body(a: Action, body: Seq<char>) -> bool {
    match a {
        Action::WriteFile { contents, .. } => exists|yaml: Seq<char>|
            contents@ == #[trigger] rendered(yaml, body),
        Action::Http { request } => {
            ||| request.method == Method::Get
            ||| exists|id: Seq<char>, end: i64| #[trigger] is_replace_content(request, id, end, body)
            ||| exists|id: Seq<char>| #[trigger] is_update_linear(request, id, body)
        },
        _ => true,
    }
}

/// From the first write of a sync to its end, the body, the frontmatter and
/// the file stay as they are, and both writes of the file and the pushes to
/// the providers carry that same body, the one with the links block: the
/// Markdown file is the source of what the providers get.
pub proof fn lemma_sync_body_fixed(s: SessionView, event: Event, t: SessionView, a: Action)
    requires
        after_links_written(s.step),
        transition(s, event, t, a),
    ensures
        t.content == s.content,
        t.frontmatter == s.frontmatter,
        t.path == s.path,
        after_links_written(t.step) || t.step == Step::Done,
        carries_body(a, s.content),
{
    match event {
        Event::HttpResponse(Ok(json)) => {
            if s.step == Step::PushGdocRead {
                assert(is_replace_content(
                    a->request,
                    s.target_id,
                    end_index_of(json),
                    s.content,
                ));
            }
        },
        _ => {},
    }
}

/// `event` is an outcome of action `a`; a selection names one of the items offered.
pub open spec fn answers(a: Action, event: Event) -> bool {
    match a {
        Action::ReadFile { .. } => event is FileRead,
        Action::ParseFrontmatter { .. } => event is FrontmatterParsed,
        Action::SerializeFrontmatter { .. } => event is FrontmatterSerialized,
        Action::WriteFile { .. } => event is FileWritten,
        Action::Canonicalize { .. } => event is Canonicalized,
        Action::Inspect { .. } => event is Inspected,
        Action::RunGit { .. } => event is GitOutput,
        Action::Http { .. } => event is HttpResponse,
        Action::PromptText { .. } => event is TextEntered,
        Action::PromptSelect { items, .. } => match event {
            Event::Selected(r) => r matches Ok(i) ==> i < items.len(),
            _ => false,
        },
        Action::Print { .. } => event is Printed,
        Action::Finish { .. } => false,
    }
}

/// A run takes every outcome of each action it asks for, so performing the
/// actions one after another drives it, from its start, to its end.
#[verifier::rlimit(60)]
pub proof fn lemma_outcomes_accepted(
    s: SessionView,
    event: Event,
    t: SessionView,
    a: Action,
    next: Event,
)
    requires
        transition(s, event, t, a),
        answers(a, next),
    ensures
        accepts(t, next),
{
}

/// A parsed frontmatter handed to a run is as its YAML map gives it.
pub open spec fn event_wf(e: Event) -> bool {
    match e {
        Event::FrontmatterParsed(Ok(fm)) => frontmatter_wf(fm@),
        _ => true,
    }
}

/// Every request a run sends has a well-formed JSON body, and a run keeps its
/// frontmatter well formed (from a well-formed start and well-formed
/// outcomes): what it asks to serialise has its other keys in order, once,
/// and apart from the four keys it writes itself.
pub proof fn lemma_run_well_formed(s: SessionView, event: Event, t: SessionView, a: Action)
    requires
        transition(s, event, t, a),
        frontmatter_wf(s.frontmatter),
        event_wf(event),
    ensures
        a matches Action::Http { request } ==> request_wf(request),
        frontmatter_wf(t.frontmatter),
        a matches Action::SerializeFrontmatter { frontmatter } ==> frontmatter_wf(frontmatter@),
        frontmatter_wf(initial_session().frontmatter),
{
}

/// The title of a synced file, once its body is known: its first `# `
/// heading, else the stem of its file name, else `"document"`.
pub proof fn lemma_sync_title(s: SessionView, event: Event, t: SessionView, a: Action)
    requires
        s.step == Step::ReadMd || s.step == Step::ParseFm,
        transition(s, event, t, a),
        t.step == Step::GitCanon,
    ensures
        t.path == s.path,
        first_heading_of(t.content) matches Some(h) ==> t.title == h,
        first_heading_of(t.content) is None ==> (path_file_stem(s.path) matches Some(stem) ==> t.title
            == stem),
        first_heading_of(t.content) is None && path_file_stem(s.path) is None ==> t.title
            == "document"@,
{
}

/// A Linear Doc is imported under its own title (`"document"` when it has
/// none), into `{slug of the title}.md`, with its id (the one asked for when
/// the answer has none), its URL and its content.
pub proof fn lemma_linear_import(s: SessionView, json: Json, t: SessionView, a: Action)
    requires
        s.step == Step::LinearFetch,
        transition(s, Event::HttpResponse(Ok(json)), t, a),
        json_get(json, "errors"@) is None,
    ensures
        t.title == str_or(json_index(json_index(json, "data"@), "document"@), "title"@, "document"@),
        t.path == slug_of(t.title) + ".md"@,
        a matches Action::Canonicalize { path } && path@ == t.path,
        t.frontmatter.linear_doc_id == Some(
            str_or(json_index(json_index(json, "data"@), "document"@), "id"@, s.doc_id),
        ),
        t.frontmatter.linear_doc_url == Some(
            str_or(json_index(json_index(json, "data"@), "document"@), "url"@, ""@),
        ),
        t.content == with_trailing_newline(
            str_or(json_index(json_index(json, "data"@), "document"@), "content"@, ""@),
        ),
{
}

/// A Google Doc is imported under its title (`"document"` when it has none),
/// into `{slug of the title}.md`, with its edit URL and its text.
pub proof fn lemma_gdoc_import(s: SessionView, json: Json, t: SessionView, a: Action)
    requires
        s.step == Step::GdocFetch,
        transition(s, Event::HttpResponse(Ok(json)), t, a),
    ensures
        t.title == str_or(json, "title"@, "document"@),
        t.path == slug_of(t.title) + ".md"@,
        a matches Action::Canonicalize { path } && path@ == t.path,
        t.frontmatter.gdoc_url == Some("https://docs.google.com/document/d/"@ + s.doc_id + "/edit"@),
        t.content == with_trailing_newline(normalize(document_text(json))),
{
}

/// Choosing option `i` of the team selection picks the team at `i`, the one
/// whose name the option shows: the run goes on with that team's id.
pub proof fn lemma_team_choice(s: SessionView, i: usize, t: SessionView, a: Action)
    requires
        s.step == Step::TeamSelect,
        transition(s, Event::Selected(Ok(i)), t, a),
        t.step != Step::Done,
    ensures
        json_str(json_index(s.teams[i as int], "id"@)) == Some(t.team_id),
        t.step == Step::Projects,
{
}

} // verus!
