use dsync::application::{run, Action, Event, Session, Step};
use dsync::cli::Cli;
use dsync::document::Frontmatter;
use dsync::error::DsyncError;
use dsync::git::PathKind;
use dsync::http::{HttpFailure, Method};
use dsync::json::Json;

fn step(session: &mut Session, event: Event) -> Action {
    assert!(session.accepts_event(&event), "event not expected at {:?}", session.step);
    run(session, event)
}

fn json_object(entries: Vec<(&str, Json)>) -> Json {
    Json::Object(entries.into_iter().map(|(k, v)| (k.to_string(), v)).collect())
}

fn json_text(v: &str) -> Json {
    Json::Str(v.to_string())
}

fn sync_cli(file: &str, gdoc: Option<Option<&str>>, linear: Option<Option<&str>>) -> Cli {
    Cli {
        file: Some(file.to_string()),
        gdoc: gdoc.map(|o| o.map(|x| x.to_string())),
        linear: linear.map(|o| o.map(|x| x.to_string())),
    }
}

fn expect_path(a: Action) -> String {
    match a {
        Action::ReadFile { path } | Action::Canonicalize { path } | Action::Inspect { path } => path,
        _ => panic!("expected a path action"),
    }
}

fn expect_git(a: Action) -> (Vec<String>, String) {
    match a {
        Action::RunGit { args, dir } => (args, dir),
        _ => panic!("expected a git action"),
    }
}

fn expect_serialize(a: Action) -> Frontmatter {
    match a {
        Action::SerializeFrontmatter { frontmatter } => frontmatter,
        _ => panic!("expected a serialisation"),
    }
}

fn expect_write(a: Action) -> (String, String) {
    match a {
        Action::WriteFile { path, contents } => (path, contents),
        _ => panic!("expected a write"),
    }
}

fn expect_print(a: Action) -> String {
    match a {
        Action::Print { line } => line,
        _ => panic!("expected a print"),
    }
}

fn expect_error(a: Action) -> DsyncError {
    match a {
        Action::Finish { result: Err(e) } => e,
        _ => panic!("expected a failure"),
    }
}

fn expect_http(a: Action) -> dsync::http::HttpRequest {
    match a {
        Action::Http { request } => request,
        _ => panic!("expected a request"),
    }
}

/// Reads a plain file and passes the git steps with git failing.
fn start_plain_sync(session: &mut Session, cli: Cli, raw: &str) {
    let a = step(session, Event::Start { cli, home: String::new() });
    let path = expect_path(a);
    let a = step(session, Event::FileRead(Ok(raw.to_string())));
    assert_eq!(expect_path(a), path);
    let canonical = format!("/w/{path}");
    let a = step(session, Event::Canonicalized(Some(canonical.clone())));
    assert_eq!(expect_path(a), canonical);
    let a = step(session, Event::Inspected(PathKind::File));
    let (args, _) = expect_git(a);
    assert_eq!(args, vec!["rev-parse", "--show-toplevel"]);
}

#[test]
fn plain_sync_writes_the_file_unchanged_and_finishes() {
    let mut session = Session::new();
    let a = step(&mut session, Event::Start { cli: sync_cli("note.md", None, None), home: String::new() });
    assert_eq!(expect_path(a), "note.md");
    let a = step(&mut session, Event::FileRead(Ok("# Title\nBody\n".to_string())));
    assert_eq!(expect_path(a), "note.md");
    assert_eq!(session.title, "Title");
    let a = step(&mut session, Event::Canonicalized(Some("/w/note.md".to_string())));
    assert_eq!(expect_path(a), "/w/note.md");
    let a = step(&mut session, Event::Inspected(PathKind::File));
    let (args, dir) = expect_git(a);
    assert_eq!(args, vec!["rev-parse", "--show-toplevel"]);
    assert_eq!(dir, "/w");
    let a = step(&mut session, Event::GitOutput(None));
    let fm = expect_serialize(a);
    assert_eq!(fm, Frontmatter::default());
    let a = step(&mut session, Event::FrontmatterSerialized(Ok("{}\n".to_string())));
    assert_eq!(expect_write(a), ("note.md".to_string(), "# Title\nBody\n".to_string()));
    let a = step(&mut session, Event::FileWritten(Ok(())));
    expect_serialize(a);
    let a = step(&mut session, Event::FrontmatterSerialized(Ok("{}\n".to_string())));
    assert_eq!(expect_write(a), ("note.md".to_string(), "# Title\nBody\n".to_string()));
    let a = step(&mut session, Event::FileWritten(Ok(())));
    assert_eq!(expect_print(a), "🚀 Tri-sync completed: note.md");
    let a = step(&mut session, Event::Printed);
    assert!(matches!(a, Action::Finish { result: Ok(()) }));
    assert_eq!(session.step, Step::Done);
    assert!(!session.accepts_event(&Event::Printed));
}

#[test]
fn sync_in_a_git_repo_adds_git_links() {
    let mut session = Session::new();
    step(&mut session, Event::Start { cli: sync_cli("/w/note.md", None, None), home: String::new() });
    step(&mut session, Event::FileRead(Ok("# Title\nBody\n".to_string())));
    let a = step(&mut session, Event::Canonicalized(Some("/w/note.md".to_string())));
    assert_eq!(expect_path(a), "/w/note.md");
    let (_, dir) = expect_git(step(&mut session, Event::Inspected(PathKind::File)));
    assert_eq!(dir, "/w");
    let a = step(&mut session, Event::GitOutput(Some("/w\n".to_string())));
    assert_eq!(expect_path(a), "/w");
    let (args, dir) = expect_git(step(&mut session, Event::Canonicalized(Some("/w".to_string()))));
    assert_eq!((args, dir), (vec!["remote".to_string(), "get-url".to_string(), "origin".to_string()], "/w".to_string()));
    let (args, dir) = expect_git(step(&mut session, Event::GitOutput(Some("git@github.com:acme/project.git\n".to_string()))));
    assert_eq!(args, vec!["rev-parse", "--abbrev-ref", "HEAD"]);
    assert_eq!(dir, "/w");
    let fm = expect_serialize(step(&mut session, Event::GitOutput(Some("main\n".to_string()))));
    assert_eq!(fm.git_url.as_deref(), Some("https://github.com/acme/project/blob/main/note.md"));
    assert!(session.content.contains("## Document Links"));
    assert!(session.content.contains("- Git: https://github.com/acme/project/blob/main/note.md"));
    let (_, contents) = expect_write(step(
        &mut session,
        Event::FrontmatterSerialized(Ok("gitUrl: https://github.com/acme/project/blob/main/note.md\n".to_string())),
    ));
    assert!(contents.starts_with("---\ngitUrl: https://github.com/acme/project/blob/main/note.md\n---\n\n# Title\nBody"));
    assert!(contents.contains("- Git: https://github.com/acme/project/blob/main/note.md"));
}

#[test]
fn missing_input_fails_at_once() {
    let mut session = Session::new();
    let e = expect_error(step(
        &mut session,
        Event::Start { cli: Cli { file: None, gdoc: None, linear: None }, home: String::new() },
    ));
    assert!(matches!(e, DsyncError::MissingInput));
    assert_eq!(session.step, Step::Done);
}

#[test]
fn unreadable_file_and_bad_frontmatter_fail() {
    let mut session = Session::new();
    step(&mut session, Event::Start { cli: sync_cli("x.md", None, None), home: String::new() });
    let e = expect_error(step(&mut session, Event::FileRead(Err("no such file".to_string()))));
    match &e {
        DsyncError::ReadFailed { path, cause } => {
            assert_eq!(path, "x.md");
            assert_eq!(cause, "no such file");
        },
        other => panic!("{other:?}"),
    }
    assert_eq!(e.message(), "Could not read x.md");

    let mut session = Session::new();
    step(&mut session, Event::Start { cli: sync_cli("x.md", None, None), home: String::new() });
    match step(&mut session, Event::FileRead(Ok("---\n: :\n---\nbody".to_string()))) {
        Action::ParseFrontmatter { yaml } => assert_eq!(yaml, ": :"),
        _ => panic!("expected a parse"),
    }
    let e = expect_error(step(&mut session, Event::FrontmatterParsed(Err("bad".to_string()))));
    assert!(matches!(e, DsyncError::InvalidFrontmatter { .. }));
    assert_eq!(e.message(), "Invalid frontmatter YAML");
}

#[test]
fn serialize_and_write_failures_end_the_run() {
    let mut session = Session::new();
    start_plain_sync(&mut session, sync_cli("a.md", None, None), "text");
    step(&mut session, Event::GitOutput(None));
    let e = expect_error(step(&mut session, Event::FrontmatterSerialized(Err("nope".to_string()))));
    assert!(matches!(e, DsyncError::SerializeFailed { .. }));

    let mut session = Session::new();
    start_plain_sync(&mut session, sync_cli("a.md", None, None), "text");
    step(&mut session, Event::GitOutput(None));
    step(&mut session, Event::FrontmatterSerialized(Ok("{}".to_string())));
    let e = expect_error(step(&mut session, Event::FileWritten(Err("disk full".to_string()))));
    assert_eq!(e.message(), "Failed to write a.md");
}

#[test]
fn sync_with_gdoc_flag_creates_the_google_doc_then_pushes() {
    let mut session = Session::new();
    start_plain_sync(&mut session, sync_cli("plan.md", Some(None), None), "# Plan\nbody\n");
    match step(&mut session, Event::GitOutput(None)) {
        Action::PromptText { prompt } => assert_eq!(prompt, "🗂️ Drive folder ID (optional, press Enter to skip)"),
        _ => panic!("expected the folder prompt"),
    }
    let create = expect_http(step(&mut session, Event::TextEntered(Ok("  \n".to_string()))));
    assert_eq!(create.method, Method::Post);
    assert_eq!(create.url, "https://docs.googleapis.com/v1/documents");
    assert_eq!(session.folder_id, None);
    let a = step(&mut session, Event::HttpResponse(Ok(json_object(vec![("documentId", json_text("g1"))]))));
    assert_eq!(expect_print(a), "✨ Google Doc created.");
    assert_eq!(session.frontmatter.gdoc_url.as_deref(), Some("https://docs.google.com/document/d/g1/edit"));
    let fm = expect_serialize(step(&mut session, Event::Printed));
    assert_eq!(fm.gdoc_url.as_deref(), Some("https://docs.google.com/document/d/g1/edit"));
    assert!(session.content.contains("- GDocs: https://docs.google.com/document/d/g1/edit"));
    let (_, contents) = expect_write(step(&mut session, Event::FrontmatterSerialized(Ok("gdocUrl: x".to_string()))));
    let body = session.content.clone();
    assert_eq!(contents, format!("---\ngdocUrl: x\n---\n\n{body}"));
    let get = expect_http(step(&mut session, Event::FileWritten(Ok(()))));
    assert_eq!(get.method, Method::Get);
    assert_eq!(get.url, "https://docs.googleapis.com/v1/documents/g1");
    let body_end = json_object(vec![("body", json_object(vec![("content", Json::Array(vec![json_object(vec![("endIndex", Json::Int(7))])]))]))]);
    let update = expect_http(step(&mut session, Event::HttpResponse(Ok(body_end))));
    assert_eq!(update.url, "https://docs.googleapis.com/v1/documents/g1:batchUpdate");
    let inserted = match update.body.expect("body") {
        Json::Object(entries) => match &entries[0].1 {
            Json::Array(requests) => match &requests[1] {
                Json::Object(e) => match &e[0].1 {
                    Json::Object(ins) => match &ins[1].1 {
                        Json::Str(text) => text.clone(),
                        _ => panic!("text"),
                    },
                    _ => panic!("insertText"),
                },
                _ => panic!("request"),
            },
            _ => panic!("requests"),
        },
        _ => panic!("body"),
    };
    assert_eq!(inserted, body);
    assert_eq!(session.content, body);
    let a = step(&mut session, Event::HttpResponse(Ok(Json::Null)));
    assert_eq!(expect_print(a), "✅ Google Doc updated.");
    expect_serialize(step(&mut session, Event::Printed));
}

#[test]
fn folder_given_moves_the_new_doc() {
    let mut session = Session::new();
    start_plain_sync(&mut session, sync_cli("plan.md", Some(None), None), "body");
    step(&mut session, Event::GitOutput(None));
    step(&mut session, Event::TextEntered(Ok(" f42 ".to_string())));
    assert_eq!(session.folder_id.as_deref(), Some("f42"));
    let mv = expect_http(step(&mut session, Event::HttpResponse(Ok(json_object(vec![("documentId", json_text("g2"))])))));
    assert_eq!(mv.method, Method::Patch);
    assert_eq!(mv.url, "https://www.googleapis.com/drive/v3/files/g2?addParents=f42&fields=id,parents");
    let a = step(&mut session, Event::HttpResponse(Err(HttpFailure::Status("403".to_string()))));
    let e = expect_error(a);
    assert_eq!(e.message(), "Google Drive API error (move)");
}

#[test]
fn google_failures_map_to_errors() {
    let mut session = Session::new();
    start_plain_sync(&mut session, sync_cli("p.md", Some(None), None), "body");
    step(&mut session, Event::GitOutput(None));
    step(&mut session, Event::TextEntered(Ok(String::new())));
    let e = expect_error(step(&mut session, Event::HttpResponse(Err(HttpFailure::MissingCredential))));
    assert!(matches!(e, DsyncError::MissingGoogleToken));
    assert_eq!(e.message(), "Set GOOGLE_ACCESS_TOKEN with a valid Google bearer token");

    let mut session = Session::new();
    start_plain_sync(&mut session, sync_cli("p.md", Some(None), None), "body");
    step(&mut session, Event::GitOutput(None));
    step(&mut session, Event::TextEntered(Ok(String::new())));
    let e = expect_error(step(&mut session, Event::HttpResponse(Ok(json_object(vec![])))));
    assert!(matches!(e, DsyncError::MissingDocumentId));

    let mut session = Session::new();
    start_plain_sync(&mut session, sync_cli("p.md", Some(None), None), "body");
    step(&mut session, Event::GitOutput(None));
    let e = expect_error(step(&mut session, Event::TextEntered(Err("closed".to_string()))));
    assert_eq!(e.message(), "Failed to read folder ID");
}

#[test]
fn invalid_gdoc_url_stops_the_push() {
    let mut parsed = Frontmatter::default();
    parsed.gdoc_url = Some("https://example.com/not-a-doc".to_string());
    let mut session = Session::new();
    step(&mut session, Event::Start { cli: sync_cli("p.md", None, None), home: String::new() });
    match step(&mut session, Event::FileRead(Ok("---\ngdocUrl: nope\n---\nbody".to_string()))) {
        Action::ParseFrontmatter { yaml } => assert_eq!(yaml, "gdocUrl: nope"),
        _ => panic!("expected a parse"),
    }
    step(&mut session, Event::FrontmatterParsed(Ok(parsed)));
    step(&mut session, Event::Canonicalized(Some("/w/p.md".to_string())));
    step(&mut session, Event::Inspected(PathKind::File));
    expect_serialize(step(&mut session, Event::GitOutput(None)));
    step(&mut session, Event::FrontmatterSerialized(Ok("gdocUrl: x".to_string())));
    let e = expect_error(step(&mut session, Event::FileWritten(Ok(()))));
    assert!(matches!(e, DsyncError::InvalidGdocUrl));
    assert_eq!(e.message(), "Invalid gdocUrl in frontmatter");
}

fn to_teams(session: &mut Session) {
    start_plain_sync(session, sync_cli("l.md", None, Some(None)), "# L\nbody");
    let teams = expect_http(step(session, Event::GitOutput(None)));
    assert_eq!(teams.url, "https://api.linear.app/graphql");
}

#[test]
fn sync_with_linear_flag_creates_the_linear_doc() {
    let mut session = Session::new();
    to_teams(&mut session);
    let teams = json_object(vec![("data", json_object(vec![("teams", json_object(vec![("nodes", Json::Array(vec![json_object(vec![("id", json_text("t1")), ("name", json_text("Core"))])]))]))]))]);
    match step(&mut session, Event::HttpResponse(Ok(teams))) {
        Action::PromptSelect { prompt, items } => {
            assert_eq!(prompt, "🧠 Which Linear team should the doc be created in?");
            assert_eq!(items, vec!["Core"]);
        },
        _ => panic!("expected the team selection"),
    }
    assert!(!session.accepts_event(&Event::Selected(Ok(1))));
    expect_http(step(&mut session, Event::Selected(Ok(0))));
    assert_eq!(session.team_id, "t1");
    let projects = json_object(vec![("data", json_object(vec![("projects", json_object(vec![("nodes", Json::Array(vec![json_object(vec![("id", json_text("p1")), ("name", json_text("Alpha"))])]))]))]))]);
    match step(&mut session, Event::HttpResponse(Ok(projects))) {
        Action::PromptSelect { prompt, items } => {
            assert_eq!(prompt, "📌 Which Linear project? (optional)");
            assert_eq!(items, vec!["(no project)", "Alpha"]);
        },
        _ => panic!("expected the project selection"),
    }
    let create = expect_http(step(&mut session, Event::Selected(Ok(1))));
    let body = create.body.expect("body");
    let variables = match &body {
        Json::Object(entries) => &entries.iter().find(|e| e.0 == "variables").expect("variables").1,
        _ => panic!("object"),
    };
    match variables {
        Json::Object(entries) => {
            let get = |k: &str| &entries.iter().find(|e| e.0 == k).expect("key").1;
            assert!(matches!(get("title"), Json::Str(t) if t == "L"));
            assert!(matches!(get("content"), Json::Str(t) if t == "# L\nbody"));
            assert!(matches!(get("teamId"), Json::Str(t) if t == "t1"));
            assert!(matches!(get("projectId"), Json::Str(t) if t == "p1"));
        },
        _ => panic!("object"),
    }
    let created = json_object(vec![("data", json_object(vec![("createDocument", json_object(vec![("document", json_object(vec![("id", json_text("n1")), ("url", json_text("https://linear.app/w/document/n1/l"))]))]))]))]);
    assert_eq!(expect_print(step(&mut session, Event::HttpResponse(Ok(created)))), "✨ Linear Doc created.");
    let fm = expect_serialize(step(&mut session, Event::Printed));
    assert_eq!(fm.linear_doc_id.as_deref(), Some("n1"));
    assert!(session.content.contains("- Linear: https://linear.app/w/document/n1/l"));
    step(&mut session, Event::FrontmatterSerialized(Ok("linearDocId: n1".to_string())));
    let update = expect_http(step(&mut session, Event::FileWritten(Ok(()))));
    assert_eq!(update.url, "https://api.linear.app/graphql");
    assert_eq!(session.target_id, "n1");
    assert_eq!(expect_print(step(&mut session, Event::HttpResponse(Ok(json_object(vec![("data", Json::Null)]))))), "✅ Linear Doc updated.");
    expect_serialize(step(&mut session, Event::Printed));
    step(&mut session, Event::FrontmatterSerialized(Ok("linearDocId: n1".to_string())));
    assert_eq!(expect_print(step(&mut session, Event::FileWritten(Ok(())))), "🚀 Tri-sync completed: l.md");
}

#[test]
fn linear_failures_map_to_errors() {
    let mut session = Session::new();
    to_teams(&mut session);
    let e = expect_error(step(&mut session, Event::HttpResponse(Err(HttpFailure::MissingCredential))));
    assert!(matches!(e, DsyncError::MissingLinearKey));

    let mut session = Session::new();
    to_teams(&mut session);
    let e = expect_error(step(&mut session, Event::HttpResponse(Err(HttpFailure::Send("dns".to_string())))));
    assert_eq!(e.message(), "Network failure calling Linear API");

    let mut session = Session::new();
    to_teams(&mut session);
    let e = expect_error(step(&mut session, Event::HttpResponse(Ok(json_object(vec![("errors", Json::Array(vec![]))])))));
    assert!(matches!(e, DsyncError::Graphql { .. }));

    let mut session = Session::new();
    to_teams(&mut session);
    let e = expect_error(step(&mut session, Event::HttpResponse(Ok(json_object(vec![("data", json_object(vec![]))])))));
    assert!(matches!(e, DsyncError::InvalidTeams));

    let mut session = Session::new();
    to_teams(&mut session);
    let empty = json_object(vec![("data", json_object(vec![("teams", json_object(vec![("nodes", Json::Array(vec![]))]))]))]);
    let e = expect_error(step(&mut session, Event::HttpResponse(Ok(empty))));
    assert!(matches!(e, DsyncError::NoTeams));

    let mut session = Session::new();
    to_teams(&mut session);
    let no_id = json_object(vec![("data", json_object(vec![("teams", json_object(vec![("nodes", Json::Array(vec![json_object(vec![("name", json_text("X"))])]))]))]))]);
    step(&mut session, Event::HttpResponse(Ok(no_id)));
    let e = expect_error(step(&mut session, Event::Selected(Ok(0))));
    assert!(matches!(e, DsyncError::TeamMissingId));
    assert_eq!(e.message(), "Team is missing an id");
}

#[test]
fn import_from_gdoc_writes_slug_file() {
    let mut session = Session::new();
    let cli = Cli { file: None, gdoc: Some(Some("d9".to_string())), linear: None };
    let get = expect_http(step(&mut session, Event::Start { cli, home: String::new() }));
    assert_eq!(get.url, "https://docs.googleapis.com/v1/documents/d9");
    let paragraph = json_object(vec![("paragraph", json_object(vec![("elements", Json::Array(vec![json_object(vec![("textRun", json_object(vec![("content", json_text("Hi\r\n"))]))])]))]))]);
    let response = json_object(vec![("title", json_text("Team Notes!")), ("body", json_object(vec![("content", Json::Array(vec![paragraph]))]))]);
    let a = step(&mut session, Event::HttpResponse(Ok(response)));
    assert_eq!(expect_path(a), "team-notes.md");
    assert_eq!(session.content, "Hi\n");
    assert_eq!(expect_path(step(&mut session, Event::Canonicalized(None))), ".");
    let (_, dir) = expect_git(step(&mut session, Event::Canonicalized(None)));
    assert_eq!(dir, ".");
    let fm = expect_serialize(step(&mut session, Event::GitOutput(None)));
    assert_eq!(fm.gdoc_url.as_deref(), Some("https://docs.google.com/document/d/d9/edit"));
    assert_eq!(fm.git_url, None);
    assert_eq!(
        session.content,
        "Hi\n\n<!-- dsync-links:start -->\n## Document Links\n- GDocs: https://docs.google.com/document/d/d9/edit\n<!-- dsync-links:end -->\n"
    );
    let (path, _) = expect_write(step(&mut session, Event::FrontmatterSerialized(Ok("gdocUrl: x".to_string()))));
    assert_eq!(path, "team-notes.md");
    assert_eq!(
        expect_print(step(&mut session, Event::FileWritten(Ok(())))),
        "✅ Imported from Google Docs to team-notes.md"
    );
    assert!(matches!(step(&mut session, Event::Printed), Action::Finish { result: Ok(()) }));
}

#[test]
fn import_from_linear_uses_answer_and_fallbacks() {
    let mut session = Session::new();
    let cli = Cli { file: None, gdoc: None, linear: Some(Some("lin9".to_string())) };
    expect_http(step(&mut session, Event::Start { cli, home: String::new() }));
    let data = json_object(vec![("data", json_object(vec![("document", json_object(vec![("url", json_text("https://linear.app/w/document/lin9/x")), ("content", json_text("Body"))]))]))]);
    assert_eq!(expect_path(step(&mut session, Event::HttpResponse(Ok(data)))), "document.md");
    assert_eq!(session.frontmatter.linear_doc_id.as_deref(), Some("lin9"));
    assert_eq!(session.content, "Body\n");
    assert_eq!(expect_path(step(&mut session, Event::Canonicalized(None))), ".");
    let (_, dir) = expect_git(step(&mut session, Event::Canonicalized(None)));
    assert_eq!(dir, ".");
    expect_serialize(step(&mut session, Event::GitOutput(None)));
    assert!(session.content.contains("- Linear: https://linear.app/w/document/lin9/x"));
    step(&mut session, Event::FrontmatterSerialized(Ok("{}".to_string())));
    assert_eq!(
        expect_print(step(&mut session, Event::FileWritten(Ok(())))),
        "✅ Imported from Linear to document.md"
    );
}

#[test]
fn request_failures_carry_their_context() {
    let mut session = Session::new();
    let cli = Cli { file: None, gdoc: Some(Some("d1".to_string())), linear: None };
    step(&mut session, Event::Start { cli, home: String::new() });
    let e = expect_error(step(&mut session, Event::HttpResponse(Err(HttpFailure::Body("eof".to_string())))));
    match &e {
        DsyncError::Request { context, cause } => {
            assert_eq!(context, "Invalid Google Docs response");
            assert_eq!(cause, "eof");
        },
        other => panic!("{other:?}"),
    }
}

#[test]
fn import_into_a_new_file_in_a_git_repo_links_git() {
    let mut session = Session::new();
    let cli = Cli { file: None, gdoc: Some(Some("d9".to_string())), linear: None };
    step(&mut session, Event::Start { cli, home: String::new() });
    let response = json_object(vec![("title", json_text("Team Notes"))]);
    assert_eq!(expect_path(step(&mut session, Event::HttpResponse(Ok(response)))), "team-notes.md");
    // the file is not there yet: its directory (the current one) is asked for
    assert_eq!(expect_path(step(&mut session, Event::Canonicalized(None))), ".");
    let (args, dir) = expect_git(step(&mut session, Event::Canonicalized(Some("/w/sub".to_string()))));
    assert_eq!(args, vec!["rev-parse", "--show-toplevel"]);
    assert_eq!(dir, "/w/sub");
    assert_eq!(session.git_abs, "/w/sub/team-notes.md");
    assert_eq!(expect_path(step(&mut session, Event::GitOutput(Some("/w\n".to_string())))), "/w");
    expect_git(step(&mut session, Event::Canonicalized(Some("/w".to_string()))));
    expect_git(step(&mut session, Event::GitOutput(Some("https://github.com/acme/project.git\n".to_string()))));
    let fm = expect_serialize(step(&mut session, Event::GitOutput(Some("main\n".to_string()))));
    assert_eq!(fm.gdoc_url.as_deref(), Some("https://docs.google.com/document/d/d9/edit"));
    assert_eq!(fm.git_url.as_deref(), Some("https://github.com/acme/project/blob/main/sub/team-notes.md"));
    assert!(session.content.contains("- Git: https://github.com/acme/project/blob/main/sub/team-notes.md"));
}

#[test]
fn a_directory_is_asked_about_itself() {
    let mut session = Session::new();
    step(&mut session, Event::Start { cli: sync_cli("d", None, None), home: String::new() });
    step(&mut session, Event::FileRead(Ok("x".to_string())));
    step(&mut session, Event::Canonicalized(Some("/w/d".to_string())));
    let (_, dir) = expect_git(step(&mut session, Event::Inspected(PathKind::Dir)));
    assert_eq!(dir, "/w/d");
}
