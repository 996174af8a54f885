use dsync::document::Frontmatter;
use dsync::error::DsyncError;
use dsync::google_docs::{
    create_document_request, created_document_id, doc_id_from_url, end_index, gdoc_from_response,
    gdoc_url, get_document_request, move_document_request, replace_content_request,
};
use dsync::http::{Credential, Method};
use dsync::json::Json;
use dsync::linear::{
    chosen_project_id, created_linear_doc, doc_id_from_frontmatter, graphql_data, graphql_request,
    linear_doc_from_data, names_of, project_options_of, projects_from_data, teams_from_data,
};

fn s(v: &str) -> Json {
    Json::Str(v.to_string())
}

fn obj(entries: Vec<(&str, Json)>) -> Json {
    Json::Object(entries.into_iter().map(|(k, v)| (k.to_string(), v)).collect())
}

fn member<'a>(j: &'a Json, key: &str) -> &'a Json {
    match j {
        Json::Object(entries) => &entries.iter().find(|e| e.0 == key).expect("member").1,
        other => panic!("not an object: {other:?}"),
    }
}

fn keys(j: &Json) -> Vec<String> {
    match j {
        Json::Object(entries) => entries.iter().map(|e| e.0.clone()).collect(),
        other => panic!("not an object: {other:?}"),
    }
}

#[test]
fn extracts_doc_id_from_google_url() {
    let id = doc_id_from_url("https://docs.google.com/document/d/abc123/edit");
    assert_eq!(id.as_deref(), Some("abc123"));
}

#[test]
fn prioritizes_explicit_linear_id() {
    let frontmatter = Frontmatter {
        linear_doc_id: Some("abc".to_string()),
        ..Frontmatter::default()
    };

    assert_eq!(doc_id_from_frontmatter(&frontmatter).as_deref(), Some("abc"));
}

#[test]
fn extracts_linear_id_from_url() {
    let frontmatter = Frontmatter {
        linear_doc_url: Some("https://linear.app/workspace/document/abc123/title-slug".to_string()),
        ..Frontmatter::default()
    };

    assert_eq!(doc_id_from_frontmatter(&frontmatter).as_deref(), Some("abc123"));
}

#[test]
fn linear_id_edge_cases() {
    let none = Frontmatter::default();
    assert_eq!(doc_id_from_frontmatter(&none), None);
    let no_document = Frontmatter {
        linear_doc_url: Some("https://linear.app/w/issue/x".to_string()),
        ..Frontmatter::default()
    };
    assert_eq!(doc_id_from_frontmatter(&no_document), None);
    let trailing = Frontmatter {
        linear_doc_url: Some("https://linear.app/w/document".to_string()),
        ..Frontmatter::default()
    };
    assert_eq!(doc_id_from_frontmatter(&trailing), None);
    let empty_id = Frontmatter {
        linear_doc_url: Some("https://linear.app/w/document/".to_string()),
        ..Frontmatter::default()
    };
    assert_eq!(doc_id_from_frontmatter(&empty_id).as_deref(), Some(""));
}

#[test]
fn google_doc_id_edge_cases() {
    assert_eq!(doc_id_from_url("https://example.com/x").as_deref(), None);
    assert_eq!(doc_id_from_url("https://docs.google.com/document/d/xyz").as_deref(), Some("xyz"));
    assert_eq!(doc_id_from_url("/document/d//edit").as_deref(), Some(""));
}

#[test]
fn google_url_round_trip() {
    let url = gdoc_url("A-b_9");
    assert_eq!(url, "https://docs.google.com/document/d/A-b_9/edit");
    assert_eq!(doc_id_from_url(&url).as_deref(), Some("A-b_9"));
}

#[test]
fn google_requests() {
    let get = get_document_request("d1");
    assert_eq!(get.method, Method::Get);
    assert_eq!(get.url, "https://docs.googleapis.com/v1/documents/d1");
    assert_eq!(get.credential, Credential::Google);
    assert!(get.body.is_none() && get.read_json);

    let create = create_document_request("My Title");
    assert_eq!(create.method, Method::Post);
    assert_eq!(create.url, "https://docs.googleapis.com/v1/documents");
    let body = create.body.expect("body");
    assert_eq!(keys(&body), vec!["title"]);
    assert!(matches!(member(&body, "title"), Json::Str(t) if t == "My Title"));

    let mv = move_document_request("d1", "f9");
    assert_eq!(mv.method, Method::Patch);
    assert_eq!(mv.url, "https://www.googleapis.com/drive/v3/files/d1?addParents=f9&fields=id,parents");
    assert!(!mv.read_json);
}

#[test]
fn replace_request_deletes_old_body_only_when_there_is_one() {
    let r = replace_content_request("d1", 10, "new text");
    assert_eq!(r.url, "https://docs.googleapis.com/v1/documents/d1:batchUpdate");
    let body = r.body.expect("body");
    let requests = match member(&body, "requests") {
        Json::Array(items) => items,
        other => panic!("{other:?}"),
    };
    assert_eq!(requests.len(), 2);
    let range = member(member(&requests[0], "deleteContentRange"), "range");
    assert!(matches!(member(range, "startIndex"), Json::Int(1)));
    assert!(matches!(member(range, "endIndex"), Json::Int(9)));
    let insert = member(&requests[1], "insertText");
    assert!(matches!(member(member(insert, "location"), "index"), Json::Int(1)));
    assert!(matches!(member(insert, "text"), Json::Str(t) if t == "new text"));

    let short = replace_content_request("d1", 2, "x");
    let body = short.body.expect("body");
    match member(&body, "requests") {
        Json::Array(items) => {
            assert_eq!(items.len(), 1);
            assert_eq!(keys(&items[0]), vec!["insertText"]);
        },
        other => panic!("{other:?}"),
    }
}

#[test]
fn document_text_and_title_from_response() {
    let paragraph = |texts: Vec<&str>| {
        obj(vec![(
            "paragraph",
            obj(vec![(
                "elements",
                Json::Array(
                    texts.into_iter().map(|t| obj(vec![("textRun", obj(vec![("content", s(t))]))])).collect(),
                ),
            )]),
        )])
    };
    let response = obj(vec![
        ("title", s("Plan")),
        (
            "body",
            obj(vec![(
                "content",
                Json::Array(vec![
                    obj(vec![("sectionBreak", obj(vec![])), ("endIndex", Json::Int(1))]),
                    paragraph(vec!["Hello ", "world\r\n"]),
                    paragraph(vec!["Second\r\n"]),
                ]),
            )]),
        ),
    ]);
    let g = gdoc_from_response("d7", &response);
    assert_eq!(g.url, "https://docs.google.com/document/d/d7/edit");
    assert_eq!(g.title, "Plan");
    assert_eq!(g.text, "Hello world\nSecond\n");

    let untitled = gdoc_from_response("d8", &obj(vec![]));
    assert_eq!(untitled.title, "document");
    assert_eq!(untitled.text, "");
}

#[test]
fn end_index_of_last_item_or_two() {
    let response = obj(vec![(
        "body",
        obj(vec![(
            "content",
            Json::Array(vec![obj(vec![("endIndex", Json::Int(5))]), obj(vec![("endIndex", Json::Int(42))])]),
        )]),
    )]);
    assert_eq!(end_index(&response), 42);
    assert_eq!(end_index(&obj(vec![])), 2);
    let no_index = obj(vec![("body", obj(vec![("content", Json::Array(vec![obj(vec![])]))]))]);
    assert_eq!(end_index(&no_index), 2);
}

#[test]
fn created_document_id_reads_document_id() {
    assert_eq!(created_document_id(&obj(vec![("documentId", s("new1"))])).as_deref(), Some("new1"));
    assert_eq!(created_document_id(&obj(vec![("documentId", Json::Int(3))])), None);
}

#[test]
fn graphql_request_shape() {
    let r = graphql_request("query Q { x }", obj(vec![("id", s("1"))]));
    assert_eq!(r.method, Method::Post);
    assert_eq!(r.url, "https://api.linear.app/graphql");
    assert_eq!(r.credential, Credential::Linear);
    let body = r.body.expect("body");
    assert_eq!(keys(&body), vec!["query", "variables"]);
    assert!(matches!(member(&body, "query"), Json::Str(q) if q == "query Q { x }"));
}

#[test]
fn graphql_errors_win_over_data() {
    let with_errors = obj(vec![("data", obj(vec![])), ("errors", Json::Array(vec![s("boom")]))]);
    match graphql_data(with_errors) {
        Err(DsyncError::Graphql { errors: Json::Array(items) }) => assert_eq!(items.len(), 1),
        other => panic!("unexpected {other:?}"),
    }
    let ok = obj(vec![("data", obj(vec![("x", Json::Int(1))]))]);
    assert!(matches!(graphql_data(ok), Ok(Json::Object(_))));
    assert!(matches!(graphql_data(obj(vec![])), Ok(Json::Null)));
    assert!(matches!(graphql_data(Json::Array(vec![])), Ok(Json::Null)));
}

#[test]
fn linear_documents_from_answers() {
    let data = obj(vec![(
        "document",
        obj(vec![("url", s("https://linear.app/w/document/x1/t")), ("title", s("T"))]),
    )]);
    let d = linear_doc_from_data("asked", &data);
    assert_eq!(d.id, "asked");
    assert_eq!(d.url, "https://linear.app/w/document/x1/t");
    assert_eq!(d.title, "T");
    assert_eq!(d.content, "");

    let created = obj(vec![(
        "createDocument",
        obj(vec![("document", obj(vec![("id", s("n1")), ("url", s("u1"))]))]),
    )]);
    let c = created_linear_doc("Title", "Body", &created);
    assert_eq!((c.id.as_str(), c.url.as_str(), c.title.as_str(), c.content.as_str()), ("n1", "u1", "Title", "Body"));
}

#[test]
fn teams_and_projects_from_answers() {
    let teams = obj(vec![(
        "teams",
        obj(vec![("nodes", Json::Array(vec![obj(vec![("id", s("t1")), ("name", s("Core"))]), obj(vec![("id", s("t2"))])]))]),
    )]);
    let nodes = teams_from_data(teams).expect("teams");
    assert_eq!(names_of(&nodes), vec!["Core".to_string(), "unnamed".to_string()]);
    assert!(teams_from_data(obj(vec![])).is_none());

    let projects = obj(vec![(
        "projects",
        obj(vec![("nodes", Json::Array(vec![obj(vec![("id", s("p1")), ("name", s("Alpha"))])]))]),
    )]);
    let nodes = projects_from_data(projects);
    assert_eq!(project_options_of(&nodes), vec!["(no project)".to_string(), "Alpha".to_string()]);
    assert_eq!(chosen_project_id(&nodes, 0), None);
    assert_eq!(chosen_project_id(&nodes, 1).as_deref(), Some("p1"));
    assert_eq!(chosen_project_id(&nodes, 5), None);
    assert!(projects_from_data(obj(vec![])).is_empty());
}
