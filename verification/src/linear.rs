//! Linear: document ids, the GraphQL requests, and the reading of their answers.

use vstd::prelude::*;
use crate::document::{Frontmatter, FrontmatterView, LinearDoc};
use crate::error::DsyncError;
use crate::http::{Credential, HttpRequest, Method};
use crate::json::{
    json_array, json_get, json_index, json_keys, json_str, json_wf, object1, object2, str_at,
    str_at_or, text, Json,
};
use crate::text::{chars_of, find, find_in, lemma_find_from, occurs_at, slice, string_of};

verus! {

// ---------------------------------------------------------------------------
// Document ids
// ---------------------------------------------------------------------------

/// The `'/'`-separated parts of `s` (`str::split('/')`).
pub open spec fn segments(s: Seq<char>) -> Seq<Seq<char>>
    decreases s.len(),
{
    match find(s, seq!['/']) {
        Some(k) => if 0 <= k < s.len() {
            seq![s.take(k)] + segments(s.skip(k + 1))
        } else {
            seq![s]
        },
        None => seq![s],
    }
}

/// The part after the first part equal to `document`.
pub open spec fn after_document(parts: Seq<Seq<char>>) -> Option<Seq<char>>
    decreases parts.len(),
{
    if parts.len() == 0 {
        None
    } else if parts[0] == "document"@ {
        if parts.len() > 1 {
            Some(parts[1])
        } else {
            None
        }
    } else {
        after_document(parts.drop_first())
    }
}

/// The Linear document id of a frontmatter: `linearDocId`, or else the part
/// of `linearDocUrl` that follows `document`.
pub open spec fn linear_id_of(fm: FrontmatterView) -> Option<Seq<char>> {
    match fm.linear_doc_id {
        Some(id) => Some(id),
        None => match fm.linear_doc_url {
            Some(url) => after_document(segments(url)),
            None => None,
        },
    }
}

/// The part of `s` from `i` up to the next `'/'`, and where it ends.
fn segment_at(s: &Vec<char>, slash: &Vec<char>, i: usize) -> (r: (Vec<char>, usize))
    requires
        i <= s.len(),
        slash@ == seq!['/'],
    ensures
        r.1 <= s.len(),
        i <= r.1,
        match find(s@.skip(i as int), seq!['/']) {
            Some(k) => r.1 == i + k && r.1 < s.len(),
            None => r.1 == s.len(),
        },
        r.0@ == s@.subrange(i as int, r.1 as int),
{
    let ghost rest = s@.skip(i as int);
    proof {
        crate::text::lemma_find_from_skip(s@, seq!['/'], i as int, 0);
        lemma_find_from(s@, seq!['/'], i as int);
    }
    match find_in(s, slash, i) {
        Some(k) => {
            assert(occurs_at(s@, seq!['/'], k as int));
            (slice(s, i, k), k)
        },
        None => (slice(s, i, s.len()), s.len()),
    }
}

/// The id of the Linear document that a frontmatter links to.
pub fn doc_id_from_frontmatter(frontmatter: &Frontmatter) -> (r: Option<String>)
    ensures
        r.deep_view() == linear_id_of(frontmatter@),
{
    if let Some(id) = &frontmatter.linear_doc_id {
        return Some(id.clone());
    }
    let url = match &frontmatter.linear_doc_url {
        Some(u) => u,
        None => return None,
    };
    let s = chars_of(url.as_str());
    let slash = vec!['/'];
    assert(slash@ =~= seq!['/']);
    let document = chars_of("document");
    let mut i: usize = 0;
    assert(s@.skip(0) =~= s@);
    loop
        invariant
            i <= s.len(),
            slash@ == seq!['/'],
            s@ == url@,
            frontmatter.linear_doc_id is None,
            frontmatter.linear_doc_url == Some(*url),
            document@ == "document"@,
            after_document(segments(s@)) == after_document(segments(s@.skip(i as int))),
        decreases s.len() - i,
    {
        let ghost rest = s@.skip(i as int);
        let (part, end) = segment_at(&s, &slash, i);
        proof {
            lemma_find_from(rest, seq!['/'], 0);
            assert(part@ =~= rest.take(end - i));
            if end < s.len() {
                assert(rest.skip(end - i + 1) =~= s@.skip(end + 1));
            }
        }
        let is_document = part.len() == document.len() && crate::text::starts_with_vec(&part, &document);
        assert(is_document == (part@ == "document"@)) by {
            if part@.len() == document@.len() && crate::text::starts_with(part@, document@) {
                assert(part@ =~= part@.subrange(0, document@.len() as int));
            }
            if part@ == "document"@ {
                assert(part@.subrange(0, document@.len() as int) =~= part@);
            }
        }
        if end == s.len() {
            assert(segments(rest) == seq![rest]);
            assert(rest.take(end - i) =~= rest);
            assert(seq![rest].drop_first() =~= Seq::<Seq<char>>::empty());
            assert(after_document(Seq::<Seq<char>>::empty()) is None);
            assert(seq![rest].len() == 1 && seq![rest][0] == rest);
            assert(after_document(seq![rest]) is None);
            return None;
        }
        let ghost parts = segments(rest);
        assert(parts == seq![part@] + segments(s@.skip(end + 1)));
        if is_document {
            let (next, _) = segment_at(&s, &slash, end + 1);
            proof {
                let rest2 = s@.skip(end + 1);
                lemma_find_from(rest2, seq!['/'], 0);
                match find(rest2, seq!['/']) {
                    Some(k) => {
                        assert(segments(rest2)[0] == rest2.take(k));
                        assert(next@ =~= rest2.take(k));
                    },
                    None => {
                        assert(next@ =~= rest2);
                    },
                }
                assert(parts[1] == segments(rest2)[0]);
            }
            return Some(string_of(&next));
        }
        assert(parts.drop_first() =~= segments(s@.skip(end + 1)));
        i = end + 1;
    }
}

// ---------------------------------------------------------------------------
// Requests
// ---------------------------------------------------------------------------

pub open spec fn linear_api() -> Seq<char> {
    "https://api.linear.app/graphql"@
}

/// A GraphQL call: `POST` of `{"query": query, "variables": variables}`.
pub open spec fn is_graphql(r: HttpRequest, query: Seq<char>, variables: Json) -> bool {
    &&& r.method == Method::Post
    &&& r.url@ == linear_api()
    &&& r.credential == Credential::Linear
    &&& r.read_json
    &&& match r.body {
        Some(b) => json_keys(b) == Some(seq!["query"@, "variables"@]) && json_str(
            json_index(b, "query"@),
        ) == Some(query) && json_index(b, "variables"@) == variables && json_wf(b),
        None => false,
    }
}

/// The GraphQL request for `query` with `variables`.
pub fn graphql_request(query: &str, variables: Json) -> (r: HttpRequest)
    requires
        json_wf(variables),
    ensures
        is_graphql(r, query@, variables),
{
    proof {
        reveal_strlit("query");
        reveal_strlit("variables");
        assert("query"@.len() == 5 && "variables"@.len() == 9);
    }
    let body = object2("query", text(query), "variables", variables);
    HttpRequest {
        method: Method::Post,
        url: String::from_str("https://api.linear.app/graphql"),
        credential: Credential::Linear,
        body: Some(body),
        read_json: true,
    }
}

pub const GET_DOCUMENT_QUERY: &'static str = r#"
      query GetDocument($id: String!) {
        document(id: $id) {
          id
          url
          title
          content
        }
      }
    "#;

pub const UPDATE_DOCUMENT_QUERY: &'static str = r#"
      mutation UpdateDocument($id: String!, $content: String!) {
        updateDocument(id: $id, input: { content: $content }) {
          success
        }
      }
    "#;

pub const CREATE_DOCUMENT_QUERY: &'static str = r#"
      mutation CreateDocument($title: String!, $content: String!, $teamId: String!, $projectId: String) {
        createDocument(input: { title: $title, content: $content, teamId: $teamId, projectId: $projectId }) {
          success
          document {
            id
            url
            title
            content
          }
        }
      }
    "#;

pub const TEAMS_QUERY: &'static str = r#"
      query Teams {
        teams {
          nodes { id name }
        }
      }
    "#;

pub const PROJECTS_QUERY: &'static str = r#"
      query Projects {
        projects(filter: { state: { eq: "started" } }) {
          nodes { id name }
        }
      }
    "#;

// ---------------------------------------------------------------------------
// Answers
// ---------------------------------------------------------------------------

/// What a GraphQL answer gives: its `errors` when it has that member,
/// otherwise its `data` (`Null` when absent).
pub open spec fn graphql_outcome(response: Json) -> Result<Json, Json> {
    match json_get(response, "errors"@) {
        Some(errors) => Err(errors),
        None => Ok(json_index(response, "data"@)),
    }
}

/// The `data` of a GraphQL answer, or its errors.
pub fn graphql_data(response: Json) -> (r: Result<Json, DsyncError>)
    ensures
        match graphql_outcome(response) {
            Ok(data) => r == Ok::<Json, DsyncError>(data),
            Err(errors) => r == Err::<Json, DsyncError>(DsyncError::Graphql { errors }),
        },
{
    let has_errors = response.get("errors").is_some();
    if has_errors {
        match response.take("errors") {
            Some(errors) => Err(DsyncError::Graphql { errors }),
            None => Err(DsyncError::Graphql { errors: Json::Null }),
        }
    } else {
        Ok(response.take_index("data"))
    }
}

/// `value[key].as_str().unwrap_or(default)` for a spec value.
pub open spec fn str_or(j: Json, key: Seq<char>, default: Seq<char>) -> Seq<char> {
    match json_str(json_index(j, key)) {
        Some(s) => s,
        None => default,
    }
}

/// The document that `GetDocument` answered, with the fallbacks of the API
/// client: the asked id, no URL, title `"document"`, empty content.
pub fn linear_doc_from_data(id: &str, data: &Json) -> (d: LinearDoc)
    ensures
        d.id@ == str_or(json_index(*data, "document"@), "id"@, id@),
        d.url@ == str_or(json_index(*data, "document"@), "url"@, ""@),
        d.title@ == str_or(json_index(*data, "document"@), "title"@, "document"@),
        d.content@ == str_or(json_index(*data, "document"@), "content"@, ""@),
{
    let null = Json::Null;
    let document = match data.index("document") {
        Some(d) => d,
        None => &null,
    };
    LinearDoc {
        id: str_at_or(document, "id", id),
        url: str_at_or(document, "url", ""),
        title: str_at_or(document, "title", "document"),
        content: str_at_or(document, "content", ""),
    }
}

/// The document that `CreateDocument` answered, with the fallbacks of the
/// API client: no id, no URL, the given title and content.
pub fn created_linear_doc(title: &str, content: &str, data: &Json) -> (d: LinearDoc)
    ensures
        d.id@ == str_or(json_index(json_index(*data, "createDocument"@), "document"@), "id"@, ""@),
        d.url@ == str_or(json_index(json_index(*data, "createDocument"@), "document"@), "url"@, ""@),
        d.title@ == str_or(
            json_index(json_index(*data, "createDocument"@), "document"@),
            "title"@,
            title@,
        ),
        d.content@ == str_or(
            json_index(json_index(*data, "createDocument"@), "document"@),
            "content"@,
            content@,
        ),
{
    let null = Json::Null;
    let created = match data.index("createDocument") {
        Some(c) => c,
        None => &null,
    };
    let document = match created.index("document") {
        Some(d) => d,
        None => &null,
    };
    LinearDoc {
        id: str_at_or(document, "id", ""),
        url: str_at_or(document, "url", ""),
        title: str_at_or(document, "title", title),
        content: str_at_or(document, "content", content),
    }
}

/// The `name` of a node, `"unnamed"` when it has none.
pub open spec fn node_name(n: Json) -> Seq<char> {
    str_or(n, "name"@, "unnamed"@)
}

/// `names` are the names of `nodes`, in order.
pub open spec fn names_of_nodes(names: Seq<String>, nodes: Seq<Json>) -> bool {
    &&& names.len() == nodes.len()
    &&& forall|j: int| 0 <= j < nodes.len() ==> #[trigger] names[j]@ == node_name(nodes[j])
}

/// The names of the nodes, to offer in a selection.
pub fn names_of(nodes: &Vec<Json>) -> (r: Vec<String>)
    ensures
        names_of_nodes(r@, nodes@),
{
    let mut r: Vec<String> = Vec::new();
    let mut i: usize = 0;
    while i < nodes.len()
        invariant
            i <= nodes.len(),
            names_of_nodes(r@, nodes@.take(i as int)),
        decreases nodes.len() - i,
    {
        r.push(str_at_or(&nodes[i], "name", "unnamed"));
        i = i + 1;
        assert forall|j: int| 0 <= j < i implies #[trigger] r@[j]@ == node_name(
            nodes@.take(i as int)[j],
        ) by {
            assert(nodes@.take(i as int)[j] == nodes@[j]);
            if j < i - 1 {
                assert(nodes@.take(i - 1)[j] == nodes@[j]);
            }
        }
    }
    assert(nodes@.take(nodes.len() as int) =~= nodes@);
    r
}

/// `data.teams.nodes` as a list.
pub open spec fn team_nodes(data: Json) -> Option<Seq<Json>> {
    json_array(json_index(json_index(data, "teams"@), "nodes"@))
}

/// `data.projects.nodes` as a list, empty when absent.
pub open spec fn project_nodes(data: Json) -> Seq<Json> {
    match json_array(json_index(json_index(data, "projects"@), "nodes"@)) {
        Some(nodes) => nodes,
        None => Seq::empty(),
    }
}

/// The teams of an answer to the teams query.
pub fn teams_from_data(data: Json) -> (r: Option<Vec<Json>>)
    ensures
        match r {
            Some(v) => team_nodes(data) == Some(v@),
            None => team_nodes(data) is None,
        },
{
    data.take_index("teams").take_index("nodes").into_array()
}

/// The projects of an answer to the projects query.
pub fn projects_from_data(data: Json) -> (r: Vec<Json>)
    ensures
        r@ == project_nodes(data),
{
    match data.take_index("projects").take_index("nodes").into_array() {
        Some(v) => v,
        None => Vec::new(),
    }
}

/// The options of the project selection: no project, then each project.
pub open spec fn project_options(options: Seq<String>, nodes: Seq<Json>) -> bool {
    &&& options.len() == nodes.len() + 1
    &&& options[0]@ == "(no project)"@
    &&& forall|j: int| 0 <= j < nodes.len() ==> #[trigger] options[j + 1]@ == node_name(nodes[j])
}

pub fn project_options_of(nodes: &Vec<Json>) -> (r: Vec<String>)
    ensures
        project_options(r@, nodes@),
{
    let names = names_of(nodes);
    let mut r = vec![String::from_str("(no project)")];
    let mut i: usize = 0;
    while i < names.len()
        invariant
            i <= names.len(),
            names_of_nodes(names@, nodes@),
            r@.len() == i + 1,
            r@[0]@ == "(no project)"@,
            forall|j: int| 0 <= j < i ==> #[trigger] r@[j + 1]@ == node_name(nodes@[j]),
        decreases names.len() - i,
    {
        r.push(names[i].clone());
        i = i + 1;
    }
    r
}

/// The project chosen at position `index` of the options: none for the first
/// option, else the `id` of the project (none when it has no id).
pub open spec fn chosen_project(nodes: Seq<Json>, index: int) -> Option<Seq<char>> {
    if index == 0 || index - 1 >= nodes.len() {
        None
    } else {
        json_str(json_index(nodes[index - 1], "id"@))
    }
}

/// Option `i` of the project selection and the project it picks come from the
/// same node: the first option names no project and picks none; option `i`
/// after it names the node at `i - 1` and picks that node's id.
pub proof fn lemma_chosen_project_matches_option(options: Seq<String>, nodes: Seq<Json>, i: int)
    requires
        project_options(options, nodes),
        0 <= i < options.len(),
    ensures
        i == 0 ==> options[i]@ == "(no project)"@ && chosen_project(nodes, i) is None,
        i > 0 ==> options[i]@ == str_or(nodes[i - 1], "name"@, "unnamed"@) && chosen_project(
            nodes,
            i,
        ) == json_str(json_index(nodes[i - 1], "id"@)),
{
    if i > 0 {
        assert(options[(i - 1) + 1]@ == node_name(nodes[i - 1]));
    }
}

pub fn chosen_project_id(nodes: &Vec<Json>, index: usize) -> (r: Option<String>)
    ensures
        r.deep_view() == chosen_project(nodes@, index as int),
{
    if index == 0 || index - 1 >= nodes.len() {
        None
    } else {
        str_at(&nodes[index - 1], "id")
    }
}

} // verus!
