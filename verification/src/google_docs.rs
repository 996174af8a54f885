//! Google Docs: document URLs and ids, the requests to the Docs and Drive
//! APIs, and the reading of their responses.

use vstd::prelude::*;
use crate::document::GDoc;
use crate::http::{Credential, HttpRequest, Method};
use crate::json::{
    json_array, json_i64, json_index, json_keys, json_str, json_wf, object1, object2, str_at,
    str_at_or, text, Json,
};
use crate::markdown::{normalize, normalize_chars};
use crate::text::{
    chars_of, contains, extend, extend_str, find, find_in, lemma_find_from, lemma_find_from_is,
    lemma_occurs_contains, occurs_at, slice, string_of,
};

verus! {

pub open spec fn gdoc_prefix() -> Seq<char> {
    "https://docs.google.com/document/d/"@
}

/// The edit URL of the Google Doc with id `id`.
pub open spec fn gdoc_url_of(id: Seq<char>) -> Seq<char> {
    gdoc_prefix() + id + "/edit"@
}

pub open spec fn doc_marker() -> Seq<char> {
    "/document/d/"@
}

/// The part of `s` before its first `'/'`.
pub open spec fn first_segment(s: Seq<char>) -> Seq<char> {
    match find(s, seq!['/']) {
        Some(i) => s.take(i),
        None => s,
    }
}

/// The document id in a Google Docs URL: what follows the first
/// `/document/d/`, up to the next `/`.
pub open spec fn doc_id_in_url(url: Seq<char>) -> Option<Seq<char>> {
    match find(url, doc_marker()) {
        Some(s) => Some(first_segment(url.skip(s + 12))),
        None => None,
    }
}

/// The document id of a Google Docs URL.
pub fn doc_id_from_url(url: &str) -> (r: Option<String>)
    ensures
        r.deep_view() == doc_id_in_url(url@),
{
    let s = chars_of(url);
    let marker = chars_of("/document/d/");
    proof {
        reveal_strlit("/document/d/");
    }
    match find_in(&s, &marker, 0) {
        Some(start) => {
            proof {
                lemma_find_from(s@, marker@, 0);
                assert(occurs_at(s@, marker@, start as int));
            }
            let total = s.len();
            assert(start + 12 <= total);
            let remaining = slice(&s, start + 12, s.len());
            assert(remaining@ =~= s@.skip(start + 12));
            let slash = vec!['/'];
            assert(slash@ =~= seq!['/']);
            let id = match find_in(&remaining, &slash, 0) {
                Some(k) => {
                    proof {
                        lemma_find_from(remaining@, seq!['/'], 0);
                        assert(occurs_at(remaining@, seq!['/'], k as int));
                    }
                    slice(&remaining, 0, k)
                },
                None => remaining,
            };
            Some(string_of(&id))
        },
        None => None,
    }
}

/// The edit URL of a Google Doc.
pub fn gdoc_url(id: &str) -> (r: String)
    ensures
        r@ == gdoc_url_of(id@),
{
    let mut out = chars_of("https://docs.google.com/document/d/");
    extend_str(&mut out, id);
    extend_str(&mut out, "/edit");
    string_of(&out)
}

pub open spec fn gdoc_host() -> Seq<char> {
    seq![
        'h', 't', 't', 'p', 's', ':', '/', '/', 'd', 'o', 'c', 's', '.', 'g', 'o', 'o', 'g', 'l',
        'e', '.', 'c', 'o', 'm',
    ]
}

proof fn lemma_host_slashes(j: int)
    requires
        0 <= j < 23,
        gdoc_host()[j] == '/',
    ensures
        j == 6 || j == 7,
{
}

/// In `https://docs.google.com/document/d/...` the first marker is the one after the host.
#[verifier::rlimit(80)]
proof fn lemma_marker_after_host(tail: Seq<char>)
    ensures
        find(gdoc_host() + doc_marker() + tail, doc_marker()) == Some(23int),
{
    reveal_strlit("/document/d/");
    let p = gdoc_host();
    let m = doc_marker();
    assert(m =~= seq!['/', 'd', 'o', 'c', 'u', 'm', 'e', 'n', 't', '/', 'd', '/']);
    let url = p + m + tail;
    assert(url.subrange(23, 35) =~= m);
    assert forall|j: int| 0 <= j < 23 implies !occurs_at(url, m, j) by {
        if occurs_at(url, m, j) {
            assert(url.subrange(j, j + 12)[0] == url[j]);
            assert(url[j] == p[j]);
            lemma_host_slashes(j);
            if j == 6 {
                assert(url.subrange(j, j + 12)[1] == url[7]);
            } else if j == 7 {
                assert(url.subrange(j, j + 12)[4] == url[11]);
            }
        }
    }
    lemma_find_from_is(url, m, 0, 23);
}

/// The id of a Google Doc is read back from the URL made for it, when the id
/// has no `/`.
pub proof fn lemma_gdoc_url_round_trip(id: Seq<char>)
    requires
        !contains(id, seq!['/']),
    ensures
        doc_id_in_url(gdoc_url_of(id)) == Some(id),
{
    reveal_strlit("https://docs.google.com/document/d/");
    reveal_strlit("/document/d/");
    reveal_strlit("/edit");
    let p = gdoc_host();
    let m = doc_marker();
    let tail = id + seq!['/', 'e', 'd', 'i', 't'];
    assert(gdoc_prefix() =~= p + m);
    let url = gdoc_url_of(id);
    assert(url =~= p + m + tail);
    lemma_marker_after_host(tail);
    assert(m.len() == 12);
    let rest = url.skip(35);
    assert(rest =~= tail);
    assert(rest.subrange(id.len() as int, id.len() + 1int) =~= seq!['/']);
    assert forall|j: int| 0 <= j < id.len() implies !occurs_at(rest, seq!['/'], j) by {
        if occurs_at(rest, seq!['/'], j) {
            assert(rest.subrange(j, j + 1) =~= id.subrange(j, j + 1));
            lemma_occurs_contains(id, seq!['/'], j);
        }
    }
    lemma_find_from_is(rest, seq!['/'], 0, id.len() as int);
    assert(rest.take(id.len() as int) =~= id);
}

// ---------------------------------------------------------------------------
// Requests
// ---------------------------------------------------------------------------

pub open spec fn docs_api() -> Seq<char> {
    "https://docs.googleapis.com/v1/documents"@
}

/// `GET {docs api}/{id}`, reading the JSON document.
pub open spec fn is_get_document(r: HttpRequest, id: Seq<char>) -> bool {
    &&& r.method == Method::Get
    &&& r.url@ == docs_api() + "/"@ + id
    &&& r.credential == Credential::Google
    &&& r.body is None
    &&& r.read_json
}

/// `POST {docs api}` with `{"title": title}`, reading the JSON answer.
pub open spec fn is_create_document(r: HttpRequest, title: Seq<char>) -> bool {
    &&& r.method == Method::Post
    &&& r.url@ == docs_api()
    &&& r.credential == Credential::Google
    &&& r.body matches Some(b) && json_keys(b) == Some(seq!["title"@]) && json_str(
        json_index(b, "title"@),
    ) == Some(title) && json_wf(b)
    &&& r.read_json
}

/// `PATCH` on the Drive file to add it to a folder.
pub open spec fn is_move_document(r: HttpRequest, id: Seq<char>, folder: Seq<char>) -> bool {
    &&& r.method == Method::Patch
    &&& r.url@ == "https://www.googleapis.com/drive/v3/files/"@ + id + "?addParents="@ + folder
        + "&fields=id,parents"@
    &&& r.credential == Credential::Google
    &&& r.body is None
    &&& !r.read_json
}

/// `{"deleteContentRange": {"range": {"startIndex": 1, "endIndex": end - 1}}}`.
pub open spec fn is_delete_request(j: Json, end: i64) -> bool {
    let d = json_index(j, "deleteContentRange"@);
    let range = json_index(d, "range"@);
    &&& json_keys(j) == Some(seq!["deleteContentRange"@])
    &&& json_keys(d) == Some(seq!["range"@])
    &&& json_keys(range) == Some(seq!["startIndex"@, "endIndex"@])
    &&& json_i64(json_index(range, "startIndex"@)) == Some(1i64)
    &&& json_i64(json_index(range, "endIndex"@)) == Some((end - 1) as i64)
}

/// `{"insertText": {"location": {"index": 1}, "text": text}}`.
pub open spec fn is_insert_request(j: Json, text: Seq<char>) -> bool {
    let ins = json_index(j, "insertText"@);
    let location = json_index(ins, "location"@);
    &&& json_keys(j) == Some(seq!["insertText"@])
    &&& json_keys(ins) == Some(seq!["location"@, "text"@])
    &&& json_keys(location) == Some(seq!["index"@])
    &&& json_i64(json_index(location, "index"@)) == Some(1i64)
    &&& json_str(json_index(ins, "text"@)) == Some(text)
}

/// The `batchUpdate` that replaces the body of a document (ending at `end`)
/// by `text`: a deletion of the old body when there is one (`end > 2`), then
/// the insertion.
pub open spec fn is_replace_content(r: HttpRequest, id: Seq<char>, end: i64, text: Seq<char>) -> bool {
    &&& r.method == Method::Post
    &&& r.url@ == docs_api() + "/"@ + id + ":batchUpdate"@
    &&& r.credential == Credential::Google
    &&& !r.read_json
    &&& match r.body {
        Some(b) => is_replace_body(b, end, text) && json_wf(b),
        None => false,
    }
}

/// `{"requests": [...]}` for `is_replace_content`.
pub open spec fn is_replace_body(b: Json, end: i64, text: Seq<char>) -> bool {
    &&& json_keys(b) == Some(seq!["requests"@])
    &&& match json_array(json_index(b, "requests"@)) {
        Some(reqs) => if end > 2 {
            reqs.len() == 2 && is_delete_request(reqs[0], end) && is_insert_request(reqs[1], text)
        } else {
            reqs.len() == 1 && is_insert_request(reqs[0], text)
        },
        None => false,
    }
}

/// `docs api` + `/` + `id` + `suffix`.
fn document_url(id: &str, suffix: &str) -> (r: String)
    ensures
        r@ == docs_api() + "/"@ + id@ + suffix@,
{
    let mut out = chars_of("https://docs.googleapis.com/v1/documents");
    extend_str(&mut out, "/");
    extend_str(&mut out, id);
    extend_str(&mut out, suffix);
    string_of(&out)
}

/// The request that reads a Google Doc.
pub fn get_document_request(id: &str) -> (r: HttpRequest)
    ensures
        is_get_document(r, id@),
{
    let url = document_url(id, "");
    proof {
        reveal_strlit("");
    }
    assert(url@ =~= docs_api() + "/"@ + id@);
    HttpRequest { method: Method::Get, url, credential: Credential::Google, body: None, read_json: true }
}

/// The request that creates a Google Doc titled `title`.
pub fn create_document_request(title: &str) -> (r: HttpRequest)
    ensures
        is_create_document(r, title@),
{
    let body = object1("title", text(title));
    HttpRequest {
        method: Method::Post,
        url: String::from_str("https://docs.googleapis.com/v1/documents"),
        credential: Credential::Google,
        body: Some(body),
        read_json: true,
    }
}

/// The request that puts the Drive file `id` in folder `folder`.
pub fn move_document_request(id: &str, folder: &str) -> (r: HttpRequest)
    ensures
        is_move_document(r, id@, folder@),
{
    let mut out = chars_of("https://www.googleapis.com/drive/v3/files/");
    extend_str(&mut out, id);
    extend_str(&mut out, "?addParents=");
    extend_str(&mut out, folder);
    extend_str(&mut out, "&fields=id,parents");
    HttpRequest {
        method: Method::Patch,
        url: string_of(&out),
        credential: Credential::Google,
        body: None,
        read_json: false,
    }
}

/// The request that replaces the body of document `id`, which ends at `end`, by `text`.
pub fn replace_content_request(id: &str, end: i64, text_value: &str) -> (r: HttpRequest)
    ensures
        is_replace_content(r, id@, end, text_value@),
{
    proof {
        reveal_strlit("location");
        reveal_strlit("text");
        reveal_strlit("startIndex");
        reveal_strlit("endIndex");
        assert("location"@.len() == 8 && "text"@.len() == 4);
        assert("startIndex"@.len() == 10 && "endIndex"@.len() == 8);
    }
    assert(json_wf(Json::Int(1))) by {
        reveal_with_fuel(json_wf, 1);
    }
    let insert = object1(
        "insertText",
        object2("location", object1("index", Json::Int(1)), "text", text(text_value)),
    );
    let mut requests: Vec<Json> = Vec::new();
    if end > 2 {
        assert(json_wf(Json::Int((end - 1) as i64)));
        let delete = object1(
            "deleteContentRange",
            object1("range", object2("startIndex", Json::Int(1), "endIndex", Json::Int(end - 1))),
        );
        requests.push(delete);
        assert(json_wf(requests@[0]));
    }
    let ghost before = requests@;
    requests.push(insert);
    assert(forall|i: int| 0 <= i < requests@.len() ==> #[trigger] json_wf(requests@[i]));
    let body = object1("requests", Json::Array(requests));
    HttpRequest {
        method: Method::Post,
        url: document_url(id, ":batchUpdate"),
        credential: Credential::Google,
        body: Some(body),
        read_json: false,
    }
}

// ---------------------------------------------------------------------------
// Responses
// ---------------------------------------------------------------------------

/// The text of one paragraph element: its `textRun.content`.
pub open spec fn run_text(el: Json) -> Seq<char> {
    match json_str(json_index(json_index(el, "textRun"@), "content"@)) {
        Some(s) => s,
        None => Seq::empty(),
    }
}

pub open spec fn runs_text(els: Seq<Json>) -> Seq<char>
    decreases els.len(),
{
    if els.len() == 0 {
        Seq::empty()
    } else {
        runs_text(els.drop_last()) + run_text(els.last())
    }
}

/// The text of one body item: the text runs of its `paragraph.elements`.
pub open spec fn item_text(item: Json) -> Seq<char> {
    match json_array(json_index(json_index(item, "paragraph"@), "elements"@)) {
        Some(els) => runs_text(els),
        None => Seq::empty(),
    }
}

pub open spec fn items_text(items: Seq<Json>) -> Seq<char>
    decreases items.len(),
{
    if items.len() == 0 {
        Seq::empty()
    } else {
        items_text(items.drop_last()) + item_text(items.last())
    }
}

/// The items of `body.content`.
pub open spec fn body_items(response: Json) -> Option<Seq<Json>> {
    json_array(json_index(json_index(response, "body"@), "content"@))
}

/// The plain text of a document: all text runs of all paragraphs, in order.
pub open spec fn document_text(response: Json) -> Seq<char> {
    match body_items(response) {
        Some(items) => items_text(items),
        None => Seq::empty(),
    }
}

/// An element adds to the text exactly its `textRun.content` string, whatever
/// that string is (a lone newline included); an element without one adds nothing.
pub proof fn lemma_runs_text_push(els: Seq<Json>, el: Json)
    ensures
        runs_text(Seq::empty()) == Seq::<char>::empty(),
        json_str(json_index(json_index(el, "textRun"@), "content"@)) matches Some(c) ==> runs_text(
            els.push(el),
        ) == runs_text(els) + c,
        json_str(json_index(json_index(el, "textRun"@), "content"@)) is None ==> runs_text(
            els.push(el),
        ) == runs_text(els),
{
    assert(els.push(el).drop_last() =~= els);
}

/// A body item adds to the text exactly the text of its `paragraph.elements`,
/// in order; an item that is not such a paragraph adds nothing.
pub proof fn lemma_items_text_push(items: Seq<Json>, item: Json)
    ensures
        items_text(Seq::empty()) == Seq::<char>::empty(),
        json_array(json_index(json_index(item, "paragraph"@), "elements"@)) matches Some(els)
            ==> items_text(items.push(item)) == items_text(items) + runs_text(els),
        json_array(json_index(json_index(item, "paragraph"@), "elements"@)) is None ==> items_text(
            items.push(item),
        ) == items_text(items),
{
    assert(items.push(item).drop_last() =~= items);
}

/// The text of a document is the text of the items of its `body.content`, and
/// empty when there are none.
pub proof fn lemma_document_text_items(response: Json)
    ensures
        json_array(json_index(json_index(response, "body"@), "content"@)) matches Some(items)
            ==> document_text(response) == items_text(items),
        json_array(json_index(json_index(response, "body"@), "content"@)) is None ==> document_text(
            response,
        ) == Seq::<char>::empty(),
{
}

fn push_run_text(out: &mut Vec<char>, el: &Json)
    ensures
        final(out)@ == old(out)@ + run_text(*el),
{
    let run = match el.index("textRun") {
        Some(r) => r,
        None => {
            assert(out@ =~= out@ + run_text(*el));
            return;
        },
    };
    match run.index("content") {
        Some(c) => match c.as_str() {
            Some(s) => extend_str(out, s.as_str()),
            None => {
                assert(out@ =~= out@ + run_text(*el));
            },
        },
        None => {
            assert(out@ =~= out@ + run_text(*el));
        },
    }
}

fn push_item_text(out: &mut Vec<char>, item: &Json)
    ensures
        final(out)@ == old(out)@ + item_text(*item),
{
    let ghost start = out@;
    let els = match item.index("paragraph") {
        Some(p) => match p.index("elements") {
            Some(e) => e.as_array(),
            None => None,
        },
        None => None,
    };
    match els {
        Some(els) => {
            let mut i: usize = 0;
            while i < els.len()
                invariant
                    i <= els.len(),
                    out@ == start + runs_text(els@.take(i as int)),
                decreases els.len() - i,
            {
                push_run_text(out, &els[i]);
                i = i + 1;
                assert(els@.take(i as int).drop_last() =~= els@.take(i - 1));
            }
            assert(els@.take(els.len() as int) =~= els@);
        },
        None => {
            assert(out@ =~= start + item_text(*item));
        },
    }
}

/// What `get_document` reads from the document: its URL, its title
/// (`"document"` when absent) and its text with CRLF normalised.
pub fn gdoc_from_response(doc_id: &str, response: &Json) -> (g: GDoc)
    ensures
        g.url@ == gdoc_url_of(doc_id@),
        g.title@ == match json_str(json_index(*response, "title"@)) {
            Some(t) => t,
            None => "document"@,
        },
        g.text@ == normalize(document_text(*response)),
{
    let title = str_at_or(response, "title", "document");
    let mut out: Vec<char> = Vec::new();
    let items = match response.index("body") {
        Some(b) => match b.index("content") {
            Some(c) => c.as_array(),
            None => None,
        },
        None => None,
    };
    if let Some(items) = items {
        let mut i: usize = 0;
        while i < items.len()
            invariant
                i <= items.len(),
                out@ == items_text(items@.take(i as int)),
            decreases items.len() - i,
        {
            push_item_text(&mut out, &items[i]);
            i = i + 1;
            assert(items@.take(i as int).drop_last() =~= items@.take(i - 1));
        }
        assert(items@.take(items.len() as int) =~= items@);
    }
    let text_chars = normalize_chars(&out);
    GDoc { url: gdoc_url(doc_id), title, text: string_of(&text_chars) }
}

/// The id of a document just created, from the API's answer.
pub open spec fn created_id(response: Json) -> Option<Seq<char>> {
    json_str(json_index(response, "documentId"@))
}

pub fn created_document_id(response: &Json) -> (r: Option<String>)
    ensures
        r.deep_view() == created_id(*response),
{
    str_at(response, "documentId")
}

/// Where the body of a document ends: the `endIndex` of its last item, or 2.
pub open spec fn end_index_of(response: Json) -> i64 {
    match body_items(response) {
        Some(items) => if items.len() > 0 {
            match json_i64(json_index(items.last(), "endIndex"@)) {
                Some(n) => n,
                None => 2,
            }
        } else {
            2
        },
        None => 2,
    }
}

pub fn end_index(response: &Json) -> (r: i64)
    ensures
        r == end_index_of(*response),
{
    let items = match response.index("body") {
        Some(b) => match b.index("content") {
            Some(c) => c.as_array(),
            None => None,
        },
        None => None,
    };
    match items {
        Some(items) => {
            if items.len() == 0 {
                return 2;
            }
            match items[items.len() - 1].index("endIndex") {
                Some(e) => match e.as_i64() {
                    Some(n) => n,
                    None => 2,
                },
                None => 2,
            }
        },
        None => 2,
    }
}

} // verus!
