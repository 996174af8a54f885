# dsync

`dsync` keeps a local Markdown file in sync with a Google Doc and a Linear
Doc, and imports such documents into Markdown files. The Markdown file is the
source of truth: its frontmatter records where the provider documents live
(`gdocUrl`, `linearDocUrl`, `linearDocId`, `gitUrl`), and a block of document
links is kept at the end of its body.

## Layout

- `src/` is the library, verified with Verus:
  - `text.rs`: `str` operations over character sequences (find, trim,
    prefixes and suffixes) with their specifications and lemmas;
  - `markdown.rs`: newline normalisation, first heading, slugs, the
    frontmatter envelope (splitting a file, rendering one back);
  - `links.rs`: the `dsync-links` block and its upsert;
  - `json.rs`, `http.rs`: JSON values and HTTP requests as the provider
    APIs exchange them;
  - `google_docs.rs`, `linear.rs`: provider URLs, ids, requests and answers;
  - `git.rs`: the `gitUrl` of a file from what git reports;
  - `cli.rs`: resolving the command line;
  - `document.rs`, `error.rs`: the documents and the errors of a run;
  - `application.rs`: the run itself, a machine that takes the outcome of
    each piece of outside work and says what to do next, with its laws.
- `app/main.rs` is the command: it parses arguments, performs the actions the
  machine asks for (files, YAML, git, HTTP, prompts, output) and reports errors.
- `tests/` exercises the library on concrete values.

## Configuration

- `GOOGLE_ACCESS_TOKEN`: a Google bearer token (Docs and Drive scopes).
- `LINEAR_API_KEY`: a Linear API key.

## Usage

```bash
dsync ~/docs/doc.md --gdoc --linear   # sync, creating missing documents
dsync --gdoc <GDOC_ID>                # import a Google Doc into ./<slug>.md
dsync --linear <LINEAR_DOC_ID>        # import a Linear Doc into ./<slug>.md
```
