use std::collections::BTreeMap;

use dsync::document::Frontmatter;
use dsync::links::upsert_dsync_links;
use dsync::markdown::{
    ensure_trailing_newline, file_stem_fallback, first_heading, name_from_file_stem, normalize_newlines,
    parse_frontmatter, render_markdown, slugify,
};

#[test]
fn appends_newline_only_when_missing() {
    assert_eq!(ensure_trailing_newline("abc"), "abc\n");
    assert_eq!(ensure_trailing_newline("abc\n"), "abc\n");
}

#[test]
fn parses_frontmatter_and_preserves_body() {
    let raw = "---\ngdocUrl: https://docs.google.com/document/d/123/edit\n---\n\n# Title\n";

    let parsed = parse_frontmatter(raw);
    let yaml = parsed.yaml.expect("a frontmatter block");
    let frontmatter: BTreeMap<String, serde_yaml::Value> = serde_yaml::from_str(&yaml).unwrap();

    assert_eq!(
        frontmatter.get("gdocUrl").and_then(|v| v.as_str()),
        Some("https://docs.google.com/document/d/123/edit")
    );
    assert_eq!(parsed.content, "\n# Title\n");
}

#[test]
fn keeps_content_without_frontmatter() {
    let parsed = parse_frontmatter("# Title\r\nBody");
    let frontmatter = match parsed.yaml {
        None => Frontmatter::default(),
        Some(yaml) => panic!("unexpected frontmatter {yaml:?}"),
    };

    assert_eq!(frontmatter.gdoc_url, None);
    assert_eq!(parsed.content, "# Title\nBody");
}

#[test]
fn upserts_existing_dsync_block() {
    let content = "# Title\n\n<!-- dsync-links:start -->\nold\n<!-- dsync-links:end -->\n";

    let updated = upsert_dsync_links(content, Some("gdoc"), Some("linear"), None);

    assert!(updated.contains("- GDocs: gdoc"));
    assert!(updated.contains("- Linear: linear"));
    assert!(!updated.contains("\nold\n"));
}

#[test]
fn slugify_normalizes_and_limits_length() {
    let title = "Rust & Google Docs / Linear + Markdown ".repeat(4);

    let slug = slugify(&title);

    assert!(slug.starts_with("rust-google-docs-linear-markdown"));
    assert!(slug.len() <= 80);
}

#[test]
fn empty_frontmatter_round_trips_to_default() {
    let parsed = parse_frontmatter("---\n\n---\ncontent");

    let frontmatter = match parsed.yaml {
        None => Frontmatter::default(),
        Some(yaml) => panic!("unexpected frontmatter {yaml:?}"),
    };
    assert_eq!(frontmatter, Frontmatter::default());
    assert_eq!(parsed.content, "content");
}

#[test]
fn normalizes_crlf_once_left_to_right() {
    assert_eq!(normalize_newlines("a\r\nb\r\n"), "a\nb\n");
    assert_eq!(normalize_newlines("a\r\r\nb"), "a\r\nb");
    assert_eq!(normalize_newlines("\r"), "\r");
}

#[test]
fn trailing_newline_normalizes_first() {
    assert_eq!(ensure_trailing_newline(""), "\n");
    assert_eq!(ensure_trailing_newline("a\r\n"), "a\n");
    assert_eq!(ensure_trailing_newline("a\r"), "a\r\n");
}

#[test]
fn first_heading_is_trimmed_text_of_first_h1() {
    assert_eq!(first_heading("intro\n#  Big Title  \n# Second").as_deref(), Some("Big Title"));
    assert_eq!(first_heading("## Not h1\ntext"), None);
    assert_eq!(first_heading(""), None);
    assert_eq!(first_heading("#NoSpace\n# Real"), Some("Real".to_string()));
}

#[test]
fn slugify_exact_values() {
    assert_eq!(slugify("Hello, World!"), "hello-world");
    assert_eq!(slugify("  --Rust 2024--  "), "rust-2024");
    assert_eq!(slugify("***"), "");
    assert_eq!(slugify("Café Olé"), "caf-ol");
    let long = "a".repeat(100);
    assert_eq!(slugify(&long), "a".repeat(80));
}

#[test]
fn file_stem_fallback_uses_stem_or_document() {
    assert_eq!(file_stem_fallback("docs/note.md"), "note");
    assert_eq!(file_stem_fallback("/tmp/archive.tar.gz"), "archive.tar");
    assert_eq!(file_stem_fallback(""), "document");
    assert_eq!(file_stem_fallback("/"), "document");
}

#[test]
fn parse_without_closing_delimiter_keeps_everything() {
    let parsed = parse_frontmatter("---\ntitle: x\nno end\r\n");
    assert_eq!(parsed.yaml, None);
    assert_eq!(parsed.content, "---\ntitle: x\nno end\n");
}

#[test]
fn render_writes_frontmatter_block() {
    let out = render_markdown("---\ngdocUrl: x\n", "body\r\n");
    assert_eq!(out, "---\ngdocUrl: x\n---\n\nbody\n");
}

#[test]
fn render_skips_empty_frontmatter() {
    assert_eq!(render_markdown("{}\n", "# T\n"), "# T\n");
    assert_eq!(render_markdown("  \n", "# T\n"), "# T\n");
}

#[test]
fn render_then_parse_gives_yaml_and_body_with_leading_newline() {
    let out = render_markdown("gitUrl: https://github.com/o/r/blob/main/a.md\n", "# A\nbody\n");
    let parsed = parse_frontmatter(&out);
    assert_eq!(parsed.yaml.as_deref(), Some("gitUrl: https://github.com/o/r/blob/main/a.md"));
    assert_eq!(parsed.content, "\n# A\nbody\n");
}

#[test]
fn upsert_appends_block_when_absent() {
    let out = upsert_dsync_links("# T\nbody\n\n\n", None, None, Some("https://g/x"));
    assert_eq!(
        out,
        "# T\nbody\n\n<!-- dsync-links:start -->\n## Document Links\n- Git: https://g/x\n<!-- dsync-links:end -->\n"
    );
}

#[test]
fn upsert_without_links_keeps_content() {
    let content = "# T\n<!-- dsync-links:start -->\nold\n<!-- dsync-links:end -->\n";
    assert_eq!(upsert_dsync_links(content, None, None, None), content);
}

#[test]
fn upsert_replaces_block_in_place() {
    let content = "# T\n<!-- dsync-links:start -->\nold\n<!-- dsync-links:end -->\n\n\nafter";
    let out = upsert_dsync_links(content, Some("G"), Some("L"), Some("H"));
    assert_eq!(
        out,
        "# T\n<!-- dsync-links:start -->\n## Document Links\n- GDocs: G\n- Linear: L\n- Git: H\n<!-- dsync-links:end -->\nafter"
    );
}

#[test]
fn upsert_twice_is_upsert_once() {
    let content = "# T\n\nsome text\n<!-- dsync-links:start -->\nold\n<!-- dsync-links:end -->\ntail\n";
    let once = upsert_dsync_links(content, Some("g"), None, Some("h"));
    let twice = upsert_dsync_links(&once, Some("g"), None, Some("h"));
    assert_eq!(once, twice);
    let plain = upsert_dsync_links("no block", None, Some("l"), None);
    assert_eq!(upsert_dsync_links(&plain, None, Some("l"), None), plain);
}

#[test]
fn upsert_result_holds_the_block() {
    let out = upsert_dsync_links("x <!-- dsync-links:start --> dangling", Some("g"), None, None);
    assert!(out.contains("<!-- dsync-links:start -->\n## Document Links\n- GDocs: g\n<!-- dsync-links:end -->"));
}

#[test]
fn name_from_stem_or_document() {
    assert_eq!(name_from_file_stem(Some("plan".to_string())), "plan");
    assert_eq!(name_from_file_stem(None), "document");
}

#[test]
fn render_then_parse_without_frontmatter_gives_the_body() {
    let out = render_markdown("{}\n", "# A\r\nbody");
    let parsed = parse_frontmatter(&out);
    assert_eq!(parsed.yaml, None);
    assert_eq!(parsed.content, "# A\nbody");
}

#[test]
fn duplicate_keeps_every_key() {
    let mut original = Frontmatter::default();
    original.gdoc_url = Some("g".to_string());
    original.git_url = Some("h".to_string());
    original.extra = vec![
        ("tags".to_string(), serde_yaml::from_str("[a, b]").unwrap()),
        ("title".to_string(), serde_yaml::Value::String("x".to_string())),
    ];
    let copy = original.duplicate();
    assert_eq!(copy, original);
    assert_eq!(copy.extra[1].1, serde_yaml::Value::String("x".to_string()));
}

#[test]
fn slug_of_a_slug_is_itself() {
    for title in ["Hello, World!", "  --Rust 2024--  ", "Café Olé", "a b  c"] {
        let slug = slugify(title);
        assert_eq!(slugify(&slug), slug);
    }
    let cut = slugify(&format!("{}-b", "a".repeat(79)));
    assert!(cut.ends_with('-'));
    assert_eq!(slugify(&cut), "a".repeat(79));
}
