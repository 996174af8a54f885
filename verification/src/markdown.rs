//! Markdown text handling: newline normalisation, headings, slugs, the
//! frontmatter envelope and the `dsync-links` block.

use vstd::prelude::*;
use crate::text::{
    chars_of, contains, extend, lemma_occurs_contains, lemma_find_from_is, lemma_trim_idempotent, starts_with_vec,
    ends_with, find, find_in, lemma_find_from, lemma_find_from_skip, occurs_at, slice, starts_with, strip_leading,
    strip_leading_vec, strip_trailing, strip_trailing_vec, string_of, trim, trim_vec,
    lemma_strip_leading_suffix, lemma_strip_trailing_prefix,
};

verus! {

// ---------------------------------------------------------------------------
// Newlines
// ---------------------------------------------------------------------------

/// `str::replace("\r\n", "\n")`: every CRLF pair, scanned left to right, becomes LF.
#[verifier::opaque]
pub open spec fn normalize(s: Seq<char>) -> Seq<char>
    decreases s.len(),
{
    if s.len() == 0 {
        Seq::empty()
    } else if s.len() >= 2 && s[0] == '\r' && s[1] == '\n' {
        seq!['\n'] + normalize(s.skip(2))
    } else {
        seq![s[0]] + normalize(s.skip(1))
    }
}

/// Normalised text that ends with a newline.
pub open spec fn with_trailing_newline(s: Seq<char>) -> Seq<char> {
    let n = normalize(s);
    if n.len() > 0 && n.last() == '\n' {
        n
    } else {
        n.push('\n')
    }
}

/// Replaces every `"\r\n"` in `s` by `"\n"`.
pub fn normalize_chars(s: &Vec<char>) -> (r: Vec<char>)
    ensures
        r@ == normalize(s@),
{
    reveal(normalize);
    let mut out: Vec<char> = Vec::new();
    let mut i: usize = 0;
    assert(s@.skip(0) =~= s@);
    while i < s.len()
        invariant
            i <= s.len(),
            out@ + normalize(s@.skip(i as int)) == normalize(s@),
        decreases s.len() - i,
    {
        let ghost rest = s@.skip(i as int);
        if i + 1 < s.len() && s[i] == '\r' && s[i + 1] == '\n' {
            out.push('\n');
            proof {
                reveal(normalize);
                assert(rest.skip(2) =~= s@.skip(i + 2));
                assert(out@ + normalize(s@.skip(i + 2)) =~= (out@.drop_last()) + normalize(rest));
            }
            i = i + 2;
        } else {
            out.push(s[i]);
            proof {
                reveal(normalize);
                assert(rest.skip(1) =~= s@.skip(i + 1));
                assert(out@ + normalize(s@.skip(i + 1)) =~= (out@.drop_last()) + normalize(rest));
            }
            i = i + 1;
        }
    }
    proof {
        assert(s@.skip(i as int) =~= Seq::<char>::empty());
        assert(out@ =~= normalize(s@));
    }
    out
}

/// Replaces every `"\r\n"` in `input` by `"\n"`.
pub fn normalize_newlines(input: &str) -> (r: String)
    ensures
        r@ == normalize(input@),
{
    let s = chars_of(input);
    let n = normalize_chars(&s);
    string_of(&n)
}

/// Normalises newlines and appends `'\n'` when the text does not end with one.
pub fn ensure_trailing_newline(content: &str) -> (r: String)
    ensures
        r@ == with_trailing_newline(content@),
        r@.len() > 0 && r@.last() == '\n',
{
    let normalized = normalize_newlines(content);
    let mut v = chars_of(normalized.as_str());
    if v.len() == 0 || v[v.len() - 1] != '\n' {
        v.push('\n');
    }
    string_of(&v)
}

// ---------------------------------------------------------------------------
// First heading
// ---------------------------------------------------------------------------

/// Index of the first `'\n'` of `s`, or its length.
pub open spec fn line_end(s: Seq<char>) -> int {
    match find(s, seq!['\n']) {
        Some(i) => i,
        None => s.len() as int,
    }
}

/// The first line of `s` as `str::lines` yields it: up to the first `'\n'`,
/// without a `'\r'` that precedes that `'\n'`.
pub open spec fn first_line(s: Seq<char>) -> Seq<char> {
    let k = line_end(s);
    let raw = s.take(k);
    if k < s.len() && raw.len() > 0 && raw.last() == '\r' {
        raw.drop_last()
    } else {
        raw
    }
}

pub proof fn lemma_line_end(s: Seq<char>)
    ensures
        0 <= line_end(s) <= s.len(),
        line_end(s) < s.len() ==> s[line_end(s)] == '\n',
        forall|j: int| 0 <= j < line_end(s) ==> s[j] != '\n',
{
    lemma_find_from(s, seq!['\n'], 0);
    let k = line_end(s);
    if k < s.len() {
        assert(s.subrange(k, k + 1)[0] == s[k]);
    }
    assert forall|j: int| 0 <= j < k implies s[j] != '\n' by {
        if s[j] == '\n' {
            assert(s.subrange(j, j + 1) =~= seq!['\n']);
            assert(occurs_at(s, seq!['\n'], j));
        }
    }
}

/// Text of the first line that starts with `"# "`, trimmed.
pub open spec fn first_heading_of(s: Seq<char>) -> Option<Seq<char>>
    decreases s.len(),
{
    if s.len() == 0 {
        None
    } else {
        let line = first_line(s);
        if starts_with(line, seq!['#', ' ']) {
            Some(trim(line.skip(2)))
        } else if line_end(s) < s.len() {
            proof {
                lemma_line_end(s);
            }
            first_heading_of(s.skip(line_end(s) + 1))
        } else {
            None
        }
    }
}

/// Index of the end of the line that starts at `i`.
fn line_end_from(s: &Vec<char>, newline: &Vec<char>, i: usize) -> (k: usize)
    requires
        i <= s.len(),
        newline@ == seq!['\n'],
    ensures
        k == i + line_end(s@.skip(i as int)),
{
    let ghost rest = s@.skip(i as int);
    proof {
        lemma_find_from_skip(s@, seq!['\n'], i as int, 0);
        lemma_find_from(s@, seq!['\n'], i as int);
        lemma_find_from(rest, seq!['\n'], 0);
    }
    match find_in(s, newline, i) {
        Some(k) => k,
        None => s.len(),
    }
}

/// Text of the first `# ` heading of `markdown`, trimmed.
pub fn first_heading(markdown: &str) -> (r: Option<String>)
    ensures
        r.deep_view() == first_heading_of(markdown@),
{
    let s = chars_of(markdown);
    let newline = vec!['\n'];
    let mut i: usize = 0;
    assert(s@.skip(0) =~= s@);
    while i < s.len()
        invariant
            i <= s.len(),
            newline@ == seq!['\n'],
            s@ == markdown@,
            first_heading_of(s@.skip(i as int)) == first_heading_of(s@),
        decreases s.len() - i,
    {
        let ghost rest = s@.skip(i as int);
        let k = line_end_from(&s, &newline, i);
        proof {
            lemma_line_end(rest);
        }
        let mut end = k;
        if k < s.len() && k > i && s[k - 1] == '\r' {
            end = k - 1;
        }
        let line = slice(&s, i, end);
        assert(line@ =~= first_line(rest));
        if line.len() >= 2 && line[0] == '#' && line[1] == ' ' {
            assert(line@.subrange(0, 2) =~= seq!['#', ' ']);
            let text = slice(&line, 2, line.len());
            let t = trim_vec(&text);
            assert(text@ =~= line@.skip(2));
            assert(first_heading_of(rest) == Some(trim(line@.skip(2))));
            return Some(string_of(&t));
        }
        assert(!starts_with(line@, seq!['#', ' '])) by {
            if starts_with(line@, seq!['#', ' ']) {
                assert(line@.subrange(0, 2)[0] == '#');
                assert(line@.subrange(0, 2)[1] == ' ');
            }
        }
        if k == s.len() {
            assert(first_heading_of(rest) is None);
            return None;
        }
        assert(rest.skip(line_end(rest) + 1) =~= s@.skip(k + 1));
        assert(first_heading_of(rest) == first_heading_of(s@.skip(k + 1)));
        i = k + 1;
    }
    assert(s@.skip(i as int).len() == 0);
    None
}

// ---------------------------------------------------------------------------
// Slugs
// ---------------------------------------------------------------------------

pub open spec fn is_ascii_alnum(c: char) -> bool {
    ('a' <= c && c <= 'z') || ('A' <= c && c <= 'Z') || ('0' <= c && c <= '9')
}

/// `char::to_ascii_lowercase`.
pub open spec fn ascii_lower(c: char) -> char {
    if 'A' <= c && c <= 'Z' {
        ((c as u8) + 32u8) as u8 as char
    } else {
        c
    }
}

/// Lower-cases ASCII letters and turns every run of other characters into one `'-'`;
/// `prev_dash` tells whether the output so far ends with such a dash.
pub open spec fn dashed(s: Seq<char>, prev_dash: bool) -> Seq<char>
    decreases s.len(),
{
    if s.len() == 0 {
        Seq::empty()
    } else {
        let c = ascii_lower(s[0]);
        if is_ascii_alnum(c) {
            seq![c] + dashed(s.drop_first(), false)
        } else if !prev_dash {
            seq!['-'] + dashed(s.drop_first(), true)
        } else {
            dashed(s.drop_first(), true)
        }
    }
}

/// The first `n` characters of `s`, or all of them.
pub open spec fn take_at_most(s: Seq<char>, n: nat) -> Seq<char> {
    if s.len() <= n {
        s
    } else {
        s.take(n as int)
    }
}

/// The slug of a title: dashed, without leading or trailing dashes, at most 80 characters.
pub open spec fn slug_of(title: Seq<char>) -> Seq<char> {
    take_at_most(strip_trailing(strip_leading(dashed(title, false), seq!['-']), seq!['-']), 80)
}

pub open spec fn is_slug_char(c: char) -> bool {
    ('a' <= c && c <= 'z') || ('0' <= c && c <= '9') || c == '-'
}

proof fn lemma_dashed_chars(s: Seq<char>, prev: bool)
    ensures
        forall|j: int| 0 <= j < dashed(s, prev).len() ==> is_slug_char(#[trigger] dashed(s, prev)[j]),
    decreases s.len(),
{
    if s.len() > 0 {
        lemma_dashed_chars(s.drop_first(), true);
        lemma_dashed_chars(s.drop_first(), false);
        let c = ascii_lower(s[0]);
        let d = dashed(s, prev);
        assert forall|j: int| 0 <= j < d.len() implies is_slug_char(#[trigger] d[j]) by {
            if is_ascii_alnum(c) {
                let r = dashed(s.drop_first(), false);
                assert(d == seq![c] + r);
                if j > 0 {
                    assert(d[j] == r[j - 1]);
                }
            } else if !prev {
                let r = dashed(s.drop_first(), true);
                assert(d == seq!['-'] + r);
                if j > 0 {
                    assert(d[j] == r[j - 1]);
                }
            } else {
                assert(d == dashed(s.drop_first(), true));
            }
        }
    }
}

/// The slug is short, made of slug characters, and does not start with a dash.
pub proof fn lemma_slug_shape(title: Seq<char>)
    ensures
        slug_of(title).len() <= 80,
        forall|j: int| 0 <= j < slug_of(title).len() ==> is_slug_char(#[trigger] slug_of(title)[j]),
        slug_of(title).len() > 0 ==> slug_of(title)[0] != '-',
{
    let d = dashed(title, false);
    let a = strip_leading(d, seq!['-']);
    let b = strip_trailing(a, seq!['-']);
    let c = slug_of(title);
    lemma_dashed_chars(title, false);
    lemma_strip_leading_suffix(d, seq!['-']);
    lemma_strip_trailing_prefix(a, seq!['-']);
    assert forall|j: int| 0 <= j < c.len() implies is_slug_char(#[trigger] c[j]) by {
        assert(c[j] == b[j]);
        assert(b[j] == a[j]);
        assert(a[j] == d[d.len() - a.len() + j]);
    }
    if c.len() > 0 {
        assert(c[0] == a[0]);
        if a[0] == '-' {
            assert(a.subrange(0, 1) =~= seq!['-']);
        }
    }
}

/// No two dashes in a row.
pub open spec fn no_double_dash(s: Seq<char>) -> bool {
    forall|j: int| 0 <= j < s.len() - 1 ==> !(#[trigger] s[j] == '-' && s[j + 1] == '-')
}

/// Dashing never yields two dashes in a row, nor a leading dash after one.
proof fn lemma_dashed_single(s: Seq<char>, prev: bool)
    ensures
        no_double_dash(dashed(s, prev)),
        prev && dashed(s, prev).len() > 0 ==> dashed(s, prev)[0] != '-',
    decreases s.len(),
{
    if s.len() > 0 {
        lemma_dashed_single(s.drop_first(), true);
        lemma_dashed_single(s.drop_first(), false);
        let c = ascii_lower(s[0]);
        let d = dashed(s, prev);
        if is_ascii_alnum(c) {
            let r = dashed(s.drop_first(), false);
            assert(d == seq![c] + r);
            assert forall|j: int| 0 <= j < d.len() - 1 implies !(#[trigger] d[j] == '-' && d[j + 1]
                == '-') by {
                if j > 0 {
                    assert(d[j] == r[j - 1] && d[j + 1] == r[j]);
                }
            }
        } else if !prev {
            let r = dashed(s.drop_first(), true);
            assert(d == seq!['-'] + r);
            assert forall|j: int| 0 <= j < d.len() - 1 implies !(#[trigger] d[j] == '-' && d[j + 1]
                == '-') by {
                if j > 0 {
                    assert(d[j] == r[j - 1] && d[j + 1] == r[j]);
                } else {
                    assert(d[1] == r[0]);
                }
            }
        } else {
            assert(d == dashed(s.drop_first(), true));
        }
    }
}

/// Text made of slug characters with no two dashes in a row (and no leading
/// dash after a dash) is its own dashed form.
proof fn lemma_dashed_fixed(s: Seq<char>, prev: bool)
    requires
        forall|j: int| 0 <= j < s.len() ==> is_slug_char(#[trigger] s[j]),
        no_double_dash(s),
        prev && s.len() > 0 ==> s[0] != '-',
    ensures
        dashed(s, prev) == s,
    decreases s.len(),
{
    if s.len() > 0 {
        let r = s.drop_first();
        assert(is_slug_char(s[0]));
        assert forall|j: int| 0 <= j < r.len() implies is_slug_char(#[trigger] r[j]) by {
            assert(r[j] == s[j + 1]);
            assert(is_slug_char(s[j + 1]));
        }
        assert forall|j: int| 0 <= j < r.len() - 1 implies !(#[trigger] r[j] == '-' && r[j + 1]
            == '-') by {
            assert(r[j] == s[j + 1] && r[j + 1] == s[j + 2]);
            assert(!(s[j + 1] == '-' && s[j + 2] == '-'));
        }
        if s[0] == '-' && r.len() > 0 {
            assert(!(s[0] == '-' && s[1] == '-'));
            assert(r[0] == s[1]);
        }
        lemma_dashed_fixed(r, s[0] == '-');
        assert(ascii_lower(s[0]) == s[0]);
        assert(s =~= seq![s[0]] + r);
    }
}

/// A slug that does not end with a dash is its own slug (a slug cut at 80
/// characters right after a dash is not: the dash goes).
pub proof fn lemma_slug_idempotent(title: Seq<char>)
    requires
        !(slug_of(title).len() > 0 && slug_of(title).last() == '-'),
    ensures
        slug_of(slug_of(title)) == slug_of(title),
{
    let d = dashed(title, false);
    let a = strip_leading(d, seq!['-']);
    let b = strip_trailing(a, seq!['-']);
    let c = slug_of(title);
    lemma_slug_shape(title);
    lemma_dashed_single(title, false);
    lemma_strip_leading_suffix(d, seq!['-']);
    lemma_strip_trailing_prefix(a, seq!['-']);
    let off = d.len() - a.len();
    assert forall|j: int| 0 <= j < c.len() - 1 implies !(#[trigger] c[j] == '-' && c[j + 1] == '-') by {
        assert(c[j] == b[j] && c[j + 1] == b[j + 1]);
        assert(b[j] == a[j] && b[j + 1] == a[j + 1]);
        assert(a[j] == d[off + j] && a[j + 1] == d[off + j + 1]);
        assert(!(d[off + j] == '-' && d[off + j + 1] == '-'));
    }
    lemma_dashed_fixed(c, false);
    if c.len() > 0 {
        if starts_with(c, seq!['-']) {
            assert(c.subrange(0, 1)[0] == c[0]);
        }
        if ends_with(c, seq!['-']) {
            assert(c.subrange(c.len() - 1, c.len() as int)[0] == c.last());
        }
    }
    assert(strip_leading(c, seq!['-']) == c);
    assert(strip_trailing(c, seq!['-']) == c);
}

/// Lower-cased ASCII letters and digits, with every other run of characters
/// collapsed to one `'-'`; no leading or trailing dash before the cut to 80 characters.
pub fn slugify(title: &str) -> (r: String)
    ensures
        r@ == slug_of(title@),
        r@.len() <= 80,
        forall|j: int| 0 <= j < r@.len() ==> is_slug_char(#[trigger] r@[j]),
        r@.len() > 0 ==> r@[0] != '-',
{
    let s = chars_of(title);
    let mut out: Vec<char> = Vec::new();
    let mut previous_was_dash = false;
    let mut i: usize = 0;
    assert(s@.skip(0) =~= s@);
    while i < s.len()
        invariant
            i <= s.len(),
            s@ == title@,
            out@ + dashed(s@.skip(i as int), previous_was_dash) == dashed(s@, false),
        decreases s.len() - i,
    {
        let ghost rest = s@.skip(i as int);
        let ghost before = out@;
        let ghost prev_old = previous_was_dash;
        let ch = s[i];
        let normalized = if 'A' <= ch && ch <= 'Z' {
            ((ch as u8) + 32u8) as char
        } else {
            ch
        };
        assert(normalized == ascii_lower(rest[0]));
        assert(rest.drop_first() =~= s@.skip(i + 1));
        if ('a' <= normalized && normalized <= 'z') || ('A' <= normalized && normalized <= 'Z') || (
        '0' <= normalized && normalized <= '9') {
            out.push(normalized);
            previous_was_dash = false;
            assert(dashed(rest, prev_old) == seq![normalized] + dashed(rest.drop_first(), false));
            assert(out@ + dashed(s@.skip(i + 1), false) =~= before + dashed(rest, prev_old));
        } else if !previous_was_dash {
            out.push('-');
            previous_was_dash = true;
            assert(dashed(rest, prev_old) == seq!['-'] + dashed(rest.drop_first(), true));
            assert(out@ + dashed(s@.skip(i + 1), true) =~= before + dashed(rest, prev_old));
        } else {
            assert(dashed(rest, prev_old) == dashed(rest.drop_first(), true));
        }
        i = i + 1;
    }
    let dash = vec!['-'];
    assert(dash@ =~= seq!['-']);
    let a = strip_leading_vec(&out, &dash);
    let b = strip_trailing_vec(&a, &dash);
    let n = if b.len() <= 80 { b.len() } else { 80 };
    let c = slice(&b, 0, n);
    proof {
        assert(s@.skip(i as int) =~= Seq::<char>::empty());
        assert(out@ =~= dashed(s@, false));
        assert(c@ =~= take_at_most(b@, 80));
        lemma_slug_shape(title@);
    }
    string_of(&c)
}


// ---------------------------------------------------------------------------
// Frontmatter envelope
// ---------------------------------------------------------------------------

/// The line that opens a frontmatter block.
pub open spec fn fm_open() -> Seq<char> {
    seq!['-', '-', '-', '\n']
}

/// The line that closes it (with the newline before it).
pub open spec fn fm_close() -> Seq<char> {
    seq!['\n', '-', '-', '-', '\n']
}

/// A Markdown file split into its frontmatter YAML (when there is some to
/// parse) and its body.
pub struct ParsedMarkdown {
    /// YAML text between the delimiters; `None` when the file has no
    /// frontmatter or a blank one, which both stand for the empty frontmatter.
    pub yaml: Option<String>,
    /// The body, with CRLF normalised to LF.
    pub content: String,
}

/// What `parse_frontmatter` returns, as (YAML to parse, body).
pub open spec fn parsed_markdown(raw: Seq<char>) -> (Option<Seq<char>>, Seq<char>) {
    if !starts_with(raw, fm_open()) {
        (None, normalize(raw))
    } else {
        let rest = raw.skip(4);
        match find(rest, fm_close()) {
            Some(e) => {
                let yaml = rest.take(e);
                (
                    if trim(yaml).len() == 0 {
                        None
                    } else {
                        Some(yaml)
                    },
                    normalize(rest.skip(e + 5)),
                )
            },
            None => (None, normalize(raw)),
        }
    }
}

/// Splits a Markdown file into its frontmatter YAML and its body: the file
/// must start with `"---\n"` and the block ends at the first `"\n---\n"`;
/// otherwise the whole file is the body.
pub fn parse_frontmatter(raw: &str) -> (r: ParsedMarkdown)
    ensures
        (r.yaml.deep_view(), r.content@) == parsed_markdown(raw@),
{
    let s = chars_of(raw);
    let open = vec!['-', '-', '-', '\n'];
    let close = vec!['\n', '-', '-', '-', '\n'];
    assert(open@ =~= fm_open());
    assert(close@ =~= fm_close());
    if starts_with_vec(&s, &open) {
        let rest = slice(&s, 4, s.len());
        assert(rest@ =~= s@.skip(4));
        if let Some(e) = find_in(&rest, &close, 0) {
            proof {
                lemma_find_from(rest@, fm_close(), 0);
                assert(occurs_at(rest@, fm_close(), e as int));
            }
            let yaml = slice(&rest, 0, e);
            let body = slice(&rest, e + 5, rest.len());
            let trimmed = trim_vec(&yaml);
            let content = normalize_chars(&body);
            assert(yaml@ =~= rest@.take(e as int));
            assert(body@ =~= rest@.skip(e + 5));
            let y = if trimmed.len() == 0 {
                None
            } else {
                Some(string_of(&yaml))
            };
            return ParsedMarkdown { yaml: y, content: string_of(&content) };
        }
    }
    let content = normalize_chars(&s);
    ParsedMarkdown { yaml: None, content: string_of(&content) }
}

/// Serialised YAML as it goes between the delimiters: trimmed, without a
/// leading `---` document marker.
pub open spec fn clean_yaml(yaml: Seq<char>) -> Seq<char> {
    trim(strip_leading(trim(yaml), seq!['-', '-', '-']))
}

/// What `render_markdown` returns.
pub open spec fn rendered(yaml: Seq<char>, content: Seq<char>) -> Seq<char> {
    let y = clean_yaml(yaml);
    if y.len() == 0 || y == seq!['{', '}'] {
        normalize(content)
    } else {
        fm_open() + y + fm_close() + seq!['\n'] + normalize(content)
    }
}

/// The text of a Markdown file from its serialised frontmatter and its body:
/// `"---\n{yaml}\n---\n\n{body}"`, or the body alone when the frontmatter is
/// empty (`""` or `"{}"`).
pub fn render_markdown(yaml: &str, content: &str) -> (r: String)
    ensures
        r@ == rendered(yaml@, content@),
{
    let y0 = chars_of(yaml);
    let y1 = trim_vec(&y0);
    let dashes = vec!['-', '-', '-'];
    assert(dashes@ =~= seq!['-', '-', '-']);
    let y2 = strip_leading_vec(&y1, &dashes);
    let y = trim_vec(&y2);
    let c = chars_of(content);
    let body = normalize_chars(&c);
    let braces = vec!['{', '}'];
    assert(braces@ =~= seq!['{', '}']);
    let is_braces = y.len() == 2 && starts_with_vec(&y, &braces);
    assert(is_braces == (y@ == seq!['{', '}'])) by {
        if y@.len() == 2 && starts_with(y@, seq!['{', '}']) {
            assert(y@ =~= y@.subrange(0, 2));
        }
        if y@ == seq!['{', '}'] {
            assert(y@.subrange(0, 2) =~= seq!['{', '}']);
        }
    }
    if y.len() == 0 || is_braces {
        return string_of(&body);
    }
    let mut out = vec!['-', '-', '-', '\n'];
    extend(&mut out, &y);
    let close = vec!['\n', '-', '-', '-', '\n', '\n'];
    extend(&mut out, &close);
    extend(&mut out, &body);
    assert(out@ =~= rendered(yaml@, content@));
    string_of(&out)
}

/// The closing delimiter right after a YAML text that holds none is the first one.
#[verifier::rlimit(50)]
proof fn lemma_close_first(y: Seq<char>, tail: Seq<char>)
    requires
        !contains(y + seq!['\n', '-', '-', '-'], fm_close()),
    ensures
        find(y + fm_close() + tail, fm_close()) == Some(y.len() as int),
{
    let rest = y + fm_close() + tail;
    let x = y + seq!['\n', '-', '-', '-'];
    assert(rest.subrange(y.len() as int, y.len() + 5int) =~= fm_close());
    assert forall|j: int| 0 <= j < y.len() implies !occurs_at(rest, fm_close(), j) by {
        if occurs_at(rest, fm_close(), j) {
            assert(x.subrange(j, j + 5) =~= rest.subrange(j, j + 5));
            lemma_occurs_contains(x, fm_close(), j);
        }
    }
    assert(occurs_at(rest, fm_close(), y.len() as int));
    lemma_find_from_is(rest, fm_close(), 0, y.len() as int);
}

/// Reading back a rendered file gives the YAML that was written and the body
/// with one more leading newline, as long as the YAML holds no closing
/// delimiter line.
pub proof fn lemma_render_then_parse(yaml: Seq<char>, content: Seq<char>)
    requires
        clean_yaml(yaml).len() > 0,
        clean_yaml(yaml) != seq!['{', '}'],
        !contains(clean_yaml(yaml) + seq!['\n', '-', '-', '-'], fm_close()),
    ensures
        parsed_markdown(rendered(yaml, content)) == (
            Some(clean_yaml(yaml)),
            normalize(seq!['\n'] + normalize(content)),
        ),
{
    let y = clean_yaml(yaml);
    let nc = normalize(content);
    let raw = rendered(yaml, content);
    assert(raw == fm_open() + y + fm_close() + seq!['\n'] + nc);
    assert(raw.subrange(0, 4) =~= fm_open());
    let rest = raw.skip(4);
    let tail = seq!['\n'] + nc;
    assert(rest =~= y + fm_close() + tail);
    lemma_close_first(y, tail);
    assert(rest.take(y.len() as int) =~= y);
    lemma_trim_idempotent(strip_leading(trim(yaml), seq!['-', '-', '-']));
    assert(trim(y) == y);
    assert(rest.skip(y.len() + 5int) =~= tail);
}

/// Text without a carriage return is left as it is by newline normalisation.
pub proof fn lemma_normalize_no_cr(s: Seq<char>)
    requires
        forall|j: int| 0 <= j < s.len() ==> s[j] != '\r',
    ensures
        normalize(s) == s,
    decreases s.len(),
{
    reveal(normalize);
    if s.len() > 0 {
        let r = s.skip(1);
        assert forall|j: int| 0 <= j < r.len() implies r[j] != '\r' by {
            assert(r[j] == s[j + 1]);
        }
        lemma_normalize_no_cr(r);
        assert(s =~= seq![s[0]] + r);
    }
}

/// For a body without carriage returns, the rendered file is
/// `"---\n{yaml}\n---\n\n{body}"`, and reading it back gives the YAML that was
/// written and the body with one more leading newline, as long as the YAML
/// holds no closing delimiter line.
pub proof fn lemma_render_then_parse_exact(yaml: Seq<char>, content: Seq<char>)
    requires
        clean_yaml(yaml).len() > 0,
        clean_yaml(yaml) != seq!['{', '}'],
        !contains(clean_yaml(yaml) + seq!['\n', '-', '-', '-'], fm_close()),
        forall|j: int| 0 <= j < content.len() ==> content[j] != '\r',
    ensures
        rendered(yaml, content) == fm_open() + clean_yaml(yaml) + fm_close() + seq!['\n'] + content,
        parsed_markdown(rendered(yaml, content)) == (
            Some(clean_yaml(yaml)),
            seq!['\n'] + content,
        ),
{
    lemma_normalize_no_cr(content);
    let nl = seq!['\n'] + content;
    assert forall|j: int| 0 <= j < nl.len() implies nl[j] != '\r' by {
        if j > 0 {
            assert(nl[j] == content[j - 1]);
        }
    }
    lemma_normalize_no_cr(nl);
    lemma_render_then_parse(yaml, content);
}

/// With an empty frontmatter, reading back a rendered file gives the empty
/// frontmatter and the body, when the body does not itself open a frontmatter block.
pub proof fn lemma_render_then_parse_plain(yaml: Seq<char>, content: Seq<char>)
    requires
        clean_yaml(yaml).len() == 0 || clean_yaml(yaml) == seq!['{', '}'],
        !starts_with(normalize(content), fm_open()),
    ensures
        parsed_markdown(rendered(yaml, content)) == (None::<Seq<char>>, normalize(normalize(content))),
{
}

// ---------------------------------------------------------------------------
// File names
// ---------------------------------------------------------------------------

/// The stem of the last component of a path (`Path::file_stem`), under the
/// path rules of the target the crate is built for.
pub uninterp spec fn path_file_stem(path: Seq<char>) -> Option<Seq<char>>;

/// `Path::file_stem` of `path`, as text. The stem is taken from the file name
/// of a `str` path, so it is valid UTF-8 and the conversion back always
/// succeeds; the contract claims only that the result is determined by the path.
#[verifier::external_body]
fn file_stem_of(path: &str) -> (r: Option<String>)
    ensures
        r.deep_view() == path_file_stem(path@),
{
    std::path::Path::new(path).file_stem().and_then(|s| s.to_str()).map(|s| s.to_string())
}

/// The name a file stem gives a document: the stem, or `"document"` when the
/// path has none.
pub open spec fn name_from_stem(stem: Option<Seq<char>>) -> Seq<char> {
    match stem {
        Some(s) => s,
        None => "document"@,
    }
}

/// The name of a document from the file stem of its path (when it has one).
pub fn name_from_file_stem(stem: Option<String>) -> (r: String)
    ensures
        r@ == name_from_stem(stem.deep_view()),
{
    match stem {
        Some(s) => s,
        None => String::from_str("document"),
    }
}

/// The file stem of `path`, or `"document"` when it has none.
pub fn file_stem_fallback(path: &str) -> (r: String)
    ensures
        r@ == name_from_stem(path_file_stem(path@)),
{
    name_from_file_stem(file_stem_of(path))
}

} // verus!
